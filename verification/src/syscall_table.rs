//! Loading the system call table from its text.
//!
//! The table is comma-separated text without a header line. A row holds the
//! call's number, its name, and up to six argument declarations, for the
//! registers `rdi`, `rsi`, `rdx`, `r10`, `r8` and `r9`; a row may stop early,
//! and an empty cell stands for an argument that the call does not have. A
//! number may stand in one row only.

use crate::syscalls::{parse_result, Call, Parameter, Syscall, SyscallEntry};
use crate::text::{number_value, parse_decimal};
use std::collections::HashMap;
use vstd::prelude::*;
use vstd::string::*;

verus! {

broadcast use vstd::std_specs::hash::group_hash_axioms;

/// The rows and fields that `csv::Reader::records` yields for `text`, read
/// without a header line and with rows of any width; `None` where the reader
/// reports an error.
pub uninterp spec fn csv_rows(text: Seq<u8>) -> Option<Seq<Seq<Seq<char>>>>;

/// The error type of the `csv` crate.
#[verifier::external_type_specification]
#[verifier::external_body]
pub struct ExCsvError(csv::Error);

/// `csv::ReaderBuilder` with `has_headers(false)` and `flexible(true)`,
/// `from_reader` on the text, and `records`: all the rows with all their
/// fields, or the first error that the reader reports. The contract only
/// names the result. Not proved.
#[verifier::external_body]
pub(crate) fn read_rows(text: &[u8]) -> (rows: Result<Vec<Vec<String>>, csv::Error>)
    ensures
        match rows {
            Ok(found) => csv_rows(text@) == Some(found.deep_view()),
            Err(_) => csv_rows(text@) is None,
        },
{
    csv::ReaderBuilder::new()
        .has_headers(false)
        .flexible(true)
        .from_reader(text)
        .records()
        .map(|row| row.map(|fields| fields.iter().map(|field| field.to_string()).collect()))
        .collect()
}

/// Why a table could not be loaded.
#[derive(Clone, Copy, Debug, PartialEq, Eq, Structural)]
pub enum TableError {
    /// The text is not comma-separated values.
    Unreadable,
    /// The row holds nothing.
    MissingNumber { row: usize },
    /// The first cell of the row is no number.
    InvalidNumber { row: usize },
    /// The row holds no name.
    MissingName { row: usize },
    /// The cell in this column of the row is no argument declaration.
    InvalidParameter { row: usize, column: usize },
    /// The row's number stands in an earlier row too.
    DuplicateNumber { row: usize },
}

/// The argument in `column` of `row`: none where the row ends before it or
/// the cell is empty, else what the cell declares. `Err` where the cell is no
/// declaration.
pub open spec fn cell_parameter(row: Seq<Seq<char>>, column: int) -> Result<Option<Parameter>, ()> {
    if column >= row.len() || row[column].len() == 0 {
        Ok(None)
    } else {
        match parse_result(row[column]) {
            Some(parameter) => Ok(Some(parameter)),
            None => Err(()),
        }
    }
}

/// The first of the argument columns from `column` on whose cell is no
/// declaration.
pub open spec fn first_invalid_column(row: Seq<Seq<char>>, column: int) -> Option<int>
    decreases 8 - column,
{
    if column >= 8 {
        None
    } else if cell_parameter(row, column) is Err {
        Some(column)
    } else {
        first_invalid_column(row, column + 1)
    }
}

/// The call that row number `index` describes, with its number.
pub open spec fn row_call(row: Seq<Seq<char>>, index: usize) -> Result<(u64, Call), TableError> {
    if row.len() < 1 {
        Err(TableError::MissingNumber { row: index })
    } else if number_value(row[0]) is None {
        Err(TableError::InvalidNumber { row: index })
    } else if row.len() < 2 {
        Err(TableError::MissingName { row: index })
    } else {
        match first_invalid_column(row, 2) {
            Some(column) => Err(TableError::InvalidParameter { row: index, column: column as usize }),
            None => Ok(
                (
                    number_value(row[0]).unwrap(),
                    Call {
                        name: row[1],
                        rdi: cell_parameter(row, 2).unwrap(),
                        rsi: cell_parameter(row, 3).unwrap(),
                        rdx: cell_parameter(row, 4).unwrap(),
                        r10: cell_parameter(row, 5).unwrap(),
                        r8: cell_parameter(row, 6).unwrap(),
                        r9: cell_parameter(row, 7).unwrap(),
                    },
                ),
            ),
        }
    }
}

/// The table that `rows` describe: the calls by number, or the error of the
/// first row that is wrong or repeats a number.
pub open spec fn table_of(rows: Seq<Seq<Seq<char>>>) -> Result<Map<u64, Call>, TableError>
    decreases rows.len(),
{
    if rows.len() == 0 {
        Ok(Map::empty())
    } else {
        let index = (rows.len() - 1) as usize;
        match table_of(rows.drop_last()) {
            Err(e) => Err(e),
            Ok(calls) => match row_call(rows.last(), index) {
                Err(e) => Err(e),
                Ok((number, call)) => if calls.contains_key(number) {
                    Err(TableError::DuplicateNumber { row: index })
                } else {
                    Ok(calls.insert(number, call))
                },
            },
        }
    }
}

/// The table that `text` holds.
pub open spec fn table_from_text(text: Seq<u8>) -> Result<Map<u64, Call>, TableError> {
    match csv_rows(text) {
        Some(rows) => table_of(rows),
        None => Err(TableError::Unreadable),
    }
}

/// The system calls by number.
#[derive(Debug)]
pub struct SyscallTable {
    calls: HashMap<u64, Syscall>,
}

impl View for SyscallTable {
    type V = Map<u64, Call>;

    closed spec fn view(&self) -> Map<u64, Call> {
        self.calls@.map_values(|call: Syscall| call.deep_view())
    }
}

fn parse_cell(row: &Vec<String>, column: usize) -> (slot: Result<Option<SyscallEntry>, ()>)
    ensures
        match slot {
            Ok(entry) => cell_parameter(row.deep_view(), column as int) == Ok::<
                Option<Parameter>,
                (),
            >(entry.deep_view()),
            Err(_) => cell_parameter(row.deep_view(), column as int) is Err,
        },
{
    if column >= row.len() {
        return Ok(None);
    }
    let cell = row[column].as_str();
    assert(cell@ == row.deep_view()[column as int]);
    if cell.unicode_len() == 0 {
        return Ok(None);
    }
    match SyscallEntry::parse(cell) {
        Some(entry) => Ok(Some(entry)),
        None => Err(()),
    }
}

fn parse_row(row: &Vec<String>, index: usize) -> (parsed: Result<(u64, Syscall), TableError>)
    ensures
        match parsed {
            Ok((number, call)) => row_call(row.deep_view(), index) == Ok::<
                (u64, Call),
                TableError,
            >((number, call.deep_view())),
            Err(e) => row_call(row.deep_view(), index) == Err::<(u64, Call), TableError>(e),
        },
{
    let ghost cells = row.deep_view();
    if row.len() < 1 {
        return Err(TableError::MissingNumber { row: index });
    }
    assert(row[0]@ == cells[0]);
    let number = match parse_decimal(row[0].as_str()) {
        Some(number) => number,
        None => {
            return Err(TableError::InvalidNumber { row: index });
        },
    };
    if row.len() < 2 {
        return Err(TableError::MissingName { row: index });
    }
    assert(row[1]@ == cells[1]);
    proof {
        reveal_with_fuel(first_invalid_column, 7);
    }
    let rdi = match parse_cell(row, 2) {
        Ok(slot) => slot,
        Err(_) => {
            return Err(TableError::InvalidParameter { row: index, column: 2 });
        },
    };
    let rsi = match parse_cell(row, 3) {
        Ok(slot) => slot,
        Err(_) => {
            return Err(TableError::InvalidParameter { row: index, column: 3 });
        },
    };
    let rdx = match parse_cell(row, 4) {
        Ok(slot) => slot,
        Err(_) => {
            return Err(TableError::InvalidParameter { row: index, column: 4 });
        },
    };
    let r10 = match parse_cell(row, 5) {
        Ok(slot) => slot,
        Err(_) => {
            return Err(TableError::InvalidParameter { row: index, column: 5 });
        },
    };
    let r8 = match parse_cell(row, 6) {
        Ok(slot) => slot,
        Err(_) => {
            return Err(TableError::InvalidParameter { row: index, column: 6 });
        },
    };
    let r9 = match parse_cell(row, 7) {
        Ok(slot) => slot,
        Err(_) => {
            return Err(TableError::InvalidParameter { row: index, column: 7 });
        },
    };
    Ok((number, Syscall { name: row[1].clone(), rdi, rsi, rdx, r10, r8, r9 }))
}

impl SyscallTable {
    /// The table that `rows` describe.
    pub fn from_rows(rows: &Vec<Vec<String>>) -> (table: Result<SyscallTable, TableError>)
        ensures
            match table {
                Ok(loaded) => table_of(rows.deep_view()) == Ok::<Map<u64, Call>, TableError>(
                    loaded@,
                ),
                Err(e) => table_of(rows.deep_view()) == Err::<Map<u64, Call>, TableError>(e),
            },
    {
        let ghost all = rows.deep_view();
        let mut calls: HashMap<u64, Syscall> = HashMap::new();
        let mut i: usize = 0;
        assert(all.take(0) =~= Seq::empty());
        assert(calls@.map_values(|call: Syscall| call.deep_view()) =~= Map::empty());
        while i < rows.len()
            invariant
                i <= rows.len(),
                all == rows.deep_view(),
                table_of(all.take(i as int)) == Ok::<Map<u64, Call>, TableError>(
                    calls@.map_values(|call: Syscall| call.deep_view()),
                ),
            decreases rows.len() - i,
        {
            let ghost earlier = all.take(i as int);
            let ghost upto = all.take(i + 1);
            let ghost before = calls@;
            proof {
                assert(upto.drop_last() =~= earlier);
                assert(upto.last() == rows[i as int].deep_view());
            }
            match parse_row(&rows[i], i) {
                Err(e) => {
                    proof {
                        lemma_table_error_stays(all, i + 1);
                    }
                    return Err(e);
                },
                Ok((number, call)) => {
                    if calls.contains_key(&number) {
                        proof {
                            lemma_table_error_stays(all, i + 1);
                        }
                        return Err(TableError::DuplicateNumber { row: i });
                    }
                    let ghost described = call.deep_view();
                    calls.insert(number, call);
                    assert(calls@.map_values(|call: Syscall| call.deep_view()) =~= before.map_values(
                        |call: Syscall| call.deep_view(),
                    ).insert(number, described));
                },
            }
            i = i + 1;
        }
        assert(all.take(rows.len() as int) =~= all);
        Ok(SyscallTable { calls })
    }

    /// The table that `text` holds.
    pub fn load(text: &[u8]) -> (table: Result<SyscallTable, TableError>)
        ensures
            match table {
                Ok(loaded) => table_from_text(text@) == Ok::<Map<u64, Call>, TableError>(loaded@),
                Err(e) => table_from_text(text@) == Err::<Map<u64, Call>, TableError>(e),
            },
    {
        match read_rows(text) {
            Ok(rows) => Self::from_rows(&rows),
            Err(_) => Err(TableError::Unreadable),
        }
    }

    /// The call with this number, where the table knows it.
    pub fn get(&self, number: u64) -> (call: Option<&Syscall>)
        ensures
            call.deep_view() == if self@.contains_key(number) {
                Some(self@[number])
            } else {
                None
            },
    {
        self.calls.get(&number)
    }

    /// How many calls the table knows.
    pub fn len(&self) -> (count: usize)
        ensures
            count == self@.len(),
    {
        proof {
            assert(self@.dom() =~= self.calls@.dom());
        }
        self.calls.len()
    }
}

/// Once the rows up to `k` give an error, all the rows give that error.
pub proof fn lemma_table_error_stays(rows: Seq<Seq<Seq<char>>>, k: int)
    requires
        0 <= k <= rows.len(),
        table_of(rows.take(k)) is Err,
    ensures
        table_of(rows) == table_of(rows.take(k)),
    decreases rows.len() - k,
{
    if k == rows.len() {
        assert(rows.take(k) =~= rows);
    } else {
        let longer = rows.take(k + 1);
        assert(longer.drop_last() =~= rows.take(k));
        lemma_table_error_stays(rows, k + 1);
    }
}

} // verus!
