//! The system call table: for each call number its name, and for each
//! argument register that the call uses, what the argument is.
//!
//! An argument is described by a declaration in the manner of C, such as
//! `const char *filename` or `char *const argv[]`: a type, a space, any number
//! of `*`, a name, and `[]` where the argument is an array. The name is made
//! of letters, digits, `_` and `-`, so the space in front of the stars is the
//! last space of the declaration.

use vstd::prelude::*;
use vstd::string::*;

verus! {

/// Whether `c` may stand in an argument's name.
pub open spec fn is_name_char(c: char) -> bool {
    ||| 'a' <= c <= 'z'
    ||| 'A' <= c <= 'Z'
    ||| '0' <= c <= '9'
    ||| c == '_'
    ||| c == '-'
}

/// Whether `decl` is a declaration with the separating space at `space`, the
/// name from `name_start` up to `name_end`, stars between the two, no line
/// break in the type, and nothing or `[]` behind the name.
pub open spec fn splits_at(decl: Seq<char>, space: int, name_start: int, name_end: int) -> bool {
    &&& 0 <= space < name_start <= name_end <= decl.len()
    &&& decl[space] == ' '
    &&& forall|i: int| 0 <= i < space ==> decl[i] != '\n'
    &&& forall|i: int| space < i < name_start ==> decl[i] == '*'
    &&& forall|i: int| name_start <= i < name_end ==> is_name_char(decl[i])
    &&& (name_end == decl.len() || (name_end + 2 == decl.len() && decl[name_end] == '['
        && decl[name_end + 1] == ']'))
}

/// Whether `decl` is a declaration at all.
pub open spec fn is_declaration(decl: Seq<char>) -> bool {
    exists|space: int, name_start: int, name_end: int|
        splits_at(decl, space, name_start, name_end)
}

/// Whether the type text `field_type` mentions `char`.
pub open spec fn mentions_char(field_type: Seq<char>) -> bool {
    exists|i: int|
        0 <= i && i + 4 <= field_type.len() && #[trigger] field_type.subrange(i, i + 4)
            == seq!['c', 'h', 'a', 'r']
}

/// One argument of a system call as mathematics.
pub struct Parameter {
    pub field_type: Seq<char>,
    pub is_string: bool,
    pub is_pointer: bool,
    pub field_name: Seq<char>,
    pub is_array: bool,
}

/// The argument that `decl` declares when split as given: a string where the
/// type mentions `char`, a pointer where a star stands in front of the name,
/// an array where `[]` stands behind it.
pub open spec fn parameter_at(decl: Seq<char>, space: int, name_start: int, name_end: int) -> Parameter {
    Parameter {
        field_type: decl.subrange(0, space),
        is_string: mentions_char(decl.subrange(0, space)),
        is_pointer: name_start > space + 1,
        field_name: decl.subrange(name_start, name_end),
        is_array: name_end < decl.len(),
    }
}

/// The argument that `decl` declares.
pub open spec fn declared(decl: Seq<char>) -> Parameter {
    let (space, name_start, name_end) = choose|space: int, name_start: int, name_end: int|
        splits_at(decl, space, name_start, name_end);
    parameter_at(decl, space, name_start, name_end)
}

/// What parsing `decl` gives: its argument, where it is a declaration.
pub open spec fn parse_result(decl: Seq<char>) -> Option<Parameter> {
    if is_declaration(decl) {
        Some(declared(decl))
    } else {
        None
    }
}

/// A declaration splits in one way only.
pub proof fn lemma_split_unique(
    decl: Seq<char>,
    space: int,
    name_start: int,
    name_end: int,
    other_space: int,
    other_start: int,
    other_end: int,
)
    requires
        splits_at(decl, space, name_start, name_end),
        splits_at(decl, other_space, other_start, other_end),
    ensures
        space == other_space,
        name_start == other_start,
        name_end == other_end,
{
    let n = decl.len() as int;
    // The last character tells whether `[]` stands at the end.
    if name_end != other_end {
        let last = decl[n - 1];
        if name_end == n {
            assert(other_end + 2 == n && last == ']');
            lemma_not_bracket(decl, space, name_start, name_end, n - 1);
        } else {
            assert(name_end + 2 == n && last == ']');
            lemma_not_bracket(decl, other_space, other_start, other_end, n - 1);
        }
    }
    if name_start < other_start {
        assert(is_name_char(decl[other_start - 1]));
    } else if other_start < name_start {
        assert(is_name_char(decl[name_start - 1]));
    }
    if space < other_space {
        assert(decl[other_space] == '*');
    } else if other_space < space {
        assert(decl[space] == '*');
    }
}

/// In a declaration whose name runs to the end, no character from the space
/// on is `]`.
proof fn lemma_not_bracket(decl: Seq<char>, space: int, name_start: int, name_end: int, i: int)
    requires
        splits_at(decl, space, name_start, name_end),
        name_end == decl.len(),
        space <= i < decl.len(),
    ensures
        decl[i] != ']',
{
    if i == space {
    } else if i < name_start {
    } else {
        assert(is_name_char(decl[i]));
    }
}

/// What a scan of `decl` from its end establishes, whether or not `decl` is
/// a declaration: where `[]` was cut off, how far back the name characters
/// reach, and how far back the stars in front of them.
pub open spec fn scanned(decl: Seq<char>, stars: int, name_start: int, name_end: int) -> bool {
    &&& 0 <= stars <= name_start <= name_end <= decl.len()
    &&& if decl.len() >= 2 && decl[decl.len() - 2] == '[' && decl[decl.len() - 1] == ']' {
        name_end == decl.len() - 2
    } else {
        name_end == decl.len()
    }
    &&& forall|i: int| name_start <= i < name_end ==> is_name_char(decl[i])
    &&& name_start > 0 ==> !is_name_char(decl[name_start - 1])
    &&& forall|i: int| stars <= i < name_start ==> decl[i] == '*'
    &&& stars > 0 ==> decl[stars - 1] != '*'
}

/// Every split of a declaration is the one that the scan from the end finds.
pub proof fn lemma_scan_finds_split(
    decl: Seq<char>,
    stars: int,
    name_start: int,
    name_end: int,
    space: int,
    split_start: int,
    split_end: int,
)
    requires
        scanned(decl, stars, name_start, name_end),
        splits_at(decl, space, split_start, split_end),
    ensures
        stars == space + 1,
        name_start == split_start,
        name_end == split_end,
{
    let n = decl.len() as int;
    if split_end == n {
        if n >= 2 && decl[n - 2] == '[' && decl[n - 1] == ']' {
            lemma_not_bracket(decl, space, split_start, split_end, n - 1);
        }
    }
    assert(name_end == split_end);
    if name_start < split_start {
        assert(is_name_char(decl[split_start - 1]));
        assert(decl[split_start - 1] == ' ' || decl[split_start - 1] == '*');
    } else if split_start < name_start {
        assert(is_name_char(decl[name_start - 1]));
    }
    assert(name_start == split_start);
    if stars < space + 1 {
        assert(decl[space] == '*');
    } else if space + 1 < stars {
        assert(decl[stars - 1] == '*');
    }
}

/// One argument of a system call.
#[derive(Clone, Debug)]
pub struct SyscallEntry {
    /// The type as written, without the stars in front of the name.
    pub field_type: String,
    /// Whether the argument is text: its type mentions `char`.
    pub is_string: bool,
    /// Whether the argument is a pointer: a star stands in front of its name.
    pub is_pointer: bool,
    /// The argument's name.
    pub field_name: String,
    /// Whether the argument is an array: `[]` stands behind its name.
    pub is_array: bool,
}

impl DeepView for SyscallEntry {
    type V = Parameter;

    open spec fn deep_view(&self) -> Parameter {
        Parameter {
            field_type: self.field_type@,
            is_string: self.is_string,
            is_pointer: self.is_pointer,
            field_name: self.field_name@,
            is_array: self.is_array,
        }
    }
}

fn is_name(c: char) -> (yes: bool)
    ensures
        yes == is_name_char(c),
{
    ('a' <= c && c <= 'z') || ('A' <= c && c <= 'Z') || ('0' <= c && c <= '9') || c == '_'
        || c == '-'
}

/// The characters of `text`, one by one.
pub fn characters(text: &str) -> (chars: Vec<char>)
    ensures
        chars@ == text@,
{
    let n = text.unicode_len();
    let mut chars: Vec<char> = Vec::new();
    let mut i: usize = 0;
    while i < n
        invariant
            i <= n,
            n == text@.len(),
            chars@ == text@.take(i as int),
        decreases n - i,
    {
        chars.push(text.get_char(i));
        i = i + 1;
        assert(chars@ =~= text@.take(i as int));
    }
    assert(text@.take(n as int) =~= text@);
    chars
}

/// The text made of the characters of `chars` from `from` up to `to`.
pub fn text_of(chars: &Vec<char>, from: usize, to: usize) -> (text: String)
    requires
        from <= to <= chars@.len(),
    ensures
        text@ == chars@.subrange(from as int, to as int),
{
    let mut text = String::new();
    let mut i: usize = from;
    while i < to
        invariant
            from <= i <= to <= chars@.len(),
            text@ == chars@.subrange(from as int, i as int),
        decreases to - i,
    {
        text.push(chars[i]);
        i = i + 1;
        assert(text@ =~= chars@.subrange(from as int, i as int));
    }
    text
}

/// Whether the first `len` characters of `chars` mention `char`.
fn type_mentions_char(chars: &Vec<char>, len: usize) -> (yes: bool)
    requires
        len <= chars@.len(),
    ensures
        yes == mentions_char(chars@.subrange(0, len as int)),
{
    let ghost field_type = chars@.subrange(0, len as int);
    if len < 4 {
        return false;
    }
    let mut i: usize = 0;
    while i <= len - 4
        invariant
            4 <= len <= chars@.len(),
            i <= len - 3,
            field_type == chars@.subrange(0, len as int),
            forall|j: int|
                0 <= j < i ==> #[trigger] field_type.subrange(j, j + 4) != seq!['c', 'h', 'a', 'r'],
        decreases len - i,
    {
        if chars[i] == 'c' && chars[i + 1] == 'h' && chars[i + 2] == 'a' && chars[i + 3] == 'r' {
            assert(field_type.subrange(i as int, i + 4) =~= seq!['c', 'h', 'a', 'r']);
            return true;
        }
        proof {
            let window = field_type.subrange(i as int, i + 4);
            assert(window[0] == chars@[i as int]);
            assert(window[1] == chars@[i + 1]);
            assert(window[2] == chars@[i + 2]);
            assert(window[3] == chars@[i + 3]);
        }
        i = i + 1;
    }
    false
}

impl SyscallEntry {
    /// Parses one argument declaration; `None` where `decl` is none.
    pub fn parse(decl: &str) -> (entry: Option<SyscallEntry>)
        ensures
            entry.deep_view() == parse_result(decl@),
    {
        let chars = characters(decl);
        let n = chars.len();
        let mut name_end: usize = n;
        let mut is_array = false;
        if n >= 2 && chars[n - 2] == '[' && chars[n - 1] == ']' {
            name_end = n - 2;
            is_array = true;
        }
        let mut name_start: usize = name_end;
        while name_start > 0 && is_name(chars[name_start - 1])
            invariant
                name_start <= name_end <= chars@.len(),
                forall|i: int| name_start <= i < name_end ==> is_name_char(chars@[i]),
            decreases name_start,
        {
            name_start = name_start - 1;
        }
        let mut stars: usize = name_start;
        while stars > 0 && chars[stars - 1] == '*'
            invariant
                stars <= name_start,
                name_start <= chars@.len(),
                forall|i: int| stars <= i < name_start ==> chars@[i] == '*',
            decreases stars,
        {
            stars = stars - 1;
        }
        assert(scanned(chars@, stars as int, name_start as int, name_end as int));
        if stars == 0 || chars[stars - 1] != ' ' {
            proof {
                if is_declaration(chars@) {
                    let (s, a, b) = choose|s: int, a: int, b: int| splits_at(chars@, s, a, b);
                    lemma_scan_finds_split(
                        chars@,
                        stars as int,
                        name_start as int,
                        name_end as int,
                        s,
                        a,
                        b,
                    );
                }
            }
            return None;
        }
        let space: usize = stars - 1;
        let mut i: usize = 0;
        while i < space
            invariant
                i <= space < chars@.len(),
                forall|j: int| 0 <= j < i ==> chars@[j] != '\n',
                scanned(chars@, stars as int, name_start as int, name_end as int),
                stars == space + 1,
                decl@ == chars@,
            decreases space - i,
        {
            if chars[i] == '\n' {
                proof {
                    if is_declaration(chars@) {
                        let (s, a, b) = choose|s: int, a: int, b: int| splits_at(chars@, s, a, b);
                        lemma_scan_finds_split(
                            chars@,
                            stars as int,
                            name_start as int,
                            name_end as int,
                            s,
                            a,
                            b,
                        );
                    }
                }
                return None;
            }
            i = i + 1;
        }
        proof {
            assert(splits_at(chars@, space as int, name_start as int, name_end as int));
            let (s, a, b) = choose|s: int, a: int, b: int| splits_at(chars@, s, a, b);
            lemma_split_unique(chars@, space as int, name_start as int, name_end as int, s, a, b);
        }
        Some(
            SyscallEntry {
                field_type: text_of(&chars, 0, space),
                is_string: type_mentions_char(&chars, space),
                is_pointer: name_start > stars,
                field_name: text_of(&chars, name_start, name_end),
                is_array,
            },
        )
    }

    /// The argument that `syscall_param` declares.
    pub fn new(syscall_param: &str) -> (entry: SyscallEntry)
        requires
            is_declaration(syscall_param@),
        ensures
            entry.deep_view() == declared(syscall_param@),
    {
        match Self::parse(syscall_param) {
            Some(entry) => entry,
            None => {
                proof {
                    assert(false);
                }
                SyscallEntry {
                    field_type: String::new(),
                    is_string: false,
                    is_pointer: false,
                    field_name: String::new(),
                    is_array: false,
                }
            },
        }
    }
}


/// The registers that carry the arguments of a system call, in the order of
/// the arguments.
#[derive(Clone, Copy, Debug, PartialEq, Eq, Structural)]
pub enum ArgumentRegister {
    Rdi,
    Rsi,
    Rdx,
    R10,
    R8,
    R9,
}

impl ArgumentRegister {
    /// The register's name, in lower case.
    pub open spec fn spec_name(self) -> Seq<char> {
        match self {
            ArgumentRegister::Rdi => "rdi"@,
            ArgumentRegister::Rsi => "rsi"@,
            ArgumentRegister::Rdx => "rdx"@,
            ArgumentRegister::R10 => "r10"@,
            ArgumentRegister::R8 => "r8"@,
            ArgumentRegister::R9 => "r9"@,
        }
    }

    /// The register's name, in lower case.
    pub fn name(&self) -> (name: &'static str)
        ensures
            name@ == self.spec_name(),
    {
        match self {
            ArgumentRegister::Rdi => "rdi",
            ArgumentRegister::Rsi => "rsi",
            ArgumentRegister::Rdx => "rdx",
            ArgumentRegister::R10 => "r10",
            ArgumentRegister::R8 => "r8",
            ArgumentRegister::R9 => "r9",
        }
    }
}

/// One system call: its name, and the argument that each register carries,
/// where the call uses that register.
#[derive(Clone, Debug)]
pub struct Syscall {
    pub name: String,
    pub rdi: Option<SyscallEntry>,
    pub rsi: Option<SyscallEntry>,
    pub rdx: Option<SyscallEntry>,
    pub r10: Option<SyscallEntry>,
    pub r8: Option<SyscallEntry>,
    pub r9: Option<SyscallEntry>,
}

/// One system call as mathematics.
pub struct Call {
    pub name: Seq<char>,
    pub rdi: Option<Parameter>,
    pub rsi: Option<Parameter>,
    pub rdx: Option<Parameter>,
    pub r10: Option<Parameter>,
    pub r8: Option<Parameter>,
    pub r9: Option<Parameter>,
}

impl Call {
    /// The argument that `register` carries.
    pub open spec fn slot(self, register: ArgumentRegister) -> Option<Parameter> {
        match register {
            ArgumentRegister::Rdi => self.rdi,
            ArgumentRegister::Rsi => self.rsi,
            ArgumentRegister::Rdx => self.rdx,
            ArgumentRegister::R10 => self.r10,
            ArgumentRegister::R8 => self.r8,
            ArgumentRegister::R9 => self.r9,
        }
    }

    /// How many registers the call uses.
    pub open spec fn arity(self) -> nat {
        let one = |slot: Option<Parameter>| if slot is Some { 1nat } else { 0nat };
        one(self.rdi) + one(self.rsi) + one(self.rdx) + one(self.r10) + one(self.r8) + one(self.r9)
    }
}

impl DeepView for Syscall {
    type V = Call;

    open spec fn deep_view(&self) -> Call {
        Call {
            name: self.name@,
            rdi: self.rdi.deep_view(),
            rsi: self.rsi.deep_view(),
            rdx: self.rdx.deep_view(),
            r10: self.r10.deep_view(),
            r8: self.r8.deep_view(),
            r9: self.r9.deep_view(),
        }
    }
}

impl Syscall {
    /// The argument that `register` carries.
    pub fn slot(&self, register: ArgumentRegister) -> (slot: &Option<SyscallEntry>)
        ensures
            slot.deep_view() == self.deep_view().slot(register),
    {
        match register {
            ArgumentRegister::Rdi => &self.rdi,
            ArgumentRegister::Rsi => &self.rsi,
            ArgumentRegister::Rdx => &self.rdx,
            ArgumentRegister::R10 => &self.r10,
            ArgumentRegister::R8 => &self.r8,
            ArgumentRegister::R9 => &self.r9,
        }
    }
}

} // verus!
