use mandrake::syscall_table::{SyscallTable, TableError};
use mandrake::syscalls::{characters, text_of, ArgumentRegister, SyscallEntry};
use regex::Regex;

fn parts(entry: &SyscallEntry) -> (String, bool, bool, String, bool) {
    (
        entry.field_type.clone(),
        entry.is_string,
        entry.is_pointer,
        entry.field_name.clone(),
        entry.is_array,
    )
}

fn by_pattern(decl: &str) -> Option<(String, bool, bool, String, bool)> {
    let pattern = Regex::new(r"^(.*?) (\**)([a-zA-Z0-9_-]*)(\[\])?$").unwrap();
    pattern.captures(decl).map(|found| {
        (
            found.get(1).unwrap().as_str().to_string(),
            found.get(1).unwrap().as_str().contains("char"),
            found.get(2).unwrap().as_str().contains('*'),
            found.get(3).unwrap().as_str().to_string(),
            found.get(4).is_some(),
        )
    })
}

#[test]
fn a_plain_argument() {
    let entry = SyscallEntry::parse("unsigned int fd").unwrap();
    assert_eq!(entry.field_type, "unsigned int");
    assert_eq!(entry.field_name, "fd");
    assert!(!entry.is_string);
    assert!(!entry.is_pointer);
    assert!(!entry.is_array);
}

#[test]
fn a_string_argument() {
    let entry = SyscallEntry::parse("const char *filename").unwrap();
    assert_eq!(entry.field_type, "const char");
    assert_eq!(entry.field_name, "filename");
    assert!(entry.is_string);
    assert!(entry.is_pointer);
    assert!(!entry.is_array);
}

#[test]
fn a_pointer_argument() {
    let entry = SyscallEntry::parse("struct stat *statbuf").unwrap();
    assert_eq!(entry.field_type, "struct stat");
    assert_eq!(entry.field_name, "statbuf");
    assert!(!entry.is_string);
    assert!(entry.is_pointer);
    assert!(!entry.is_array);
    let double = SyscallEntry::parse("void **ptr").unwrap();
    assert_eq!(double.field_type, "void");
    assert_eq!(double.field_name, "ptr");
    assert!(double.is_pointer);
}

#[test]
fn an_array_argument() {
    let entry = SyscallEntry::parse("const char *const argv[]").unwrap();
    assert_eq!(entry.field_type, "const char *const");
    assert_eq!(entry.field_name, "argv");
    assert!(entry.is_string);
    assert!(!entry.is_pointer);
    assert!(entry.is_array);
    let starred = SyscallEntry::parse("char *envp[]").unwrap();
    assert_eq!(starred.field_type, "char");
    assert_eq!(starred.field_name, "envp");
    assert!(starred.is_pointer);
    assert!(starred.is_array);
}

#[test]
fn a_star_counts_only_in_front_of_the_name() {
    let entry = SyscallEntry::parse("char* buf").unwrap();
    assert_eq!(entry.field_type, "char*");
    assert_eq!(entry.field_name, "buf");
    assert!(entry.is_string);
    assert!(!entry.is_pointer);
}

#[test]
fn text_without_a_space_is_no_declaration() {
    assert!(SyscallEntry::parse("").is_none());
    assert!(SyscallEntry::parse("int").is_none());
    assert!(SyscallEntry::parse("*fd").is_none());
    assert!(SyscallEntry::parse("fd[]").is_none());
}

#[test]
fn text_with_anything_else_behind_the_last_space_is_no_declaration() {
    assert!(SyscallEntry::parse("int fd;").is_none());
    assert!(SyscallEntry::parse("int fd*").is_none());
    assert!(SyscallEntry::parse("int fd[]x").is_none());
    assert!(SyscallEntry::parse("int fd[").is_none());
    assert!(SyscallEntry::parse("int fd[2]").is_none());
    assert!(SyscallEntry::parse("int (*handler)").is_none());
    assert!(SyscallEntry::parse("int f\u{e9}").is_none());
    assert!(SyscallEntry::parse("int fd\n").is_none());
    assert!(SyscallEntry::parse("unsigned\nint fd").is_none());
}

#[test]
fn the_name_may_be_empty() {
    let entry = SyscallEntry::parse("int ").unwrap();
    assert_eq!(entry.field_type, "int");
    assert_eq!(entry.field_name, "");
    let stars = SyscallEntry::parse("int **").unwrap();
    assert_eq!(stars.field_name, "");
    assert!(stars.is_pointer);
    let array = SyscallEntry::parse(" []").unwrap();
    assert_eq!(array.field_type, "");
    assert!(array.is_array);
}

#[test]
fn new_parses_a_declaration() {
    let entry = SyscallEntry::new("size_t count");
    assert_eq!(parts(&entry), ("size_t".to_string(), false, false, "count".to_string(), false));
    let entry = SyscallEntry::new("char *buf");
    assert_eq!(parts(&entry), ("char".to_string(), true, true, "buf".to_string(), false));
}

#[test]
fn parsing_agrees_with_the_pattern() {
    let declarations = [
        "",
        " ",
        "  ",
        "int",
        "int fd",
        "unsigned int fd",
        "const char *filename",
        "const char *const argv[]",
        "char *const envp[]",
        "struct stat *statbuf",
        "struct pollfd *ufds",
        "unsigned long",
        "a b c",
        "x  y",
        "void **ptr",
        "void ***",
        "int a[]",
        "int []",
        "int *",
        "int a[] ",
        "int\nfd x",
        "int x\n",
        "int f\u{e9}",
        "\u{fc}n\u{ef} c\u{f4}de *x",
        "char* p",
        "int a-b",
        "int a_b9",
        "int a[]]",
        "int [a]",
        "int a[",
        "int a]",
        "int *a*",
        "int a *b",
        "int * b",
        "uchar x",
        "cha r",
        "chars *s[]",
        "int char",
        "__sighandler_t handler",
        "struct sockaddr *upeer_sockaddr",
        "fd_set *inp",
        "int\tfd",
        "*",
        "[]",
        " *[]",
        "a ****b[]",
        "a b[][]",
        "a *[]b",
        "trailing space ",
        " leading",
    ];
    for decl in declarations {
        let parsed = SyscallEntry::parse(decl);
        assert_eq!(parsed.as_ref().map(parts), by_pattern(decl), "{:?}", decl);
    }
}

#[test]
fn characters_and_text_of_are_inverse() {
    let chars = characters("const char *p\u{e9}");
    assert_eq!(chars.len(), 14);
    assert_eq!(chars[13], '\u{e9}');
    assert_eq!(text_of(&chars, 0, 14), "const char *p\u{e9}");
    assert_eq!(text_of(&chars, 6, 10), "char");
    assert_eq!(text_of(&chars, 3, 3), "");
    assert_eq!(characters(""), Vec::<char>::new());
}

#[test]
fn argument_registers_have_their_names() {
    let names: Vec<&str> = [
        ArgumentRegister::Rdi,
        ArgumentRegister::Rsi,
        ArgumentRegister::Rdx,
        ArgumentRegister::R10,
        ArgumentRegister::R8,
        ArgumentRegister::R9,
    ]
    .iter()
    .map(|register| register.name())
    .collect();
    assert_eq!(names, vec!["rdi", "rsi", "rdx", "r10", "r8", "r9"]);
}

const TABLE: &str = "0,read,unsigned int fd,char *buf,size_t count\n\
1,write,unsigned int fd,const char *buf,size_t count\n\
9,mmap,unsigned long addr,unsigned long len,unsigned long prot,unsigned long flags,unsigned long fd,unsigned long off\n\
39,getpid\n\
59,execve,const char *filename,const char *const argv[],const char *const envp[]\n\
60,exit,int error_code\n\
270,pselect6,int n,fd_set *inp,fd_set *outp,fd_set *exp,struct timespec *tsp,void *sig\n";

#[test]
fn a_table_is_loaded_from_its_text() {
    let table = SyscallTable::load(TABLE.as_bytes()).unwrap();
    assert_eq!(table.len(), 7);
    let exit = table.get(60).unwrap();
    assert_eq!(exit.name, "exit");
    assert_eq!(
        parts(exit.rdi.as_ref().unwrap()),
        ("int".to_string(), false, false, "error_code".to_string(), false)
    );
    assert!(exit.rsi.is_none());
    assert!(exit.rdx.is_none());
    assert!(exit.r10.is_none());
    assert!(exit.r8.is_none());
    assert!(exit.r9.is_none());
    let getpid = table.get(39).unwrap();
    assert_eq!(getpid.name, "getpid");
    assert!(getpid.rdi.is_none());
    let mmap = table.get(9).unwrap();
    assert_eq!(mmap.r10.as_ref().unwrap().field_name, "flags");
    assert_eq!(mmap.r8.as_ref().unwrap().field_name, "fd");
    assert_eq!(mmap.r9.as_ref().unwrap().field_name, "off");
    assert_eq!(mmap.slot(ArgumentRegister::Rdx).as_ref().unwrap().field_name, "prot");
    let execve = table.get(59).unwrap();
    assert!(execve.rdi.as_ref().unwrap().is_string);
    assert!(execve.rsi.as_ref().unwrap().is_array);
    assert!(execve.rdx.as_ref().unwrap().is_array);
    assert!(table.get(2).is_none());
    assert!(table.get(u64::MAX).is_none());
}

#[test]
fn a_row_may_stop_early_or_hold_empty_cells() {
    let table = SyscallTable::load(b"24,sched_yield,,,,,,\n2,open,const char *filename,,int mode\n")
        .unwrap();
    let sched_yield = table.get(24).unwrap();
    assert!(sched_yield.rdi.is_none());
    assert!(sched_yield.r9.is_none());
    let open = table.get(2).unwrap();
    assert_eq!(open.rdi.as_ref().unwrap().field_name, "filename");
    assert!(open.rsi.is_none());
    assert_eq!(open.rdx.as_ref().unwrap().field_name, "mode");
}

#[test]
fn the_text_is_read_as_comma_separated_values() {
    let table = SyscallTable::load(b"3,\"close\",\"unsigned int fd\"\r\n4,stat,\"struct a,b *c\"\n")
        .unwrap();
    assert_eq!(table.get(3).unwrap().name, "close");
    assert_eq!(table.get(3).unwrap().rdi.as_ref().unwrap().field_name, "fd");
    assert_eq!(table.get(4).unwrap().rdi.as_ref().unwrap().field_type, "struct a,b");
    assert_eq!(table.get(4).unwrap().rdi.as_ref().unwrap().field_name, "c");
    assert!(table.get(4).unwrap().rsi.is_none());
}

#[test]
fn an_empty_text_is_an_empty_table() {
    let table = SyscallTable::load(b"").unwrap();
    assert_eq!(table.len(), 0);
    assert!(table.get(0).is_none());
    assert_eq!(SyscallTable::from_rows(&vec![]).unwrap().len(), 0);
}

#[test]
fn a_number_may_stand_in_one_row_only() {
    let error = SyscallTable::load(b"0,read\n1,write\n0,again\n").unwrap_err();
    assert_eq!(error, TableError::DuplicateNumber { row: 2 });
    // The same number written in another way.
    let error = SyscallTable::load(b"7,poll\n+07,poll\n").unwrap_err();
    assert_eq!(error, TableError::DuplicateNumber { row: 1 });
}

#[test]
fn the_first_wrong_row_is_reported() {
    assert_eq!(
        SyscallTable::load(b"0,read\nx,write\ny,open\n").unwrap_err(),
        TableError::InvalidNumber { row: 1 }
    );
    assert_eq!(
        SyscallTable::load(b"0,read\n1\n").unwrap_err(),
        TableError::MissingName { row: 1 }
    );
    assert_eq!(
        SyscallTable::load(b"0,read,int fd,nonsense,alsononsense\n").unwrap_err(),
        TableError::InvalidParameter { row: 0, column: 3 }
    );
    assert_eq!(
        SyscallTable::load(b"0,read,int fd,,,,,bad\n").unwrap_err(),
        TableError::InvalidParameter { row: 0, column: 7 }
    );
    assert_eq!(
        SyscallTable::load(b"-1,read\n").unwrap_err(),
        TableError::InvalidNumber { row: 0 }
    );
    assert_eq!(
        SyscallTable::load(b"0,read\n0,read,bad\n").unwrap_err(),
        TableError::InvalidParameter { row: 1, column: 2 }
    );
}

#[test]
fn cells_behind_the_sixth_argument_are_not_looked_at() {
    let table = SyscallTable::load(b"0,read,int a,int b,int c,int d,int e,int f,whatever\n").unwrap();
    assert_eq!(table.get(0).unwrap().r9.as_ref().unwrap().field_name, "f");
}

#[test]
fn text_that_is_not_utf8_is_unreadable() {
    assert_eq!(SyscallTable::load(b"0,re\xffad\n").unwrap_err(), TableError::Unreadable);
}

#[test]
fn rows_without_cells_have_no_number() {
    let rows: Vec<Vec<String>> = vec![vec!["0".to_string(), "read".to_string()], vec![]];
    assert_eq!(
        SyscallTable::from_rows(&rows).unwrap_err(),
        TableError::MissingNumber { row: 1 }
    );
    let rows: Vec<Vec<String>> = vec![vec!["".to_string(), "read".to_string()]];
    assert_eq!(
        SyscallTable::from_rows(&rows).unwrap_err(),
        TableError::InvalidNumber { row: 0 }
    );
}
