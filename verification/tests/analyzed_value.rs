use mandrake::analyzed_value::{find_nul, read_string, AnalyzedValue};
use mandrake::disassembly::{disassemble, Decoded};

fn padded(bytes: &[u8], fill: u8) -> Vec<u8> {
    let mut probe = bytes.to_vec();
    probe.resize(128, fill);
    probe
}

fn text(value: &Option<String>) -> Option<&str> {
    value.as_deref()
}

#[test]
fn an_unreadable_address_keeps_the_value_alone() {
    let analyzed = AnalyzedValue::new(0xdead_0000, None, false, 64, 6);
    assert_eq!(analyzed.value(), 0xdead_0000);
    assert_eq!(*analyzed.memory(), None);
    assert_eq!(*analyzed.as_instruction(), None);
    assert_eq!(*analyzed.as_string(), None);
    assert_eq!(*analyzed.extra(), None);
    let pointer = AnalyzedValue::new(0, None, true, 64, 6);
    assert_eq!(pointer.value(), 0);
    assert_eq!(*pointer.memory(), None);
    assert_eq!(*pointer.as_instruction(), None);
    let direct = AnalyzedValue::unreadable(7);
    assert_eq!(direct.value(), 7);
    assert_eq!(*direct.memory(), None);
    assert_eq!(*direct.as_string(), None);
}

#[test]
fn string_classification() {
    let probe = padded(b"/etc/passwd\0", 0x41);
    let analyzed = AnalyzedValue::new(0x7ffd_1000, Some(probe.clone()), false, 64, 6);
    assert_eq!(text(analyzed.as_string()), Some("/etc/passwd"));
    assert_eq!(analyzed.value(), 0x7ffd_1000);
    assert_eq!(analyzed.memory().as_ref().unwrap()[..], probe[..64]);
    assert_eq!(*analyzed.extra(), None);
    let strict = AnalyzedValue::new(0x7ffd_1000, Some(probe), false, 64, 100);
    assert_eq!(*strict.as_string(), None);
    assert!(strict.memory().is_some());
}

#[test]
fn a_string_must_be_longer_than_the_minimum() {
    let probe = padded(b"abcdef\0", 0);
    assert_eq!(
        text(AnalyzedValue::new(1, Some(probe.clone()), false, 64, 5).as_string()),
        Some("abcdef")
    );
    assert_eq!(*AnalyzedValue::new(1, Some(probe.clone()), false, 64, 6).as_string(), None);
    assert_eq!(*AnalyzedValue::new(1, Some(probe), false, 64, 7).as_string(), None);
}

#[test]
fn a_minimum_of_zero_accepts_any_string_but_the_empty_one() {
    let one = padded(b"x\0", 0);
    assert_eq!(text(AnalyzedValue::new(1, Some(one), false, 64, 0).as_string()), Some("x"));
    let zeros = vec![0u8; 128];
    let analyzed = AnalyzedValue::new(1, Some(zeros), false, 64, 0);
    assert_eq!(*analyzed.as_string(), None);
    assert_eq!(analyzed.memory().as_ref().unwrap().len(), 64);
}

#[test]
fn a_string_without_a_nul_runs_to_the_end_of_the_probe() {
    let probe = vec![b'A'; 128];
    let analyzed = AnalyzedValue::new(1, Some(probe), false, 16, 6);
    assert_eq!(text(analyzed.as_string()), Some("A".repeat(128).as_str()));
    assert_eq!(analyzed.memory().as_ref().unwrap(), &vec![b'A'; 16]);
}

#[test]
fn bytes_that_are_not_utf8_are_no_string() {
    let probe = padded(b"abcdefg\xff\xfe\0", 0);
    assert_eq!(*AnalyzedValue::new(1, Some(probe), false, 64, 6).as_string(), None);
    let cut = padded(b"abcdefg\xc3\0", 0);
    assert_eq!(*AnalyzedValue::new(1, Some(cut), false, 64, 6).as_string(), None);
}

#[test]
fn the_length_of_a_string_is_counted_in_bytes() {
    // Four characters, eight bytes.
    let probe = padded("äöüß\0".as_bytes(), 0);
    assert_eq!(
        text(AnalyzedValue::new(1, Some(probe.clone()), false, 64, 7).as_string()),
        Some("äöüß")
    );
    assert_eq!(*AnalyzedValue::new(1, Some(probe), false, 64, 8).as_string(), None);
}

#[test]
fn an_accepted_string_holds_no_nul_and_exceeds_the_minimum() {
    let probes: Vec<Vec<u8>> = vec![
        padded(b"/bin/sh\0-c\0", 0x20),
        padded(b"hello, world\n\0", 0),
        padded(b"\0hidden", b'z'),
        vec![b'q'; 128],
        padded(&[0x48, 0x31, 0xff, 0xb8, 0x3c, 0, 0, 0, 0x0f, 0x05], 0x90),
    ];
    for probe in probes {
        for minimum in [0usize, 1, 6, 12, 127, 128] {
            for is_ip in [false, true] {
                let analyzed = AnalyzedValue::new(0x1000, Some(probe.clone()), is_ip, 64, minimum);
                if let Some(found) = analyzed.as_string() {
                    assert!(found.len() > minimum);
                    assert!(!found.as_bytes().contains(&0));
                }
            }
        }
    }
}

#[test]
fn a_snippet_length_of_zero_keeps_empty_memory() {
    let probe = padded(b"some text here\0", 0);
    let analyzed = AnalyzedValue::new(0x1000, Some(probe), false, 0, 6);
    assert_eq!(*analyzed.memory(), Some(vec![]));
    assert_eq!(text(analyzed.as_string()), Some("some text here"));
}

#[test]
fn memory_is_cut_to_the_snippet_length() {
    let probe: Vec<u8> = (0..128u32).map(|i| (i as u8).wrapping_mul(7).wrapping_add(1)).collect();
    for length in [1usize, 8, 64, 127, 128] {
        let analyzed = AnalyzedValue::new(0x1000, Some(probe.clone()), false, length, 6);
        assert_eq!(analyzed.memory().as_ref().unwrap()[..], probe[..length]);
    }
    let longer = AnalyzedValue::new(0x1000, Some(probe.clone()), false, 4096, 6);
    assert_eq!(longer.memory().as_ref().unwrap(), &probe);
    let big: Vec<u8> = vec![0x90; 256];
    let analyzed = AnalyzedValue::new(0x1000, Some(big), false, 200, 6);
    assert_eq!(analyzed.memory().as_ref().unwrap().len(), 200);
}

#[test]
fn instructions_are_rendered_in_nasm_syntax() {
    let cases: [(&[u8], &str); 6] = [
        (&[0x48, 0x31, 0xFF], "xor rdi,rdi"),
        (&[0x0F, 0x05], "syscall"),
        (&[0xCC], "int3"),
        (&[0x48, 0x31, 0xC0], "xor rax,rax"),
        (&[0xC3], "ret"),
        (&[0x90], "nop"),
    ];
    for (code, expected) in cases {
        let analyzed = AnalyzedValue::new(0x1337_0000, Some(padded(code, 0x90)), true, 64, 6);
        assert_eq!(text(analyzed.as_instruction()), Some(expected));
        assert!(analyzed.is_instruction(expected));
        assert!(!analyzed.is_instruction("hlt"));
    }
}

#[test]
fn the_instruction_is_decoded_at_the_address_of_the_value() {
    let jump = padded(&[0xEB, 0xFE], 0x90);
    let here = AnalyzedValue::new(0x1337_0000, Some(jump.clone()), true, 64, 6);
    let there = AnalyzedValue::new(0x1337_0100, Some(jump), true, 64, 6);
    assert!(here.as_instruction().as_ref().unwrap().contains("13370000"));
    assert!(there.as_instruction().as_ref().unwrap().contains("13370100"));
    assert_ne!(here.as_instruction(), there.as_instruction());
}

#[test]
fn an_instruction_pointer_keeps_exactly_the_instruction() {
    let code = [0x48, 0x31, 0xFF, 0xB8, 0x3C, 0, 0, 0, 0x0F, 0x05];
    let first = AnalyzedValue::new(0x1337_0000, Some(padded(&code, 0x90)), true, 64, 6);
    assert_eq!(first.memory().as_ref().unwrap(), &vec![0x48, 0x31, 0xFF]);
    let second = AnalyzedValue::new(0x1337_0003, Some(padded(&code[3..], 0x90)), true, 64, 6);
    assert_eq!(second.memory().as_ref().unwrap(), &vec![0xB8, 0x3C, 0, 0, 0]);
    let third = AnalyzedValue::new(0x1337_0008, Some(padded(&code[8..], 0x90)), true, 64, 6);
    assert_eq!(third.memory().as_ref().unwrap(), &vec![0x0F, 0x05]);
    assert_eq!(text(third.as_instruction()), Some("syscall"));
    // The instruction is kept whole even where fewer bytes were asked for.
    let narrow = AnalyzedValue::new(0x1337_0003, Some(padded(&code[3..], 0x90)), true, 2, 6);
    assert_eq!(narrow.memory().as_ref().unwrap(), &vec![0xB8, 0x3C, 0, 0, 0]);
}

#[test]
fn another_register_keeps_the_snippet_and_still_shows_the_instruction() {
    let code = [0x48, 0x31, 0xFF, 0xB8, 0x3C, 0, 0, 0, 0x0F, 0x05];
    let probe = padded(&code, 0x90);
    let analyzed = AnalyzedValue::new(0x1337_0000, Some(probe.clone()), false, 64, 6);
    assert_eq!(text(analyzed.as_instruction()), Some("xor rdi,rdi"));
    assert_eq!(analyzed.memory().as_ref().unwrap()[..], probe[..64]);
}

#[test]
fn the_string_of_an_instruction_pointer_is_read_from_the_instruction() {
    // `push 0x41414141` is five bytes; the text behind it is not part of it.
    let mut code = vec![0x68, 0x41, 0x41, 0x41, 0x41];
    code.extend_from_slice(b"AAAAAAAAAAAA\0");
    let at_ip = AnalyzedValue::new(0x1337_0000, Some(padded(&code, 0)), true, 64, 3);
    assert_eq!(at_ip.memory().as_ref().unwrap().len(), 5);
    assert_eq!(text(at_ip.as_string()), Some("hAAAA"));
    let elsewhere = AnalyzedValue::new(0x1337_0000, Some(padded(&code, 0)), false, 64, 3);
    assert_eq!(text(elsewhere.as_string()), Some("hAAAAAAAAAAAAAAAA"));
}

#[test]
fn bytes_that_are_no_instruction_have_none() {
    // 0x06 is `push es`, which 64-bit mode does not have.
    let analyzed = AnalyzedValue::new(0x1000, Some(padded(&[0x06], 0x90)), false, 64, 6);
    assert_eq!(*analyzed.as_instruction(), None);
    assert_eq!(analyzed.memory().as_ref().unwrap().len(), 64);
    // An instruction that is cut off by the end of the buffer.
    let cut = AnalyzedValue::new(0x1000, Some(vec![0x0f]), true, 64, 6);
    assert_eq!(*cut.as_instruction(), None);
    assert!(cut.memory().is_some());
}

#[test]
fn an_empty_buffer_is_readable_memory_without_readings() {
    let analyzed = AnalyzedValue::new(0x1000, Some(vec![]), true, 64, 0);
    assert_eq!(*analyzed.memory(), Some(vec![]));
    assert_eq!(*analyzed.as_instruction(), None);
    assert_eq!(*analyzed.as_string(), None);
    assert!(disassemble(&[], 0x1000).is_none());
}

#[test]
fn disassemble_gives_text_and_length() {
    let decoded = disassemble(&[0x48, 0x31, 0xFF, 0xB8, 0x3C, 0, 0, 0], 0x1337_0000).unwrap();
    assert_eq!(decoded.text, "xor rdi,rdi");
    assert_eq!(decoded.length, 3);
    let decoded = disassemble(&[0xB8, 0x3C, 0, 0, 0, 0x0F, 0x05], 0x1337_0003).unwrap();
    assert_eq!(decoded.length, 5);
    assert!(decoded.text.starts_with("mov eax,"));
    let bad = disassemble(&[0x06, 0x90], 0).unwrap();
    assert_eq!(bad.text, "(bad)");
}

#[test]
fn from_probe_follows_the_decoder_answer() {
    let bytes = b"ABCDEFGHIJ\0rest".to_vec();
    let made_up = |length: usize, text: &str| Some(Decoded { text: text.to_string(), length });
    let at_ip = AnalyzedValue::from_probe(5, bytes.clone(), made_up(4, "fake op"), true, 64, 2);
    assert_eq!(at_ip.memory().as_ref().unwrap(), &b"ABCD".to_vec());
    assert_eq!(text(at_ip.as_instruction()), Some("fake op"));
    assert_eq!(text(at_ip.as_string()), Some("ABCD"));
    assert_eq!(at_ip.value(), 5);

    let other = AnalyzedValue::from_probe(5, bytes.clone(), made_up(4, "fake op"), false, 6, 2);
    assert_eq!(other.memory().as_ref().unwrap(), &b"ABCDEF".to_vec());
    assert_eq!(text(other.as_instruction()), Some("fake op"));
    assert_eq!(text(other.as_string()), Some("ABCDEFGHIJ"));

    let bad = AnalyzedValue::from_probe(5, bytes.clone(), made_up(2, "(bad)"), true, 64, 1);
    assert_eq!(*bad.as_instruction(), None);
    assert_eq!(bad.memory().as_ref().unwrap(), &b"AB".to_vec());
    assert_eq!(text(bad.as_string()), Some("AB"));

    let none = AnalyzedValue::from_probe(5, bytes.clone(), None, true, 3, 2);
    assert_eq!(*none.as_instruction(), None);
    assert_eq!(none.memory().as_ref().unwrap(), &b"ABC".to_vec());
    assert_eq!(text(none.as_string()), Some("ABCDEFGHIJ"));

    // A length beyond the buffer leaves the buffer as it is.
    let long = AnalyzedValue::from_probe(5, bytes.clone(), made_up(400, "x"), true, 3, 2);
    assert_eq!(long.memory().as_ref().unwrap(), &bytes);
    let empty = AnalyzedValue::from_probe(5, bytes, made_up(0, "x"), true, 3, 0);
    assert_eq!(*empty.memory(), Some(vec![]));
    assert_eq!(*empty.as_string(), None);
}

#[test]
fn extra_is_attached_only_to_readable_values() {
    let lines = vec!["Syscall: `exit`".to_string()];
    let readable = AnalyzedValue::new(1, Some(padded(&[0x0f, 0x05], 0)), true, 64, 6)
        .with_extra(lines.clone());
    assert_eq!(*readable.extra(), Some(lines.clone()));
    assert_eq!(text(readable.as_instruction()), Some("syscall"));
    assert_eq!(readable.memory().as_ref().unwrap(), &vec![0x0f, 0x05]);
    let unreadable = AnalyzedValue::unreadable(1).with_extra(lines);
    assert_eq!(*unreadable.extra(), None);
    assert_eq!(*unreadable.memory(), None);
}

#[test]
fn a_value_without_memory_has_no_readings() {
    let values = vec![
        AnalyzedValue::new(0, None, true, 64, 6),
        AnalyzedValue::new(0x1000, None, false, 0, 0),
        AnalyzedValue::unreadable(9).with_extra(vec!["x".to_string()]),
        AnalyzedValue::new(0x1000, Some(padded(b"/bin/sh\0", 0)), false, 64, 6),
        AnalyzedValue::new(0x1000, Some(padded(&[0xcc], 0)), true, 64, 6),
    ];
    for value in values {
        if value.memory().is_none() {
            assert!(value.as_instruction().is_none());
            assert!(value.as_string().is_none());
            assert!(value.extra().is_none());
        }
    }
}

#[test]
fn a_clone_is_the_same_value() {
    let first = AnalyzedValue::new(0x1000, Some(padded(b"/bin/sh\0", 0)), false, 16, 6)
        .with_extra(vec!["a".to_string(), "b".to_string()]);
    let copy = first.clone();
    assert_eq!(copy.value(), first.value());
    assert_eq!(copy.memory(), first.memory());
    assert_eq!(copy.as_instruction(), first.as_instruction());
    assert_eq!(copy.as_string(), first.as_string());
    assert_eq!(copy.extra(), first.extra());
}

#[test]
fn find_nul_gives_the_first_zero_byte() {
    assert_eq!(find_nul(b""), 0);
    assert_eq!(find_nul(b"\0"), 0);
    assert_eq!(find_nul(b"abc"), 3);
    assert_eq!(find_nul(b"abc\0def\0"), 3);
    assert_eq!(find_nul(b"\0\0"), 0);
}

#[test]
fn read_string_reads_up_to_the_first_nul() {
    assert_eq!(read_string(b"hello\0world", 0), Some("hello".to_string()));
    assert_eq!(read_string(b"hello\0world", 4), Some("hello".to_string()));
    assert_eq!(read_string(b"hello\0world", 5), None);
    assert_eq!(read_string(b"", 0), None);
    assert_eq!(read_string(b"\0abc", 0), None);
    assert_eq!(read_string(b"ab\xffcd", 0), None);
    assert_eq!(read_string("日本語".as_bytes(), 8), Some("日本語".to_string()));
}

#[test]
fn a_value_is_shown_as_its_address() {
    assert_eq!(AnalyzedValue::unreadable(0).to_string(), "0x00000000");
    assert_eq!(AnalyzedValue::unreadable(0x1337_0008).to_string(), "0x13370008");
    assert_eq!(
        AnalyzedValue::new(0x7ffd_e3a1_b2c8, Some(vec![0; 128]), false, 64, 6).to_string(),
        "0x7ffde3a1b2c8"
    );
}

#[test]
fn a_value_is_made_from_parts_that_fit_together() {
    let made = AnalyzedValue::from_parts(
        9,
        Some(vec![1, 2, 3]),
        Some("nop".to_string()),
        None,
        Some(vec!["line".to_string()]),
    )
    .unwrap();
    assert_eq!(made.value(), 9);
    assert_eq!(*made.memory(), Some(vec![1, 2, 3]));
    assert_eq!(made.as_instruction().as_deref(), Some("nop"));
    assert_eq!(*made.as_string(), None);
    assert_eq!(*made.extra(), Some(vec!["line".to_string()]));
    let bare = AnalyzedValue::from_parts(9, None, None, None, None).unwrap();
    assert_eq!(*bare.memory(), None);
    assert!(AnalyzedValue::from_parts(9, None, Some("nop".to_string()), None, None).is_none());
    assert!(AnalyzedValue::from_parts(9, None, None, Some("text".to_string()), None).is_none());
    assert!(AnalyzedValue::from_parts(9, None, None, None, Some(vec![])).is_none());
}
