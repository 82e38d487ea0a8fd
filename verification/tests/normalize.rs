use repocat::block::{process_file, Block};
use repocat::chars::{char_is_whitespace, chars_of};
use repocat::error::{ErrorKind, Failure, Operation};
use repocat::normalize::normalize;

#[test]
fn blank_lines_and_trailing_whitespace_go() {
    assert_eq!(normalize("x\n\n  \ny"), "x\ny");
}

#[test]
fn single_line_stays() {
    assert_eq!(normalize("z"), "z");
}

#[test]
fn empty_text_stays_empty() {
    assert_eq!(normalize(""), "");
}

#[test]
fn final_line_feed_goes() {
    assert_eq!(normalize("a\nb\n"), "a\nb");
    assert_eq!(normalize("a\n\n\n"), "a");
}

#[test]
fn leading_whitespace_stays() {
    assert_eq!(normalize("  a  \n\tb\t\n"), "  a\n\tb");
}

#[test]
fn carriage_returns_are_trailing_whitespace() {
    assert_eq!(normalize("a \r\nb\r\n\r\nc"), "a\nb\nc");
}

#[test]
fn carriage_return_inside_a_line_is_no_line_boundary() {
    assert_eq!(normalize("a\rb\n"), "a\rb");
}

#[test]
fn unicode_whitespace_is_trimmed() {
    assert_eq!(normalize("a\u{a0}\nb\u{3000}\u{2003}\n\u{2028}\nc\u{85}"), "a\nb\nc");
}

#[test]
fn zero_width_space_is_no_whitespace() {
    assert_eq!(normalize("a\u{200b}\n"), "a\u{200b}");
}

#[test]
fn whitespace_only_text_has_empty_body() {
    assert_eq!(normalize(" \n\t\n\n   \r\n"), "");
    assert_eq!(normalize("\n"), "");
    assert_eq!(normalize("   "), "");
}

#[test]
fn normalizing_twice_changes_nothing() {
    let samples = [
        "",
        "x\n\n  \ny",
        "  lead\ntrail  \n\n\nlast line\t\t",
        "\n\n\n",
        "one",
        "a\r\nb\r\n",
        "tabs\tinside\tstay \n",
        "\u{a0}\u{a0}x\u{a0}\n",
    ];
    for sample in samples {
        let once = normalize(sample);
        let twice = normalize(&once);
        assert_eq!(once, twice);
    }
}

#[test]
fn normalize_agrees_with_the_iterator_chain() {
    let samples = [
        "x\n\n  \ny",
        "fn main() {\n    println!(\"hi\");   \n}\n\n",
        "\t\n \n",
        "a\u{1680}\nb \u{205f}",
        "no newline at end",
        "\nstarts blank",
    ];
    for sample in samples {
        let expected: Vec<&str> =
            sample.split('\n').map(str::trim_end).filter(|line| !line.is_empty()).collect();
        assert_eq!(normalize(sample), expected.join("\n"));
    }
}

#[test]
fn whitespace_test_is_that_of_the_standard_library() {
    let mut code: u32 = 0;
    while code <= 0x10FFFF {
        if let Some(c) = char::from_u32(code) {
            assert_eq!(char_is_whitespace(c), c.is_whitespace());
        }
        code += 1;
    }
}

#[test]
fn whitespace_test_on_chosen_characters() {
    for c in [' ', '\t', '\n', '\r', '\u{b}', '\u{c}', '\u{85}', '\u{a0}', '\u{1680}', '\u{2000}',
        '\u{200a}', '\u{2028}', '\u{2029}', '\u{202f}', '\u{205f}', '\u{3000}']
    {
        assert!(char_is_whitespace(c));
    }
    for c in ['a', '0', '_', '\u{8}', '\u{e}', '\u{1f}', '\u{200b}', '\u{180e}', '\u{feff}', '\u{2060}'] {
        assert!(!char_is_whitespace(c));
    }
}

#[test]
fn chars_of_gives_the_characters_in_order() {
    assert_eq!(chars_of("h\u{e9}llo"), vec!['h', '\u{e9}', 'l', 'l', 'o']);
    assert_eq!(chars_of(""), Vec::<char>::new());
}

#[test]
fn block_has_header_and_body() {
    let block = Block::new("src/a.py", "x\n\n  \ny");
    assert_eq!(block.path, "src/a.py");
    assert_eq!(block.body, "x\ny");
    assert_eq!(block.render(), "*** src/a.py\nx\ny");
}

#[test]
fn blank_file_keeps_its_header() {
    let block = Block::new("empty.txt", " \n\n\t\n");
    assert_eq!(block.body, "");
    assert_eq!(block.render(), "*** empty.txt\n");
    assert_eq!(process_file("empty.txt", b" \n\n\t\n"), Ok(String::from("*** empty.txt\n")));
}

#[test]
fn process_file_decodes_and_normalizes() {
    assert_eq!(process_file("a.py", b"x\n\n  \ny"), Ok(String::from("*** a.py\nx\ny")));
    assert_eq!(process_file("b.py", b"z"), Ok(String::from("*** b.py\nz")));
}

#[test]
fn process_file_decodes_multibyte_text() {
    let bytes = "caf\u{e9} \n\u{65e5}\u{672c}\u{8a9e}\u{3000}\n".as_bytes();
    assert_eq!(process_file("t.txt", bytes), Ok(String::from("*** t.txt\ncaf\u{e9}\n\u{65e5}\u{672c}\u{8a9e}")));
}

#[test]
fn process_file_rejects_invalid_utf8() {
    let expected = Failure { operation: Operation::DecodeFile, subject: String::from("bin.rs") };
    assert_eq!(process_file("bin.rs", &[0x66, 0x6f, 0xff, 0x6f]), Err(expected.clone()));
    assert_eq!(process_file("bin.rs", &[0xc3]), Err(expected.clone()));
    assert_eq!(process_file("bin.rs", &[0xed, 0xa0, 0x80]), Err(expected.clone()));
    assert_eq!(process_file("bin.rs", &[0xc0, 0x80]), Err(expected.clone()));
    assert_eq!(expected.kind(), ErrorKind::Decode);
}

#[test]
fn every_operation_has_its_kind() {
    assert_eq!(Operation::CompileIncludePattern.kind(), ErrorKind::Config);
    assert_eq!(Operation::CompileExcludePattern.kind(), ErrorKind::Config);
    assert_eq!(Operation::LocateInput.kind(), ErrorKind::Acquisition);
    assert_eq!(Operation::CreateTempDir.kind(), ErrorKind::Acquisition);
    assert_eq!(Operation::Fetch.kind(), ErrorKind::Acquisition);
    assert_eq!(Operation::CreateOutput.kind(), ErrorKind::Io);
    assert_eq!(Operation::Walk.kind(), ErrorKind::Io);
    assert_eq!(Operation::ReadFile.kind(), ErrorKind::Io);
    assert_eq!(Operation::WriteOutput.kind(), ErrorKind::Io);
    assert_eq!(Operation::DecodeFile.kind(), ErrorKind::Decode);
}

#[test]
fn messages_name_operation_and_subject() {
    assert_eq!(
        Failure::new(Operation::CreateOutput, "out/all.txt").message(),
        "Failed to create output file: out/all.txt"
    );
    assert_eq!(
        Failure::new(Operation::ReadFile, "src/a.rs").message(),
        "Failed to process file: src/a.rs"
    );
    assert_eq!(
        Failure::new(Operation::DecodeFile, "src/a.rs").message(),
        "File is not valid UTF-8: src/a.rs"
    );
    assert_eq!(
        Failure::new(Operation::CompileIncludePattern, "a**").message(),
        "Malformed include pattern: a**"
    );
    assert_eq!(
        Failure::new(Operation::CompileExcludePattern, "[").message(),
        "Malformed exclude pattern: ["
    );
    assert_eq!(
        Failure::new(Operation::LocateInput, "/nowhere").message(),
        "Input folder not found or not readable: /nowhere"
    );
    assert_eq!(
        Failure::new(Operation::CreateTempDir, "https://github.com/a/b").message(),
        "Failed to create a temporary directory: https://github.com/a/b"
    );
    assert_eq!(
        Failure::new(Operation::Fetch, "https://github.com/a/b").message(),
        "Failed to clone repository: https://github.com/a/b"
    );
    assert_eq!(Failure::new(Operation::Walk, "/src").message(), "Failed to walk folder: /src");
    assert_eq!(
        Failure::new(Operation::WriteOutput, "out.txt").message(),
        "Failed to write output file: out.txt"
    );
    assert_eq!(Operation::Walk.describe(), "Failed to walk folder");
}
