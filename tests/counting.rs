use wcr::config::{resolve_config, ConfigError};
use wcr::info::{count, count_words, CountError, FileInfo};
use wcr::report::{add_counts, diagnostic, format_field, format_row, process_input, total_row};

fn config(files: &[&str], lines: bool, words: bool, bytes: bool, chars: bool) -> wcr::config::Config {
    let files = files.iter().map(|f| f.to_string()).collect();
    resolve_config(files, lines, words, bytes, chars).unwrap()
}

#[test]
fn test_count() {
    let text = "I don't want the world. I just want your half.\r\n";
    let info = count(text.as_bytes());
    assert!(info.is_ok());
    let expected = FileInfo { num_lines: 1, num_words: 10, num_chars: 48, num_bytes: 48 };
    assert_eq!(info.unwrap(), expected);
}

#[test]
fn test_format_field() {
    assert_eq!(format_field(1, false), "");
    assert_eq!(format_field(3, true), "       3");
    assert_eq!(format_field(10, true), "      10");
}

#[test]
fn format_field_wider_than_width_is_not_cut() {
    assert_eq!(format_field(123456789, true), "123456789");
    assert_eq!(format_field(12345678, true), "12345678");
    assert_eq!(format_field(0, true), "       0");
    assert_eq!(format_field(usize::MAX, false), "");
}

#[test]
fn count_empty_input() {
    let info = count(b"").unwrap();
    assert_eq!(info, FileInfo::default());
    assert_eq!(info, FileInfo { num_lines: 0, num_words: 0, num_bytes: 0, num_chars: 0 });
}

#[test]
fn count_is_deterministic() {
    let a = b"one two\nthree\n".to_vec();
    let b = a.clone();
    let first = count(&a).unwrap();
    let second = count(&b).unwrap();
    let third = count(&a).unwrap();
    assert_eq!(first, second);
    assert_eq!(first, third);
}

#[test]
fn count_unterminated_last_line() {
    let info = count(b"a b\nc").unwrap();
    assert_eq!(info, FileInfo { num_lines: 2, num_words: 3, num_bytes: 5, num_chars: 5 });
}

#[test]
fn count_multibyte_characters() {
    let info = count("héllo wörld\n".as_bytes()).unwrap();
    assert_eq!(info, FileInfo { num_lines: 1, num_words: 2, num_bytes: 14, num_chars: 12 });
}

#[test]
fn count_unicode_white_space_splits_words() {
    let info = count("a\u{3000}b\tc  d\r\n".as_bytes()).unwrap();
    assert_eq!(info.num_words, 4);
}

#[test]
fn count_only_white_space() {
    let info = count(b" \t \n\n").unwrap();
    assert_eq!(info, FileInfo { num_lines: 2, num_words: 0, num_bytes: 5, num_chars: 5 });
}

#[test]
fn count_invalid_utf8_fails() {
    assert_eq!(count(&[b'a', 0xff, b'\n']), Err(CountError::InvalidUtf8));
    assert_eq!(CountError::InvalidUtf8.message(), "stream did not contain valid UTF-8");
}

#[test]
fn count_words_from_mask() {
    assert_eq!(count_words(&[]), 0);
    assert_eq!(count_words(&[true, false, false, true, false]), 2);
    assert_eq!(count_words(&[false, true, true, false, true]), 2);
    assert_eq!(count_words(&[true, true]), 0);
}

#[test]
fn resolve_refuses_bytes_with_chars() {
    let r = resolve_config(vec!["a".to_string()], false, false, true, true);
    assert_eq!(r.unwrap_err(), ConfigError::BytesWithChars);
    let r = resolve_config(vec![], true, true, true, true);
    assert_eq!(r.unwrap_err(), ConfigError::BytesWithChars);
    assert_eq!(
        ConfigError::BytesWithChars.message(),
        "The argument '--bytes' cannot be used with '--chars'"
    );
}

#[test]
fn resolve_default_flags() {
    let c = config(&["f"], false, false, false, false);
    assert!(c.lines && c.words && c.bytes && !c.chars);
    assert_eq!(c.files, vec!["f".to_string()]);
}

#[test]
fn resolve_keeps_given_flags() {
    let c = config(&["f", "g"], false, false, false, true);
    assert!(!c.lines && !c.words && !c.bytes && c.chars);
    assert_eq!(c.files, vec!["f".to_string(), "g".to_string()]);
}

#[test]
fn resolve_defaults_to_standard_input() {
    let c = config(&[], true, false, false, false);
    assert_eq!(c.files, vec!["-".to_string()]);
}

#[test]
fn row_in_default_mode() {
    let c = config(&["fox.txt"], false, false, false, false);
    let info = count(b"The  quick brown fox\tjumps over   the lazy dog.\n").unwrap();
    assert_eq!(format_row(&c, &info, "fox.txt"), "       1       9      48 fox.txt");
}

#[test]
fn row_with_bytes_only() {
    let c = config(&["fox.txt"], false, false, true, false);
    let info = count(b"The  quick brown fox\tjumps over   the lazy dog.\n").unwrap();
    assert_eq!(format_row(&c, &info, "fox.txt"), "      48 fox.txt");
}

#[test]
fn row_with_all_but_bytes() {
    let c = config(&["x"], true, true, false, true);
    let info = FileInfo { num_lines: 1, num_words: 2, num_bytes: 3, num_chars: 4 };
    assert_eq!(format_row(&c, &info, "x"), "       1       2       4 x");
}

#[test]
fn diagnostic_for_missing_file() {
    let d = diagnostic("nosuch", "No such file or directory (os error 2)");
    assert_eq!(d, "nosuch: No such file or directory (os error 2)");
}

#[test]
fn undecodable_input_gives_diagnostic_and_keeps_total() {
    let c = config(&["bad", "good"], false, false, false, false);
    let mut total = FileInfo::default();
    let r = process_input(&c, &mut total, "bad", &[0xc3, 0x28]);
    assert_eq!(r, Err("bad: stream did not contain valid UTF-8".to_string()));
    assert_eq!(total, FileInfo::default());
}

#[test]
fn two_inputs_give_two_rows_and_a_total() {
    let c = config(&["a.txt", "b.txt"], false, false, false, false);
    let mut total = FileInfo::default();
    let a = process_input(&c, &mut total, "a.txt", b"one two\nthree\n").unwrap();
    let b = process_input(&c, &mut total, "b.txt", b"four\n").unwrap();
    assert_eq!(a, "       2       3      14 a.txt");
    assert_eq!(b, "       1       1       5 b.txt");
    assert_eq!(total, FileInfo { num_lines: 3, num_words: 4, num_bytes: 19, num_chars: 19 });
    assert_eq!(total_row(&c, &total), Some("       3       4      19 total".to_string()));
}

#[test]
fn one_input_has_no_total() {
    let c = config(&["a.txt"], false, false, false, false);
    let total = FileInfo { num_lines: 1, num_words: 1, num_bytes: 1, num_chars: 1 };
    assert_eq!(total_row(&c, &total), None);
}

#[test]
fn add_counts_saturates() {
    let a = FileInfo { num_lines: usize::MAX, num_words: 1, num_bytes: 2, num_chars: 3 };
    let b = FileInfo { num_lines: 5, num_words: 10, num_bytes: 20, num_chars: 30 };
    assert_eq!(
        add_counts(&a, &b),
        FileInfo { num_lines: usize::MAX, num_words: 11, num_bytes: 22, num_chars: 33 }
    );
}
