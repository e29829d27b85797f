use dspm_collector::numbers::{parse_bool, parse_i64};
use dspm_collector::out::summary_line;
use dspm_collector::text::{
    char_is_space, chars_of, contains_text, decimal, first_or, join2, join3, join4,
    last_piece_of, same_text, split_on, trim,
};

#[test]
fn split_gives_the_pieces_between_separators() {
    assert_eq!(split_on("a,b,c", ','), vec!["a", "b", "c"]);
    assert_eq!(split_on("", ','), vec![""]);
    assert_eq!(split_on(",", ','), vec!["", ""]);
    assert_eq!(split_on("a,,b,", ','), vec!["a", "", "b", ""]);
    assert_eq!(split_on("no separator", ','), vec!["no separator"]);
    assert_eq!(split_on("é,ü", ','), vec!["é", "ü"]);
}

#[test]
fn split_agrees_with_the_standard_library() {
    for s in ["", ",", "a", "a,b", ",a,", "x,,y", "s3, ec2 ,logs", "日本,語"] {
        let expected: Vec<String> = s.split(',').map(|p| p.to_string()).collect();
        assert_eq!(split_on(s, ','), expected, "input {s:?}");
    }
}

#[test]
fn trim_drops_white_space_at_both_ends() {
    assert_eq!(trim("  a b  "), "a b");
    assert_eq!(trim(""), "");
    assert_eq!(trim(" \t\n\r"), "");
    assert_eq!(trim("x"), "x");
    assert_eq!(trim("\u{a0}s3\u{3000}"), "s3");
    assert_eq!(trim("\u{200b}s3"), "\u{200b}s3");
}

#[test]
fn white_space_is_what_the_standard_library_takes_for_it() {
    for code in 0u32..0x3100 {
        if let Some(c) = char::from_u32(code) {
            assert_eq!(char_is_space(c), c.is_whitespace(), "code {code:#x}");
        }
    }
}

#[test]
fn trim_agrees_with_the_standard_library() {
    for s in ["", " ", "a", " a", "a ", "\u{2003}a b\u{85}", "\u{1680}\u{2028}", "a\u{feff}"] {
        assert_eq!(trim(s), s.trim(), "input {s:?}");
    }
}

#[test]
fn chars_are_listed_in_order() {
    assert_eq!(chars_of("aé日"), vec!['a', 'é', '日']);
    assert_eq!(chars_of(""), Vec::<char>::new());
}

#[test]
fn same_text_compares_by_content() {
    assert!(same_text("abc", "abc"));
    assert!(!same_text("abc", "abd"));
    assert!(!same_text("abc", "ab"));
    assert!(same_text("", ""));
}

#[test]
fn joins_put_texts_one_after_the_other() {
    assert_eq!(join2("a", "b"), "ab");
    assert_eq!(join3("a", "", "c"), "ac");
    assert_eq!(join4("a", "b", "c", "d"), "abcd");
}

#[test]
fn last_piece_is_what_follows_the_last_separator() {
    assert_eq!(last_piece_of("https://host/123/queue", '/'), "queue");
    assert_eq!(last_piece_of("queue", '/'), "queue");
    assert_eq!(last_piece_of("ends/", '/'), "");
    assert_eq!(last_piece_of("", '/'), "");
}

#[test]
fn list_helpers() {
    let list = vec!["us-east-1".to_string(), "eu-west-1".to_string()];
    assert!(contains_text(&list, "eu-west-1"));
    assert!(!contains_text(&list, "eu-west-2"));
    assert!(!contains_text(&[], "eu-west-2"));
    assert_eq!(first_or(&list, "ap-northeast-2"), "us-east-1");
    assert_eq!(first_or(&[], "ap-northeast-2"), "ap-northeast-2");
}

#[test]
fn decimal_writes_numbers_without_leading_zeros() {
    assert_eq!(decimal(0), "0");
    assert_eq!(decimal(7), "7");
    assert_eq!(decimal(10), "10");
    assert_eq!(decimal(457), "457");
    assert_eq!(decimal(u64::MAX), "18446744073709551615");
}

#[test]
fn summary_line_counts_the_records() {
    assert_eq!(summary_line(0), "discovered assets = 0");
    assert_eq!(summary_line(457), "discovered assets = 457");
}

#[test]
fn flags_are_read_strictly() {
    assert_eq!(parse_bool("true"), Some(true));
    assert_eq!(parse_bool("false"), Some(false));
    assert_eq!(parse_bool("True"), None);
    assert_eq!(parse_bool(" true"), None);
    assert_eq!(parse_bool(""), None);
    assert_eq!(parse_bool("1"), None);
}

#[test]
fn numbers_are_read_as_the_standard_library_reads_them() {
    let inputs = [
        "0",
        "30",
        "-30",
        "+30",
        "0030",
        "",
        "-",
        "+",
        "--1",
        "+-1",
        "1 ",
        " 1",
        "1_000",
        "12a",
        "٣",
        "9223372036854775807",
        "9223372036854775808",
        "-9223372036854775808",
        "-9223372036854775809",
        "+9223372036854775807",
        "99999999999999999999999999",
        "-99999999999999999999999999",
        "0000000000000000000000000000000000001",
        "92233720368547758070",
    ];
    for s in inputs {
        assert_eq!(parse_i64(s), s.parse::<i64>().ok(), "input {s:?}");
    }
}

#[test]
fn numbers_exact_values() {
    assert_eq!(parse_i64("345600"), Some(345600));
    assert_eq!(parse_i64("-9223372036854775808"), Some(i64::MIN));
    assert_eq!(parse_i64("9223372036854775807"), Some(i64::MAX));
    assert_eq!(parse_i64("9223372036854775808"), None);
}
