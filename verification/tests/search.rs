use mini_grep::pattern::CompiledPattern;
use mini_grep::report::decimal_string;
use mini_grep::report::format_record;
use mini_grep::report::search_lines;
use mini_grep::report::uses_path_prefix;
use mini_grep::report::SourceKind;
use mini_grep::scan::scan_lines;
use mini_grep::scan::MatchRecord;
use mini_grep::scan::SourceLine;

fn lines(texts: &[&str]) -> Vec<SourceLine> {
    texts.iter().map(|t| SourceLine::Text(t.to_string())).collect()
}

#[test]
fn scenario_single_file() {
    let pat = CompiledPattern::compile("apple").unwrap();
    let file = lines(&["apple", "banana", "apple pie"]);
    let records = scan_lines(&pat, &file);
    assert_eq!(records.len(), 2);
    assert_eq!(records[0].line_number, 1);
    assert_eq!(records[0].text, "apple");
    assert_eq!(records[1].line_number, 3);
    assert_eq!(records[1].text, "apple pie");
}

#[test]
fn scenario_directory() {
    let pat = CompiledPattern::compile("foo.*bar").unwrap();
    let x_label = String::from("logs/x.log");
    let x = lines(&["foo bar"]);
    let y_label = String::from("logs/y.log");
    let y = lines(&["baz"]);
    let x_out = search_lines(&pat, Some(&x_label), &x);
    let y_out = search_lines(&pat, Some(&y_label), &y);
    assert_eq!(x_out, vec!["logs/x.log:1: foo bar".to_string()]);
    assert!(y_out.is_empty());
}

#[test]
fn invalid_pattern_is_rejected() {
    let r = CompiledPattern::compile("[");
    assert!(r.is_err());
    assert!(!r.err().unwrap().message().is_empty());
}

#[test]
fn valid_pattern_keeps_its_text() {
    let pat = CompiledPattern::compile("apple").unwrap();
    assert_eq!(pat.pattern().as_str(), "apple");
}

#[test]
fn match_anywhere_in_line() {
    let pat = CompiledPattern::compile("pp").unwrap();
    assert!(pat.is_match("apple"));
    assert!(!pat.is_match("banana"));
}

#[test]
fn scenario_stdin_format() {
    let pat = CompiledPattern::compile("hello").unwrap();
    let input = lines(&["hello world", "nothing here"]);
    let out = search_lines(&pat, None, &input);
    assert_eq!(out, vec!["1: hello world".to_string()]);
}

#[test]
fn dot_star_reports_every_line_in_order() {
    let pat = CompiledPattern::compile(".*").unwrap();
    let texts = ["alpha", "beta", "gamma"];
    let file = lines(&texts);
    let records = scan_lines(&pat, &file);
    assert_eq!(records.len(), 3);
    for (i, rec) in records.iter().enumerate() {
        assert_eq!(rec.line_number, i + 1);
        assert_eq!(rec.text, texts[i]);
    }
}

#[test]
fn no_matching_line_no_output() {
    let pat = CompiledPattern::compile("zzz").unwrap();
    let file = lines(&["alpha", "beta"]);
    assert!(scan_lines(&pat, &file).is_empty());
    assert!(search_lines(&pat, None, &file).is_empty());
}

#[test]
fn empty_source_no_output() {
    let pat = CompiledPattern::compile("a").unwrap();
    let file: Vec<SourceLine> = Vec::new();
    assert!(scan_lines(&pat, &file).is_empty());
}

#[test]
fn same_run_twice_same_records() {
    let pat = CompiledPattern::compile("ba").unwrap();
    let file = lines(&["foo", "bar", "baz", "qux"]);
    let first = scan_lines(&pat, &file);
    let second = scan_lines(&pat, &file);
    assert_eq!(first.len(), second.len());
    for (a, b) in first.iter().zip(second.iter()) {
        assert_eq!(a.line_number, b.line_number);
        assert_eq!(a.text, b.text);
    }
}

#[test]
fn line_numbers_are_one_based_positions() {
    let pat = CompiledPattern::compile("b").unwrap();
    let file = lines(&["a", "b", "c", "b"]);
    let records = scan_lines(&pat, &file);
    assert_eq!(records.len(), 2);
    assert_eq!(records[0].line_number, 2);
    assert_eq!(records[1].line_number, 4);
    for rec in &records {
        match &file[rec.line_number - 1] {
            SourceLine::Text(t) => assert_eq!(t, &rec.text),
            SourceLine::Undecodable => panic!("a skipped line was reported"),
        }
    }
}

#[test]
fn record_formatting() {
    let rec = MatchRecord { line_number: 3, text: String::from("xyz") };
    let label = String::from("a.txt");
    assert_eq!(format_record(Some(&label), &rec), "a.txt:3: xyz");
    assert_eq!(format_record(None, &rec), "3: xyz");
}

#[test]
fn multi_digit_line_numbers() {
    let pat = CompiledPattern::compile("end").unwrap();
    let mut file = lines(&[
        "1", "2", "3", "4", "5", "6", "7", "8", "9", "10", "11",
    ]);
    file.push(SourceLine::Text(String::from("the end")));
    let out = search_lines(&pat, None, &file);
    assert_eq!(out, vec!["12: the end".to_string()]);
}

#[test]
fn decimal_rendering() {
    assert_eq!(decimal_string(0), "0");
    assert_eq!(decimal_string(7), "7");
    assert_eq!(decimal_string(10), "10");
    assert_eq!(decimal_string(907), "907");
    assert_eq!(decimal_string(u64::MAX), "18446744073709551615");
}

#[test]
fn undecodable_lines_keep_numbering() {
    let pat = CompiledPattern::compile("apple").unwrap();
    let file = vec![
        SourceLine::Text(String::from("pear")),
        SourceLine::Undecodable,
        SourceLine::Text(String::from("apple")),
    ];
    let records = scan_lines(&pat, &file);
    assert_eq!(records.len(), 1);
    assert_eq!(records[0].line_number, 3);
    assert_eq!(records[0].text, "apple");
}

#[test]
fn path_prefix_policy() {
    assert!(uses_path_prefix(&SourceKind::DirTree));
    assert!(!uses_path_prefix(&SourceKind::SingleFile));
    assert!(!uses_path_prefix(&SourceKind::Stdin));
}
