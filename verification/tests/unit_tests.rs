//! Tests of the record reader and the fixed-point amount parser on their
//! own, below the pipeline entry point.
use ledger_import::amount::parse_decimal_minor;
use ledger_import::tokenizer::tokenize;
use ledger_import::Error;

fn chars(s: &str) -> Vec<char> {
    s.chars().collect()
}

fn records_of(text: &str) -> Vec<Vec<String>> {
    tokenize(&chars(text))
        .unwrap()
        .into_iter()
        .map(|rec| rec.into_iter().map(|f| f.into_iter().collect()).collect())
        .collect()
}

fn minor(s: &str) -> Option<(bool, u64)> {
    parse_decimal_minor(&chars(s))
}

#[test]
fn splits_fields_and_lines() {
    let got = records_of("a,b,c\nd,e\n");
    assert_eq!(got, vec![vec!["a", "b", "c"], vec!["d", "e"]]);
}

#[test]
fn last_line_needs_no_newline() {
    let got = records_of("a,b");
    assert_eq!(got, vec![vec!["a", "b"]]);
}

#[test]
fn fields_are_trimmed() {
    let got = records_of("  a\t, b ,c  \n");
    assert_eq!(got, vec![vec!["a", "b", "c"]]);
}

#[test]
fn empty_lines_are_skipped() {
    let got = records_of("\n\na,b\n\r\n\nc\n\n");
    assert_eq!(got, vec![vec!["a", "b"], vec!["c"]]);
}

#[test]
fn crlf_ends_a_line() {
    let got = records_of("a,b\r\nc,d\r\n");
    assert_eq!(got, vec![vec!["a", "b"], vec!["c", "d"]]);
}

#[test]
fn quoted_field_keeps_comma_and_newline() {
    let got = records_of("a,\"b,c\nd\",e\n");
    assert_eq!(got, vec![vec!["a", "b,c\nd", "e"]]);
}

#[test]
fn doubled_quote_is_a_literal_quote() {
    let got = records_of("\"x\"\"y\"\n");
    assert_eq!(got, vec![vec!["x\"y"]]);
}

#[test]
fn empty_fields_survive() {
    let got = records_of(",a,,\n");
    assert_eq!(got, vec![vec!["", "a", "", ""]]);
}

#[test]
fn trailing_carriage_return_ends_the_file() {
    let got = records_of("a,b\r");
    assert_eq!(got, vec![vec!["a", "b"]]);
}

#[test]
fn whitespace_only_line_is_one_empty_field() {
    let got = records_of("  \na\n");
    assert_eq!(got, vec![vec![""], vec!["a"]]);
}

#[test]
fn quoted_field_after_crlf() {
    let got = records_of("a\r\n\"b,c\",d\n");
    assert_eq!(got, vec![vec!["a"], vec!["b,c", "d"]]);
}

#[test]
fn unterminated_quote_is_an_error() {
    assert!(matches!(tokenize(&chars("a,\"open\n")), Err(Error::CsvError(_))));
}

#[test]
fn text_after_closing_quote_is_an_error() {
    assert!(matches!(tokenize(&chars("\"a\"b,c\n")), Err(Error::CsvError(_))));
}

#[test]
fn exact_two_decimal_conversion() {
    assert_eq!(minor("123.45"), Some((false, 12345)));
    assert_eq!(minor("1500.00"), Some((false, 150000)));
    assert_eq!(minor("0.01"), Some((false, 1)));
}

#[test]
fn sign_is_reported_and_magnitude_kept() {
    assert_eq!(minor("-42.10"), Some((true, 4210)));
    assert_eq!(minor("+7"), Some((false, 700)));
    assert_eq!(minor("-0.00"), Some((true, 0)));
}

#[test]
fn extra_decimals_truncate_toward_zero() {
    assert_eq!(minor("1.999"), Some((false, 199)));
    assert_eq!(minor("0.129"), Some((false, 12)));
}

#[test]
fn partial_decimal_forms() {
    assert_eq!(minor(".5"), Some((false, 50)));
    assert_eq!(minor("5."), Some((false, 500)));
    assert_eq!(minor("7"), Some((false, 700)));
    assert_eq!(minor("0.1"), Some((false, 10)));
}

#[test]
fn malformed_amounts_are_rejected() {
    assert_eq!(minor(""), None);
    assert_eq!(minor("."), None);
    assert_eq!(minor("+"), None);
    assert_eq!(minor("1e3"), None);
    assert_eq!(minor("12a.00"), None);
    assert_eq!(minor("1.2.3"), None);
    assert_eq!(minor("1.2x"), None);
}

#[test]
fn oversized_amounts_are_rejected() {
    assert_eq!(minor("999999999999999999999999999999"), None);
}

#[test]
fn detection_names_shift_jis_text() {
    // Japanese hiragana text in Shift-JIS: detection clears the confidence
    // threshold and names a label the decoder registry accepts.
    let greeting: [u8; 10] = [0x82, 0xb1, 0x82, 0xf1, 0x82, 0xc9, 0x82, 0xbf, 0x82, 0xcd];
    let mut bytes: Vec<u8> = Vec::new();
    for _ in 0..40 {
        bytes.extend_from_slice(&greeting);
    }
    let label = ledger_import::encodings::detect_encoding(&bytes).unwrap();
    assert_eq!(label, "SHIFT_JIS");
}
