//! End-to-end tests of the statement-import pipeline.
use ledger_import::{parse, Error, ParserConfig, Transaction, TransactionSource};

fn config(source: TransactionSource, encoding: Option<&str>, account: &str) -> ParserConfig {
    ParserConfig {
        source,
        encoding: encoding.map(|e| e.to_owned()),
        account_name: account.to_owned(),
    }
}

fn parse_str(text: &str, cfg: &ParserConfig) -> Result<Vec<Transaction>, Error> {
    parse(&text.as_bytes().to_vec(), cfg)
}

#[test]
fn test_parse() {
    let cfg = config(TransactionSource::CgbCredit, None, "CGB");
    let content = "2023-05-01,Salary,,1500.00\n2023-05-02,Groceries,,-42.10\n";
    let transactions = parse(&content.as_bytes().to_vec(), &cfg).unwrap();
    assert_eq!(transactions.len(), 2);
}

#[test]
fn format_a_income_row() {
    let cfg = config(TransactionSource::CgbCredit, Some("utf-8"), "Checking");
    let got = parse_str("2023-05-01,Salary,,1500.00\n", &cfg).unwrap();
    let want = vec![Transaction {
        datetime: 1682899200,
        from: "".to_owned(),
        to: "Checking".to_owned(),
        amount: 150000,
        description: "Salary".to_owned(),
    }];
    assert_eq!(got, want);
}

#[test]
fn format_a_expense_row() {
    let cfg = config(TransactionSource::CgbCredit, Some("utf-8"), "Checking");
    let got = parse_str("2023-05-02,Groceries,,-42.10\n", &cfg).unwrap();
    assert_eq!(got.len(), 1);
    assert_eq!(got[0].from, "Checking");
    assert_eq!(got[0].to, "");
    assert_eq!(got[0].amount, 4210);
    assert_eq!(got[0].description, "Groceries");
}

#[test]
fn sub_cent_positive_amount_is_income() {
    // A positive amount below one cent truncates to zero minor units but
    // still counts as income for direction.
    let cfg = config(TransactionSource::CgbCredit, Some("utf-8"), "Checking");
    let got = parse_str("2023-05-01,Interest,,0.005\n", &cfg).unwrap();
    assert_eq!(got.len(), 1);
    assert_eq!(got[0].from, "");
    assert_eq!(got[0].to, "Checking");
    assert_eq!(got[0].amount, 0);
}

#[test]
fn zero_amount_is_expense() {
    let cfg = config(TransactionSource::CgbCredit, Some("utf-8"), "Checking");
    let got = parse_str("2023-05-01,Nothing,,0.00\n", &cfg).unwrap();
    assert_eq!(got.len(), 1);
    assert_eq!(got[0].from, "Checking");
    assert_eq!(got[0].to, "");
    assert_eq!(got[0].amount, 0);
}

#[test]
fn header_only_file_is_empty_for_all_sources() {
    let content = "Date,Description,Category,Amount\nTotal,,,\n";
    for source in [
        TransactionSource::CgbCredit,
        TransactionSource::Alipay,
        TransactionSource::WeChatPay,
    ] {
        let cfg = config(source, Some("utf-8"), "Checking");
        let got = parse_str(content, &cfg).unwrap();
        assert!(got.is_empty());
    }
}

#[test]
fn empty_file_with_explicit_encoding_is_empty() {
    let cfg = config(TransactionSource::CgbCredit, Some("utf-8"), "Checking");
    let got = parse_str("", &cfg).unwrap();
    assert!(got.is_empty());
}

fn alipay_row(tag: &str) -> String {
    format!(
        "x,x,2023-05-01 12:30:00,x,x,x,x,Alice,Lunch,12.50,x,x,x,x,x,{},x\n",
        tag
    )
}

#[test]
fn alipay_income_row() {
    let cfg = config(TransactionSource::Alipay, Some("utf-8"), "Wallet");
    let got = parse_str(&alipay_row("已收入"), &cfg).unwrap();
    let want = vec![Transaction {
        datetime: 1682944200,
        from: "Alice".to_owned(),
        to: "Wallet".to_owned(),
        amount: 1250,
        description: "Lunch".to_owned(),
    }];
    assert_eq!(got, want);
}

#[test]
fn alipay_expense_row() {
    let cfg = config(TransactionSource::Alipay, Some("utf-8"), "Wallet");
    let got = parse_str(&alipay_row("已支出"), &cfg).unwrap();
    assert_eq!(got.len(), 1);
    assert_eq!(got[0].from, "Wallet");
    assert_eq!(got[0].to, "Alice");
    assert_eq!(got[0].amount, 1250);
}

#[test]
fn alipay_unknown_tag_row_is_dropped() {
    let cfg = config(TransactionSource::Alipay, Some("utf-8"), "Wallet");
    let content = format!("{}{}", alipay_row("已收入"), alipay_row("资金转移"));
    let got = parse_str(&content, &cfg).unwrap();
    assert_eq!(got.len(), 1);
    assert_eq!(got[0].to, "Wallet");
}

#[test]
fn wechat_amount_glyph_is_stripped() {
    let cfg = config(TransactionSource::WeChatPay, Some("utf-8"), "Wallet");
    let got = parse_str("2023-05-01 12:30:00,Lunch,Alice,x,支出,¥88.88\n", &cfg).unwrap();
    let want = vec![Transaction {
        datetime: 1682944200,
        from: "Wallet".to_owned(),
        to: "Alice".to_owned(),
        amount: 8888,
        description: "Lunch".to_owned(),
    }];
    assert_eq!(got, want);
}

#[test]
fn wechat_income_row() {
    let cfg = config(TransactionSource::WeChatPay, Some("utf-8"), "Wallet");
    let got = parse_str("2023-05-01 12:30:00,Refund,Shop,x,收入,¥1.00\n", &cfg).unwrap();
    assert_eq!(got.len(), 1);
    assert_eq!(got[0].from, "Shop");
    assert_eq!(got[0].to, "Wallet");
    assert_eq!(got[0].amount, 100);
}

#[test]
fn wechat_unknown_tag_row_is_dropped() {
    let cfg = config(TransactionSource::WeChatPay, Some("utf-8"), "Wallet");
    let got = parse_str("2023-05-01 12:30:00,Lunch,Alice,x,中性交易,¥88.88\n", &cfg).unwrap();
    assert!(got.is_empty());
}

#[test]
fn parse_twice_is_identical() {
    let cfg = config(TransactionSource::CgbCredit, Some("utf-8"), "Checking");
    let content = "2023-05-01,Salary,,1500.00\njunk line\n2023-05-02,Groceries,,-42.10\n";
    let first = parse_str(content, &cfg).unwrap();
    let second = parse_str(content, &cfg).unwrap();
    assert_eq!(first, second);
}

#[test]
fn unterminated_quote_fails_the_whole_file() {
    let cfg = config(TransactionSource::CgbCredit, Some("utf-8"), "Checking");
    let content = "2023-05-01,Salary,,1500.00\n\"broken,,1.00\n";
    let got = parse_str(content, &cfg);
    assert!(matches!(got, Err(Error::CsvError(_))));
}

#[test]
fn unknown_encoding_label_is_fatal() {
    let cfg = config(TransactionSource::CgbCredit, Some("martian-5"), "Checking");
    let got = parse_str("2023-05-01,Salary,,1500.00\n", &cfg);
    assert!(matches!(got, Err(Error::UnknownEncoding)));
}

#[test]
fn encoding_label_is_case_tolerant() {
    let cfg = config(TransactionSource::CgbCredit, Some("UTF-8"), "Checking");
    let got = parse_str("2023-05-01,Salary,,1500.00\n", &cfg).unwrap();
    assert_eq!(got.len(), 1);
}

#[test]
fn detection_on_ascii_succeeds() {
    let cfg = config(TransactionSource::CgbCredit, None, "Checking");
    let got = parse_str("2023-05-01,Salary,,1500.00\n", &cfg).unwrap();
    assert_eq!(got.len(), 1);
    assert_eq!(got[0].amount, 150000);
}

#[test]
fn detection_on_empty_bytes_fails_with_best_match() {
    let cfg = config(TransactionSource::CgbCredit, None, "Checking");
    let got = parse(&Vec::new(), &cfg);
    assert!(matches!(got, Err(Error::Encoding { .. })));
}

#[test]
fn invalid_bytes_decode_to_replacement_character() {
    let cfg = config(TransactionSource::CgbCredit, Some("utf-8"), "Checking");
    let mut bytes = b"2023-05-01,A".to_vec();
    bytes.push(0xff);
    bytes.extend_from_slice(b"B,,1.00\n");
    let got = parse(&bytes, &cfg).unwrap();
    assert_eq!(got.len(), 1);
    assert_eq!(got[0].description, "A\u{fffd}B");
}

#[test]
fn gbk_bytes_decode_with_explicit_label() {
    // The income marker, encoded as GBK rather than UTF-8.
    let mut content: Vec<u8> = Vec::new();
    content.extend_from_slice(b"x,x,2023-05-01 12:30:00,x,x,x,x,Alice,Lunch,12.50,x,x,x,x,x,");
    content.extend_from_slice(&[0xd2, 0xd1, 0xca, 0xd5, 0xc8, 0xeb]);
    content.extend_from_slice(b",x\n");
    let cfg = config(TransactionSource::Alipay, Some("gbk"), "Wallet");
    let got = parse(&content, &cfg).unwrap();
    assert_eq!(got.len(), 1);
    assert_eq!(got[0].from, "Alice");
    assert_eq!(got[0].to, "Wallet");
}
