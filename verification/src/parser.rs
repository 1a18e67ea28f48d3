//! The per-source row mappers and their registry.
//!
//! Every supported institution gets one mapper: a pure function from one
//! record of fields to at most one canonical transaction, encapsulating that
//! source's column positions, date format, direction vocabulary and currency
//! glyph. A record that is not a transaction — a header remnant, a summary
//! line, an unrecognized direction tag, a field that fails to parse — maps
//! to nothing and is dropped silently: that is the designed tolerance for
//! noisy exports, not an error path.
use vstd::prelude::*;

use crate::amount::{decimal_minor, find_nonzero_digit, has_nonzero_digit, parse_decimal_minor};
use crate::dates::{date_epoch, date_field_epoch, datetime_epoch, datetime_field_epoch};
use crate::entities::{Transaction, TransactionV};
use crate::text::{chars_to_string, vec_eq_str};
use crate::TransactionSource;

verus! {

/// The interface every row mapper implements: `map_row_spec` is the mapping
/// as a mathematical function, and `map_row` computes exactly it.
pub trait CsvParser: Sized {
    spec fn map_row_spec(&self, rec: Seq<Seq<char>>) -> Option<TransactionV>;

    fn map_row(&self, record: &Vec<Vec<char>>) -> (r: Option<Transaction>)
        ensures
            match self.map_row_spec(record.deep_view()) {
                Some(tv) => r matches Some(t) && t@ == tv,
                None => r is None,
            },
    ;
}

/// The credit-card format: date `%Y-%m-%d` in column 0, description in
/// column 1, signed decimal amount in column 3. A positive amount is income
/// (credited to the tracked account), anything else an expense.
pub struct CgbCreditParser {
    pub account_name: String,
}

/// The Alipay-style e-wallet export: date and time in column 2, counterparty
/// in column 7, description in column 8, decimal amount in column 9, and a
/// direction tag in column 15.
pub struct AlipayParser {
    pub account_name: String,
}

/// The WeChat-style e-wallet export: date and time in column 0, description
/// in column 1, counterparty in column 2, direction tag in column 4, and a
/// decimal amount with a leading currency glyph in column 5.
pub struct WeChatPayParser {
    pub account_name: String,
}

/// The debit-card format. Its column semantics are not specified by the
/// institution's observed exports, so it has no row mapping yet: it is to be
/// specified from real sample data, not guessed.
pub struct CmbDebitParser {
    pub account_name: String,
}

/// A parsed amount magnitude that fits the transaction record.
pub open spec fn amount_fits(v: nat) -> bool {
    v <= i64::MAX
}

/// The credit-card mapping: row `[date, description, _, amount, ..]`; a
/// strictly positive amount — no minus sign and a nonzero digit, even one
/// below a cent — credits the tracked account from outside, any other
/// amount debits it to outside; the stored amount is `floor(|amount| * 100)`.
pub open spec fn credit_a_row(rec: Seq<Seq<char>>, account: Seq<char>) -> Option<TransactionV> {
    if rec.len() <= 3 {
        None
    } else {
        match (date_epoch(rec[0]), decimal_minor(rec[3])) {
            (Some(t), Some((neg, v))) => if amount_fits(v) {
                if !neg && has_nonzero_digit(rec[3]) {
                    Some(TransactionV {
                        datetime: t as int,
                        from: Seq::empty(),
                        to: account,
                        amount: v as int,
                        description: rec[1],
                    })
                } else {
                    Some(TransactionV {
                        datetime: t as int,
                        from: account,
                        to: Seq::empty(),
                        amount: v as int,
                        description: rec[1],
                    })
                }
            } else {
                None
            },
            _ => None,
        }
    }
}

/// The Alipay-style mapping: the direction tag alone decides; a tag that is
/// neither the income nor the expense marker drops the row.
pub open spec fn wallet_c_row(rec: Seq<Seq<char>>, account: Seq<char>) -> Option<TransactionV> {
    if rec.len() <= 15 {
        None
    } else {
        match (datetime_epoch(rec[2]), decimal_minor(rec[9])) {
            (Some(t), Some((neg, v))) => if amount_fits(v) {
                if rec[15] == "已收入"@ {
                    Some(TransactionV {
                        datetime: t as int,
                        from: rec[7],
                        to: account,
                        amount: v as int,
                        description: rec[8],
                    })
                } else if rec[15] == "已支出"@ {
                    Some(TransactionV {
                        datetime: t as int,
                        from: account,
                        to: rec[7],
                        amount: v as int,
                        description: rec[8],
                    })
                } else {
                    None
                }
            } else {
                None
            },
            _ => None,
        }
    }
}

/// The WeChat-style mapping: as the Alipay one, but with the amount field
/// carrying one leading currency glyph that is stripped before parsing.
pub open spec fn wallet_d_row(rec: Seq<Seq<char>>, account: Seq<char>) -> Option<TransactionV> {
    if rec.len() <= 5 || rec[5].len() == 0 {
        None
    } else {
        match (datetime_epoch(rec[0]), decimal_minor(rec[5].skip(1))) {
            (Some(t), Some((neg, v))) => if amount_fits(v) {
                if rec[4] == "收入"@ {
                    Some(TransactionV {
                        datetime: t as int,
                        from: rec[2],
                        to: account,
                        amount: v as int,
                        description: rec[1],
                    })
                } else if rec[4] == "支出"@ {
                    Some(TransactionV {
                        datetime: t as int,
                        from: account,
                        to: rec[2],
                        amount: v as int,
                        description: rec[1],
                    })
                } else {
                    None
                }
            } else {
                None
            },
            _ => None,
        }
    }
}

/// Each field of a record, read as its character sequence.
proof fn lemma_record_fields(record: &Vec<Vec<char>>, i: int)
    requires
        0 <= i < record@.len(),
    ensures
        record.deep_view()[i] =~= record@[i]@,
{
}

impl CsvParser for CgbCreditParser {
    open spec fn map_row_spec(&self, rec: Seq<Seq<char>>) -> Option<TransactionV> {
        credit_a_row(rec, self.account_name@)
    }

    fn map_row(&self, record: &Vec<Vec<char>>) -> (r: Option<Transaction>) {
        if record.len() <= 3 {
            return None;
        }
        proof {
            lemma_record_fields(record, 0);
            lemma_record_fields(record, 1);
            lemma_record_fields(record, 3);
        }
        let date = match date_field_epoch(&record[0]) {
            Some(t) => t,
            None => {
                return None;
            },
        };
        let (neg, v) = match parse_decimal_minor(&record[3]) {
            Some(p) => p,
            None => {
                return None;
            },
        };
        if v > i64::MAX as u64 {
            return None;
        }
        let amount = v as i64;
        let description = chars_to_string(&record[1]);
        let positive = !neg && find_nonzero_digit(&record[3]);
        let r = if positive {
            Transaction {
                datetime: date,
                from: String::new(),
                to: self.account_name.clone(),
                amount,
                description,
            }
        } else {
            Transaction {
                datetime: date,
                from: self.account_name.clone(),
                to: String::new(),
                amount,
                description,
            }
        };
        proof {
            assert(r@ =~~= self.map_row_spec(record.deep_view())->0);
        }
        Some(r)
    }
}

impl CsvParser for AlipayParser {
    open spec fn map_row_spec(&self, rec: Seq<Seq<char>>) -> Option<TransactionV> {
        wallet_c_row(rec, self.account_name@)
    }

    fn map_row(&self, record: &Vec<Vec<char>>) -> (r: Option<Transaction>) {
        if record.len() <= 15 {
            return None;
        }
        proof {
            lemma_record_fields(record, 2);
            lemma_record_fields(record, 7);
            lemma_record_fields(record, 8);
            lemma_record_fields(record, 9);
            lemma_record_fields(record, 15);
        }
        let datetime = match datetime_field_epoch(&record[2]) {
            Some(t) => t,
            None => {
                return None;
            },
        };
        let (_neg, v) = match parse_decimal_minor(&record[9]) {
            Some(p) => p,
            None => {
                return None;
            },
        };
        if v > i64::MAX as u64 {
            return None;
        }
        let amount = v as i64;
        let r = if vec_eq_str(&record[15], "已收入") {
            Transaction {
                datetime,
                from: chars_to_string(&record[7]),
                to: self.account_name.clone(),
                amount,
                description: chars_to_string(&record[8]),
            }
        } else if vec_eq_str(&record[15], "已支出") {
            Transaction {
                datetime,
                from: self.account_name.clone(),
                to: chars_to_string(&record[7]),
                amount,
                description: chars_to_string(&record[8]),
            }
        } else {
            return None;
        };
        proof {
            assert(r@ =~~= self.map_row_spec(record.deep_view())->0);
        }
        Some(r)
    }
}

impl CsvParser for WeChatPayParser {
    open spec fn map_row_spec(&self, rec: Seq<Seq<char>>) -> Option<TransactionV> {
        wallet_d_row(rec, self.account_name@)
    }

    fn map_row(&self, record: &Vec<Vec<char>>) -> (r: Option<Transaction>) {
        if record.len() <= 5 {
            return None;
        }
        proof {
            lemma_record_fields(record, 0);
            lemma_record_fields(record, 1);
            lemma_record_fields(record, 2);
            lemma_record_fields(record, 4);
            lemma_record_fields(record, 5);
        }
        if record[5].len() == 0 {
            return None;
        }
        let datetime = match datetime_field_epoch(&record[0]) {
            Some(t) => t,
            None => {
                return None;
            },
        };
        // Strip the leading currency glyph before parsing the amount.
        let stripped = strip_first(&record[5]);
        let (_neg, v) = match parse_decimal_minor(&stripped) {
            Some(p) => p,
            None => {
                return None;
            },
        };
        if v > i64::MAX as u64 {
            return None;
        }
        let amount = v as i64;
        let r = if vec_eq_str(&record[4], "收入") {
            Transaction {
                datetime,
                from: chars_to_string(&record[2]),
                to: self.account_name.clone(),
                amount,
                description: chars_to_string(&record[1]),
            }
        } else if vec_eq_str(&record[4], "支出") {
            Transaction {
                datetime,
                from: self.account_name.clone(),
                to: chars_to_string(&record[2]),
                amount,
                description: chars_to_string(&record[1]),
            }
        } else {
            return None;
        };
        proof {
            assert(r@ =~~= self.map_row_spec(record.deep_view())->0);
        }
        Some(r)
    }
}

/// A copy of a field without its first character.
fn strip_first(v: &Vec<char>) -> (r: Vec<char>)
    requires
        v@.len() > 0,
    ensures
        r@ == v@.skip(1),
{
    let mut r: Vec<char> = Vec::new();
    let n = v.len();
    let mut i: usize = 1;
    while i < n
        invariant
            1 <= i <= n == v@.len(),
            r@ =~= v@.subrange(1, i as int),
        decreases n - i,
    {
        r.push(v[i]);
        i += 1;
    }
    proof {
        assert(r@ =~= v@.skip(1));
    }
    r
}

/// The mapping of the configured source, as a function of the source tag and
/// the tracked account's name. The debit-card format has no mapping (see
/// `CmbDebitParser`).
pub open spec fn source_row_spec(
    source: TransactionSource,
    account: Seq<char>,
    rec: Seq<Seq<char>>,
) -> Option<TransactionV> {
    match source {
        TransactionSource::CgbCredit => credit_a_row(rec, account),
        TransactionSource::CmbDebit => None,
        TransactionSource::Alipay => wallet_c_row(rec, account),
        TransactionSource::WeChatPay => wallet_d_row(rec, account),
    }
}

/// The transactions of a record sequence, in file order: each record mapped
/// through the source's row mapping, records that map to nothing dropped.
pub open spec fn map_rows_spec(
    source: TransactionSource,
    account: Seq<char>,
    recs: Seq<Seq<Seq<char>>>,
) -> Seq<TransactionV>
    decreases recs.len(),
{
    if recs.len() == 0 {
        Seq::empty()
    } else {
        let rest = map_rows_spec(source, account, recs.drop_last());
        match source_row_spec(source, account, recs.last()) {
            Some(t) => rest.push(t),
            None => rest,
        }
    }
}

/// The row mapper selected for one import: the registry's value.
pub enum RowMapper {
    CgbCredit(CgbCreditParser),
    CmbDebit(CmbDebitParser),
    Alipay(AlipayParser),
    WeChatPay(WeChatPayParser),
}

impl RowMapper {
    /// The source tag this mapper serves.
    pub open spec fn source(&self) -> TransactionSource {
        match self {
            RowMapper::CgbCredit(_) => TransactionSource::CgbCredit,
            RowMapper::CmbDebit(_) => TransactionSource::CmbDebit,
            RowMapper::Alipay(_) => TransactionSource::Alipay,
            RowMapper::WeChatPay(_) => TransactionSource::WeChatPay,
        }
    }

    /// The tracked account's name carried into the mapped transactions.
    pub open spec fn account(&self) -> Seq<char> {
        match self {
            RowMapper::CgbCredit(p) => p.account_name@,
            RowMapper::CmbDebit(p) => p.account_name@,
            RowMapper::Alipay(p) => p.account_name@,
            RowMapper::WeChatPay(p) => p.account_name@,
        }
    }

    /// Maps one record; the debit-card format has no mapping yet and is
    /// excluded by the caller.
    pub fn map_row(&self, record: &Vec<Vec<char>>) -> (r: Option<Transaction>)
        requires
            !(self.source() is CmbDebit),
        ensures
            match source_row_spec(self.source(), self.account(), record.deep_view()) {
                Some(tv) => r matches Some(t) && t@ == tv,
                None => r is None,
            },
    {
        match self {
            RowMapper::CgbCredit(p) => p.map_row(record),
            RowMapper::CmbDebit(_) => None,
            RowMapper::Alipay(p) => p.map_row(record),
            RowMapper::WeChatPay(p) => p.map_row(record),
        }
    }

    /// Maps every record in file order, dropping the records that map to
    /// nothing; exactly `map_rows_spec`.
    #[verifier::loop_isolation(false)]
    pub fn map_rows(&self, records: &Vec<Vec<Vec<char>>>) -> (r: Vec<Transaction>)
        requires
            !(self.source() is CmbDebit),
        ensures
            r.deep_view() == map_rows_spec(self.source(), self.account(), records.deep_view()),
    {
        let ghost recs = records.deep_view();
        let mut out: Vec<Transaction> = Vec::new();
        let n = records.len();
        let mut i: usize = 0;
        proof {
            assert(out.deep_view() =~= map_rows_spec(self.source(), self.account(), recs.take(0)));
        }
        while i < n
            invariant
                i <= n,
                out.deep_view() == map_rows_spec(self.source(), self.account(), recs.take(i as int)),
            decreases n - i,
        {
            let ghost pre = out.deep_view();
            proof {
                assert(recs.take(i + 1).drop_last() =~= recs.take(i as int));
                assert(recs.take(i + 1).last() == recs[i as int]);
                assert(records[i as int].deep_view() == recs[i as int]);
            }
            match self.map_row(&records[i]) {
                Some(t) => {
                    out.push(t);
                    proof {
                        assert(out.deep_view() =~= pre.push(t@));
                    }
                },
                None => {},
            }
            proof {
                assert(out.deep_view() =~= map_rows_spec(
                    self.source(),
                    self.account(),
                    recs.take(i + 1),
                ));
            }
            i += 1;
        }
        proof {
            assert(recs.take(n as int) =~= recs);
        }
        out
    }
}

/// A record sequence in which no record is a transaction of the given source
/// maps to the empty result: a header- or footer-only file parses to an
/// empty, non-error sequence.
pub proof fn lemma_no_transactions_empty(
    source: TransactionSource,
    account: Seq<char>,
    recs: Seq<Seq<Seq<char>>>,
)
    requires
        forall|i: int| 0 <= i < recs.len() ==> source_row_spec(source, account, #[trigger] recs[i]) is None,
    ensures
        map_rows_spec(source, account, recs) == Seq::<TransactionV>::empty(),
    decreases recs.len(),
{
    if recs.len() > 0 {
        assert(recs.last() == recs[recs.len() - 1]);
        lemma_no_transactions_empty(source, account, recs.drop_last());
    }
}

/// One mapped row keeps the data model's invariant: its amount is
/// non-negative.
proof fn lemma_row_amount_nonnegative(
    source: TransactionSource,
    account: Seq<char>,
    rec: Seq<Seq<char>>,
)
    ensures
        source_row_spec(source, account, rec) matches Some(t) ==> t.amount >= 0,
{
}

/// Every transaction the mapping stage yields keeps the data model's
/// invariant: its amount is non-negative — direction is carried by which of
/// `from`/`to` names the tracked account, never by a sign.
pub proof fn lemma_mapped_amounts_nonnegative(
    source: TransactionSource,
    account: Seq<char>,
    recs: Seq<Seq<Seq<char>>>,
)
    ensures
        forall|i: int|
            0 <= i < map_rows_spec(source, account, recs).len() ==> #[trigger] map_rows_spec(
                source,
                account,
                recs,
            )[i].amount >= 0,
    decreases recs.len(),
{
    if recs.len() > 0 {
        lemma_mapped_amounts_nonnegative(source, account, recs.drop_last());
        lemma_row_amount_nonnegative(source, account, recs.last());
        let rest = map_rows_spec(source, account, recs.drop_last());
        let all = map_rows_spec(source, account, recs);
        assert forall|i: int| 0 <= i < all.len() implies all[i].amount >= 0 by {
            match source_row_spec(source, account, recs.last()) {
                Some(t) => {
                    if i < rest.len() {
                        assert(all[i] == rest[i]);
                    } else {
                        assert(all[i] == t);
                    }
                },
                None => {
                    assert(all[i] == rest[i]);
                },
            }
        }
    }
}

/// An Alipay-style record whose direction tag is neither the income nor the
/// expense marker is dropped, whatever its other fields hold.
pub proof fn lemma_unknown_tag_dropped(account: Seq<char>, rec: Seq<Seq<char>>)
    requires
        rec.len() > 15,
        rec[15] != "已收入"@,
        rec[15] != "已支出"@,
    ensures
        wallet_c_row(rec, account) is None,
{
}

} // verus!
