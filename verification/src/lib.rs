//! Ingestion of heterogeneous bank and e-wallet statement exports.
//!
//! Each supported institution exports delimited text in its own character
//! encoding, column layout, date format and sign convention. This library
//! normalizes such a file into a sequence of canonical [`Transaction`]
//! records: it resolves the byte encoding (detecting it when none is given),
//! decodes the bytes losslessly where possible and with replacement
//! characters where not, tokenizes the text into records of trimmed fields,
//! and maps each record through the configured source's row mapper.
use vstd::prelude::*;

pub mod amount;
pub mod dates;
pub mod encodings;
pub mod entities;
pub mod error;
pub mod parser;
mod text;
pub mod tokenizer;

pub use entities::Transaction;
pub use error::Error;

use crate::encodings::{decode_with_label, decoded_text, detect_encoding, detect_spec};
use crate::entities::TransactionV;
use crate::error::ErrorV;
use crate::parser::{
    map_rows_spec, AlipayParser, CgbCreditParser, CmbDebitParser, RowMapper, WeChatPayParser,
};
use crate::tokenizer::{tokenize, tokenize_spec};

verus! {

/// The closed set of supported statement formats. Adding one means adding a
/// variant, a row mapper, and a registry entry — nothing else changes.
pub enum TransactionSource {
    /// The credit-card comma-separated export.
    CgbCredit,
    /// The debit-card export; its row mapping is not yet specified.
    CmbDebit,
    /// The Alipay-style e-wallet export.
    Alipay,
    /// The WeChat-style e-wallet export.
    WeChatPay,
}

/// What one import run needs to know: the statement's format, an optional
/// explicit encoding label (detection runs when it is absent), and the name
/// of the ledger account the statement belongs to.
pub struct ParserConfig {
    pub source: TransactionSource,
    pub encoding: Option<String>,
    pub account_name: String,
}

/// The configured encoding label, as a value.
pub open spec fn encoding_view(config: &ParserConfig) -> Option<Seq<char>> {
    match config.encoding {
        Some(l) => Some(l@),
        None => None,
    }
}

/// The encoding label an import resolves: the explicit one when the
/// configuration names one, otherwise whatever detection settles on.
pub open spec fn resolved_label(bytes: Seq<u8>, enc: Option<Seq<char>>) -> Result<
    Seq<char>,
    ErrorV,
> {
    match enc {
        Some(l) => Ok(l),
        None => detect_spec(bytes),
    }
}

/// What parsing a statement's bytes yields: the canonical transactions in
/// file order, or the first fatal failure — an unacceptable or unknown
/// encoding, a decoder error, or structural corruption of the text.
pub open spec fn parse_spec(
    bytes: Seq<u8>,
    source: TransactionSource,
    enc: Option<Seq<char>>,
    account: Seq<char>,
) -> Result<Seq<TransactionV>, ErrorV> {
    match resolved_label(bytes, enc) {
        Err(e) => Err(e),
        Ok(label) => match decoded_text(label, bytes) {
            None => Err(ErrorV::UnknownEncoding),
            Some(Err(m)) => Err(ErrorV::Decoding(m)),
            Some(Ok(text)) => match tokenize_spec(text) {
                Err(m) => Err(ErrorV::CsvError(m)),
                Ok(recs) => Ok(map_rows_spec(source, account, recs)),
            },
        },
    }
}

/// The registry: the row mapper of the configured source, carrying the
/// tracked account's name. A pure lookup with no further knowledge of the
/// formats.
pub fn get_parser(config: &ParserConfig) -> (r: RowMapper)
    ensures
        r.source() == config.source,
        r.account() == config.account_name@,
{
    let account_name = config.account_name.clone();
    match config.source {
        TransactionSource::CgbCredit => RowMapper::CgbCredit(CgbCreditParser { account_name }),
        TransactionSource::CmbDebit => RowMapper::CmbDebit(CmbDebitParser { account_name }),
        TransactionSource::Alipay => RowMapper::Alipay(AlipayParser { account_name }),
        TransactionSource::WeChatPay => RowMapper::WeChatPay(WeChatPayParser { account_name }),
    }
}

/// Parses one statement, read into memory as raw bytes, into canonical
/// transactions; exactly `parse_spec` on the bytes and configuration.
///
/// The debit-card format has no row mapping yet (its upstream semantics are
/// unspecified) and is excluded here; a caller holding such a configuration
/// must refuse it instead of calling. Automatic detection aborts upstream on
/// a buffer holding an escape byte, so it is only offered on escape-free
/// bytes; naming an encoding lifts that restriction.
pub fn parse(bytes: &Vec<u8>, config: &ParserConfig) -> (r: Result<Vec<Transaction>, Error>)
    requires
        !(config.source is CmbDebit),
        encoding_view(config) is Some || crate::encodings::esc_free(bytes@),
    ensures
        match parse_spec(bytes@, config.source, encoding_view(config), config.account_name@) {
            Ok(ts) => r matches Ok(v) && v.deep_view() == ts,
            Err(e) => r matches Err(err) && err@ == e,
        },
{
    let label: String = match &config.encoding {
        Some(l) => l.clone(),
        None => match detect_encoding(bytes) {
            Ok(l) => l,
            Err(e) => {
                return Err(e);
            },
        },
    };
    let text: Vec<char> = match decode_with_label(&label, bytes) {
        None => {
            return Err(Error::UnknownEncoding);
        },
        Some(Err(m)) => {
            return Err(Error::Decoding(m));
        },
        Some(Ok(t)) => t,
    };
    let records = match tokenize(&text) {
        Ok(rs) => rs,
        Err(e) => {
            return Err(e);
        },
    };
    let mapper = get_parser(config);
    Ok(mapper.map_rows(&records))
}

/// For every supported source, a file whose decoded records hold no
/// transaction of that source — a header- or footer-only export — parses to
/// an empty, non-error result.
pub proof fn lemma_empty_when_no_rows_map(
    bytes: Seq<u8>,
    source: TransactionSource,
    enc: Option<Seq<char>>,
    account: Seq<char>,
    label: Seq<char>,
    text: Seq<char>,
    recs: Seq<Seq<Seq<char>>>,
)
    requires
        resolved_label(bytes, enc) == Ok::<Seq<char>, ErrorV>(label),
        decoded_text(label, bytes) == Some(Ok::<Seq<char>, Seq<char>>(text)),
        tokenize_spec(text) == Ok::<Seq<Seq<Seq<char>>>, Seq<char>>(recs),
        forall|i: int|
            0 <= i < recs.len() ==> crate::parser::source_row_spec(
                source,
                account,
                #[trigger] recs[i],
            ) is None,
    ensures
        parse_spec(bytes, source, enc, account) == Ok::<Seq<TransactionV>, ErrorV>(Seq::empty()),
{
    crate::parser::lemma_no_transactions_empty(source, account, recs);
}

/// Parsing is deterministic: two outcomes of the same bytes and the same
/// configuration are identical, record for record and in the same order.
pub proof fn lemma_parse_deterministic(
    bytes: Seq<u8>,
    source: TransactionSource,
    enc: Option<Seq<char>>,
    account: Seq<char>,
    r1: Result<Seq<TransactionV>, ErrorV>,
    r2: Result<Seq<TransactionV>, ErrorV>,
)
    requires
        r1 == parse_spec(bytes, source, enc, account),
        r2 == parse_spec(bytes, source, enc, account),
    ensures
        r1 == r2,
{
}

} // verus!
