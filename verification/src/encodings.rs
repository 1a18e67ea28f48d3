//! Byte-encoding resolution: statistical detection behind a confidence threshold,
//! and lossy decoding of the raw bytes to text.
//!
//! Statement exports arrive in unknown encodings. When the caller names no
//! encoding, `chardet` guesses one from the bytes; a guess below the fixed
//! confidence threshold is refused rather than silently trusted, carrying the
//! best match for diagnostics. The accepted label — detected or explicit —
//! is then resolved through the WHATWG label registry, and the bytes are
//! decoded with a replacement character substituted for undecodable
//! sequences: slightly malformed bank exports must still yield usable text.
//!
//! One narrowing against the detector's nominal domain: a buffer holding an
//! escape byte (as the ISO-2022 family uses) can make the upstream detector
//! abort, so automatic detection is only offered on escape-free buffers
//! (`esc_free`); such files take an explicit encoding label instead.
use vstd::prelude::*;

use crate::error::{Error, ErrorV};

verus! {

/// The IEEE 754 binary32 bit pattern of the detection confidence threshold,
/// two tenths. Confidence scores lie in [0, 1], and for such non-negative
/// values the bit patterns order exactly as the values do, so the threshold
/// test is an integer comparison on the bits.
pub const CONFIDENCE_THRESHOLD_BITS: u32 = 0x3E4C_CCCD;

/// What detection reads off a byte buffer: its best charset guess and the
/// bit pattern of its confidence score.
pub uninterp spec fn detection_of(bytes: Seq<u8>) -> (Seq<char>, u32);

/// A buffer without an escape byte. `chardet::detect` aborts on a buffer
/// that holds an ESC (0x1B) among plain ASCII without completing a
/// recognized escape sequence, so detection is only offered on escape-free
/// input.
pub open spec fn esc_free(bytes: Seq<u8>) -> bool {
    forall|i: int| 0 <= i < bytes.len() ==> #[trigger] bytes[i] != 0x1b
}

/// Whether a buffer holds an escape byte, making it ineligible for
/// automatic encoding detection.
pub fn has_esc_byte(bytes: &Vec<u8>) -> (r: bool)
    ensures
        r == !esc_free(bytes@),
{
    let n = bytes.len();
    let mut i: usize = 0;
    while i < n
        invariant
            i <= n == bytes@.len(),
            forall|j: int| 0 <= j < i ==> #[trigger] bytes@[j] != 0x1b,
        decreases n - i,
    {
        if bytes[i] == 0x1b {
            return true;
        }
        i += 1;
    }
    false
}

/// Relies on `chardet::detect`: a statistical scan of the byte buffer whose
/// charset guess and confidence are functions of the bytes alone. The
/// confidence, an IEEE 754 binary32 in [0, 1], is handed out as its bit
/// pattern (`f32::to_bits`), under which such non-negative values order
/// exactly as the scores themselves. On a buffer holding an ESC byte among
/// plain ASCII the call can reach an `unreachable!`, so such buffers are
/// excluded.
#[verifier::external_body]
fn chardet_detect(bytes: &Vec<u8>) -> (r: (String, u32))
    requires
        esc_free(bytes@),
    ensures
        (r.0@, r.1) == detection_of(bytes@),
{
    let (charset, confidence, _language) = chardet::detect(bytes);
    (charset, confidence.to_bits())
}

/// The canonical encoding label of a detected charset name: three names are
/// rewritten, every other passes through.
pub open spec fn canonical_label(charset: Seq<char>) -> Seq<char> {
    if charset == "CP932"@ {
        "windows-31j"@
    } else if charset == "CP949"@ {
        "windows-949"@
    } else if charset == "MacCyrillic"@ {
        "x-mac-cyrillic"@
    } else {
        charset
    }
}

/// The canonical encoding label of a detected charset name; exactly
/// `canonical_label`. The upstream charset table (`chardet::charset2encoding`)
/// is nothing but these three renames, so the rename is stated and computed
/// here in verified code instead of behind a trusted call.
fn charset_to_label(charset: &String) -> (r: String)
    ensures
        r@ == canonical_label(charset@),
{
    if *charset == String::from_str("CP932") {
        String::from_str("windows-31j")
    } else if *charset == String::from_str("CP949") {
        String::from_str("windows-949")
    } else if *charset == String::from_str("MacCyrillic") {
        String::from_str("x-mac-cyrillic")
    } else {
        charset.clone()
    }
}

/// What decoding yields for an encoding label and a byte buffer: nothing
/// when the label names no decoder, otherwise the decoded text or the
/// decoder's error message.
pub uninterp spec fn decoded_text(label: Seq<char>, bytes: Seq<u8>) -> Option<
    Result<Seq<char>, Seq<char>>,
>;

/// Whether an executable decode result is the given mathematical one.
pub open spec fn decode_result_is(
    r: Option<Result<Vec<char>, String>>,
    d: Option<Result<Seq<char>, Seq<char>>>,
) -> bool {
    match (r, d) {
        (None, None) => true,
        (Some(Ok(v)), Some(Ok(t))) => v@ == t,
        (Some(Err(m)), Some(Err(t))) => m@ == t,
        _ => false,
    }
}

/// Relies on `encoding::label::encoding_from_whatwg_label` and
/// `encoding::types::Encoding::decode` with the replacement trap: the label
/// lookup implements the WHATWG "get an encoding" algorithm and yields no
/// decoder exactly for labels outside that registry, and decoding then
/// substitutes U+FFFD for undecodable sequences. Both results are functions
/// of the label and the bytes alone. The two calls share this wrapper
/// because the decoder between them is a `&'static dyn` trait object, which
/// cannot cross a verified signature.
#[verifier::external_body]
pub(crate) fn decode_with_label(label: &String, bytes: &Vec<u8>) -> (r: Option<
    Result<Vec<char>, String>,
>)
    ensures
        decode_result_is(r, decoded_text(label@, bytes@)),
{
    match encoding::label::encoding_from_whatwg_label(label) {
        None => None,
        Some(coder) => match coder.decode(bytes, encoding::types::DecoderTrap::Replace) {
            Ok(text) => Some(Ok(text.chars().collect())),
            Err(message) => Some(Err(message.to_string())),
        },
    }
}

/// What automatic detection resolves for a byte buffer: the canonical label
/// of the guess when the confidence reaches the threshold, and a refusal
/// carrying the guess when it does not.
pub open spec fn detect_spec(bytes: Seq<u8>) -> Result<Seq<char>, ErrorV> {
    let (charset, confidence_bits) = detection_of(bytes);
    if confidence_bits >= CONFIDENCE_THRESHOLD_BITS {
        Ok(canonical_label(charset))
    } else {
        Err(ErrorV::Encoding { best_match: charset })
    }
}

/// Detects the encoding of a byte buffer, refusing a guess whose confidence
/// falls below the threshold; exactly `detect_spec`.
pub fn detect_encoding(bytes: &Vec<u8>) -> (r: Result<String, Error>)
    requires
        esc_free(bytes@),
    ensures
        match detect_spec(bytes@) {
            Ok(l) => r matches Ok(s) && s@ == l,
            Err(e) => r matches Err(err) && err@ == e,
        },
{
    let (charset, confidence_bits) = chardet_detect(bytes);
    if confidence_bits < CONFIDENCE_THRESHOLD_BITS {
        Err(Error::Encoding { best_match: charset })
    } else {
        Ok(charset_to_label(&charset))
    }
}

/// The confidence threshold is inclusive: a detection whose confidence sits
/// exactly at the threshold is accepted, while one just below is refused
/// with the best match carried for diagnostics.
pub proof fn lemma_threshold_boundary(bytes: Seq<u8>)
    ensures
        detection_of(bytes).1 == CONFIDENCE_THRESHOLD_BITS ==> detect_spec(bytes) == Ok::<
            Seq<char>,
            ErrorV,
        >(canonical_label(detection_of(bytes).0)),
        detection_of(bytes).1 < CONFIDENCE_THRESHOLD_BITS ==> detect_spec(bytes) == Err::<
            Seq<char>,
            ErrorV,
        >(ErrorV::Encoding { best_match: detection_of(bytes).0 }),
{
}

} // verus!
