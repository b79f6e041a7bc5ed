use vstd::prelude::*;
use vstd::utf8::{decode_utf8, valid_utf8, encode_utf8};
use crate::shell::{Platform, ShellFamily};
use crate::text::chars_of;

verus! {

/// What `String::from_utf8_lossy` makes of bytes that are not valid UTF-8.
pub uninterp spec fn utf8_lossy(b: Seq<u8>) -> Seq<char>;

/// What decoding as GBK yields: the text, and whether malformed sequences were replaced.
pub uninterp spec fn gbk_decoding(b: Seq<u8>) -> (Seq<char>, bool);

/// What decoding as Big5 yields: the text, and whether malformed sequences were replaced.
pub uninterp spec fn big5_decoding(b: Seq<u8>) -> (Seq<char>, bool);

/// What decoding as Windows-1252 yields.
pub uninterp spec fn windows_1252_decoding(b: Seq<u8>) -> Seq<char>;

/// Lossy UTF-8 decoding: exact on valid input, replacement characters elsewhere.
pub open spec fn lossy_text(b: Seq<u8>) -> Seq<char> {
    if valid_utf8(b) {
        decode_utf8(b)
    } else {
        utf8_lossy(b)
    }
}

/// Relies on std::str::from_utf8: it succeeds exactly on valid UTF-8 and then
/// yields the encoded characters.
#[verifier::external_body]
fn strict_utf8(b: &[u8]) -> (r: Option<String>)
    ensures
        r is Some <==> valid_utf8(b@),
        r is Some ==> r->0@ == decode_utf8(b@),
{
    std::str::from_utf8(b).ok().map(|s| s.to_string())
}

/// Relies on String::from_utf8_lossy: valid UTF-8 is decoded as it stands,
/// invalid sequences become replacement characters.
#[verifier::external_body]
pub(crate) fn lossy_utf8(b: &[u8]) -> (r: String)
    ensures
        r@ == (if valid_utf8(b@) {
            decode_utf8(b@)
        } else {
            utf8_lossy(b@)
        }),
{
    String::from_utf8_lossy(b).into_owned()
}

/// Relies on encoding_rs::GBK.decode: the decoded text and its error flag.
#[verifier::external_body]
fn decode_gbk(b: &[u8]) -> (r: (String, bool))
    ensures
        (r.0@, r.1) == gbk_decoding(b@),
{
    let (text, _, had_errors) = encoding_rs::GBK.decode(b);
    (text.into_owned(), had_errors)
}

/// Relies on encoding_rs::BIG5.decode: the decoded text and its error flag.
#[verifier::external_body]
fn decode_big5(b: &[u8]) -> (r: (String, bool))
    ensures
        (r.0@, r.1) == big5_decoding(b@),
{
    let (text, _, had_errors) = encoding_rs::BIG5.decode(b);
    (text.into_owned(), had_errors)
}

/// Relies on encoding_rs::WINDOWS_1252.decode: the decoded text.
#[verifier::external_body]
fn decode_windows_1252(b: &[u8]) -> (r: String)
    ensures
        r@ == windows_1252_decoding(b@),
{
    let (text, _, _) = encoding_rs::WINDOWS_1252.decode(b);
    text.into_owned()
}

/// A control character that is not whitespace: a sign of a wrong decoding.
pub open spec fn is_stray_control(c: char) -> bool {
    let n = c as u32;
    n <= 0x08 || (0x0E <= n && n <= 0x1F) || (0x7F <= n && n <= 0x84) || (0x86 <= n && n
        <= 0x9F)
}

/// No stray control character anywhere in the text.
pub open spec fn looks_clean(t: Seq<char>) -> bool {
    forall|i: int| 0 <= i < t.len() ==> !is_stray_control(#[trigger] t[i])
}

/// A candidate decoding is accepted when it had no errors and looks clean.
pub open spec fn accepted(d: (Seq<char>, bool)) -> bool {
    !d.1 && looks_clean(d.0)
}

/// The text that output bytes of a shell of this family stand for.
pub open spec fn decoded_text(b: Seq<u8>, family: ShellFamily, platform: Platform) -> Seq<char> {
    if b.len() == 0 {
        Seq::empty()
    } else if platform == Platform::Windows && family.is_console() {
        if valid_utf8(b) {
            decode_utf8(b)
        } else if accepted(gbk_decoding(b)) {
            gbk_decoding(b).0
        } else if accepted(big5_decoding(b)) {
            big5_decoding(b).0
        } else {
            windows_1252_decoding(b)
        }
    } else {
        lossy_text(b)
    }
}

/// Whether a character is a control character other than whitespace.
pub fn stray_control(c: char) -> (r: bool)
    ensures
        r == is_stray_control(c),
{
    let n = c as u32;
    n <= 0x08 || (0x0E <= n && n <= 0x1F) || (0x7F <= n && n <= 0x84) || (0x86 <= n && n <= 0x9F)
}

/// Whether no character of the text is a stray control character.
pub fn clean_text(t: &str) -> (r: bool)
    ensures
        r == looks_clean(t@),
{
    let v = chars_of(t);
    let mut i: usize = 0;
    while i < v.len()
        invariant
            v@ == t@,
            i <= v.len(),
            forall|j: int| 0 <= j < i ==> !is_stray_control(#[trigger] v@[j]),
        decreases v.len() - i,
    {
        if stray_control(v[i]) {
            return false;
        }
        i += 1;
    }
    true
}

/// Decodes the output of a shell of the given family into text.
///
/// Console shells of Windows are tried as UTF-8 first, then as GBK, Big5 and
/// Windows-1252 in that order; the first candidate without errors and without
/// stray control characters wins, and Windows-1252 is the last resort. Every
/// other case is decoded as UTF-8 with replacement of invalid sequences.
pub fn decode(bytes: &[u8], family: ShellFamily, platform: Platform) -> (r: String)
    ensures
        r@ == decoded_text(bytes@, family, platform),
{
    if bytes.len() == 0 {
        return String::new();
    }
    if platform == Platform::Windows && (family == ShellFamily::Cmd || family
        == ShellFamily::PowerShell) {
        if let Some(text) = strict_utf8(bytes) {
            return text;
        }
        let (gbk, gbk_errors) = decode_gbk(bytes);
        if !gbk_errors && clean_text(gbk.as_str()) {
            return gbk;
        }
        let (big5, big5_errors) = decode_big5(bytes);
        if !big5_errors && clean_text(big5.as_str()) {
            return big5;
        }
        return decode_windows_1252(bytes);
    }
    lossy_utf8(bytes)
}

/// Empty output decodes to empty text, whatever the shell.
pub proof fn lemma_empty_decodes_empty(family: ShellFamily, platform: Platform)
    ensures
        decoded_text(Seq::empty(), family, platform) == Seq::<char>::empty(),
{
}

/// Text that a shell wrote as UTF-8 decodes back to the same text, for every
/// shell family and platform.
pub proof fn lemma_utf8_round_trip(text: Seq<char>, family: ShellFamily, platform: Platform)
    ensures
        decoded_text(encode_utf8(text), family, platform) == text,
{
    vstd::utf8::encode_utf8_valid_utf8(text);
    vstd::utf8::encode_utf8_decode_utf8(text);
    if text.len() == 0 {
        assert(encode_utf8(text).len() == 0) by {
            reveal_with_fuel(encode_utf8, 1);
        }
    }
}

/// Among legacy candidates that all decode cleanly, the first in the order
/// GBK, Big5, Windows-1252 is chosen.
pub proof fn lemma_first_clean_candidate_wins(b: Seq<u8>, family: ShellFamily)
    requires
        family.is_console(),
        b.len() > 0,
        !valid_utf8(b),
    ensures
        accepted(gbk_decoding(b)) ==> decoded_text(b, family, Platform::Windows)
            == gbk_decoding(b).0,
        !accepted(gbk_decoding(b)) && accepted(big5_decoding(b)) ==> decoded_text(
            b,
            family,
            Platform::Windows,
        ) == big5_decoding(b).0,
        !accepted(gbk_decoding(b)) && !accepted(big5_decoding(b)) ==> decoded_text(
            b,
            family,
            Platform::Windows,
        ) == windows_1252_decoding(b),
{
}

} // verus!
