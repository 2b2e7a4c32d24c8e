//! The functions of `edhex_core` that the editor calls, each with the
//! contract that the rest of the library relies on. Nothing here is proved:
//! every contract states what the function's source shows.

use vstd::prelude::*;
use crate::hex::{bytes_of_pairs, hex_text, index_text, is_hex_pairs};
use crate::search::occurs_at;

verus! {

/// The number of extended grapheme clusters of a text, as the Unicode
/// text segmentation rules count them.
pub uninterp spec fn grapheme_count(text: Seq<char>) -> nat;

/// `edhex_core::num_graphemes`: counts the extended grapheme clusters of
/// `text`. The contract gives the count its name and says no more of it.
#[verifier::external_body]
pub(crate) fn num_graphemes(text: &str) -> (count: usize)
    ensures
        count == grapheme_count(text@),
{
    edhex_core::num_graphemes(text)
}

/// `edhex_core::bytes_from_string`: accepts a text made of pairs of hex
/// digits with spaces around the pairs, and returns one byte for each pair,
/// the first digit being the upper half. Any other text is refused; the
/// message that comes with the refusal is dropped here.
#[verifier::external_body]
pub(crate) fn bytes_from_string(text: &str) -> (r: Option<Vec<u8>>)
    ensures
        r is Some <==> is_hex_pairs(text@),
        r matches Some(bytes) ==> bytes@ == bytes_of_pairs(text@),
{
    edhex_core::bytes_from_string(text).ok()
}

/// `edhex_core::string_from_bytes`: writes each byte as two lower-case hex
/// digits and joins them with nothing between.
#[verifier::external_body]
pub(crate) fn string_from_bytes(bytes: &Vec<u8>) -> (r: String)
    ensures
        r@ == hex_text(bytes@),
{
    edhex_core::string_from_bytes(bytes)
}

/// `edhex_core::hex_unless_dec`: writes `number` in decimal where `radix`
/// is 10 and in lower-case hex for any other radix, without a prefix.
#[verifier::external_body]
pub(crate) fn hex_unless_dec(number: usize, radix: u32) -> (r: String)
    ensures
        r@ == index_text(number, radix),
{
    edhex_core::hex_unless_dec(number, radix)
}

/// `edhex_core::index_of_bytes`: where `needle` occurs in `haystack`, the
/// first place when `forward` and the last when not. An empty needle occurs
/// nowhere.
#[verifier::external_body]
pub(crate) fn index_of_bytes(needle: &Vec<u8>, haystack: &[u8], forward: bool) -> (r: Option<
    usize,
>)
    ensures
        r matches Some(at) ==> occurs_at(haystack@, needle@, at as int),
        r matches Some(at) ==> forall|other: int|
            occurs_at(haystack@, needle@, other) ==> if forward {
                at <= other
            } else {
                other <= at
            },
        r is None ==> forall|other: int| !occurs_at(haystack@, needle@, other),
{
    edhex_core::index_of_bytes(needle, haystack, forward)
}

/// `edhex_core::bad_range`: whether `bytes` is empty or `range.1` lies past
/// its last byte. `range.0` is not looked at.
#[verifier::external_body]
pub(crate) fn bad_range(bytes: &Vec<u8>, range: (usize, usize)) -> (bad: bool)
    ensures
        bad == (bytes.len() == 0 || range.1 >= bytes.len()),
{
    edhex_core::bad_range(bytes, range)
}

} // verus!
