//! Lossy UTF-8 decoding of output chunks, as the relay applies it to every
//! chunk a sidecar writes: malformed bytes never stop the relay, they are
//! replaced by a placeholder character.

use vstd::prelude::*;

verus! {

/// The character sequence that lossy UTF-8 decoding yields for a given byte
/// sequence: valid UTF-8 runs decode to their scalar values, and each
/// ill-formed run is replaced by the replacement character. The value is a
/// function of the bytes alone; contracts refer to it by this name.
pub uninterp spec fn lossy_decode(bytes: Seq<u8>) -> Seq<char>;

/// Relies on `String::from_utf8_lossy` of std: its result depends on the
/// bytes alone; an empty input yields an empty string; ASCII bytes are valid
/// UTF-8, so they decode to exactly those characters.
#[verifier::external_body]
pub(crate) fn lossy_string(bytes: &[u8]) -> (r: String)
    ensures
        r@ == lossy_decode(bytes@),
        bytes@.len() == 0 ==> r@.len() == 0,
        (forall|i: int| 0 <= i < bytes@.len() ==> bytes@[i] < 128) ==> r@ == bytes@.map_values(
            |b: u8| b as char,
        ),
{
    String::from_utf8_lossy(bytes).into_owned()
}

} // verus!
