use vstd::prelude::*;
use vstd::utf8::{decode_utf8, valid_utf8};

verus! {

/// True when a zero byte occurs in `b`.
pub open spec fn has_nul(b: Seq<u8>) -> bool {
    exists|i: int| 0 <= i < b.len() && b[i] == 0
}

/// `b` followed by the zero byte that terminates it for the native side.
pub open spec fn terminated(b: Seq<u8>) -> Seq<u8> {
    b.push(0)
}

/// The characters that lossy decoding makes of `b`.
pub uninterp spec fn lossy_text(b: Seq<u8>) -> Seq<char>;

/// Relies on `String::from_utf8_lossy`: the text depends on the bytes alone,
/// and bytes that are valid UTF-8 decode to the characters they encode.
#[verifier::external_body]
pub(crate) fn decode_lossy(b: &[u8]) -> (r: String)
    ensures
        r@ == lossy_text(b@),
        valid_utf8(b@) ==> r@ == decode_utf8(b@),
{
    String::from_utf8_lossy(b).into_owned()
}

/// Marshals `b` into a zero-terminated byte string. There is none when `b`
/// itself holds a zero byte, since the native side would cut the text there.
pub fn c_text(b: &[u8]) -> (r: Option<Vec<u8>>)
    ensures
        r is None <==> has_nul(b@),
        r matches Some(t) ==> t@ == terminated(b@),
{
    let mut out: Vec<u8> = Vec::new();
    let mut i: usize = 0;
    while i < b.len()
        invariant
            i <= b@.len(),
            out@ == b@.subrange(0, i as int),
            forall|k: int| 0 <= k < i ==> b@[k] != 0,
        decreases b@.len() - i,
    {
        if b[i] == 0 {
            return None;
        }
        out.push(b[i]);
        i = i + 1;
    }
    assert(out@ == b@);
    out.push(0);
    Some(out)
}

} // verus!
