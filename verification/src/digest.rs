//! Favourite identifiers: the MD5 digest of a favourite's origin, written
//! as lowercase hexadecimal (what `{:?}` prints for an `md5::Digest`).

use vstd::prelude::*;
use vstd::string::*;

verus! {

/// The MD5 digest of the UTF-8 encoding of `text`.
pub uninterp spec fn md5_digest_of(text: Seq<char>) -> Seq<u8>;

/// Calls `md5::compute` on the UTF-8 bytes of `text` and hands back the 16
/// bytes of the digest. The contract claims that the bytes are those of
/// `md5_digest_of(text)`, a value of the text alone, and that there are 16
/// of them (`md5::Digest` wraps a `[u8; 16]`); what MD5 computes is not
/// stated.
#[verifier::external_body]
fn md5_digest(text: &str) -> (r: Vec<u8>)
    ensures
        r@ == md5_digest_of(text@),
        r@.len() == 16,
{
    md5::compute(text.as_bytes()).0.to_vec()
}

/// The lowercase hexadecimal digit for `d` (`0 <= d < 16`).
pub open spec fn hex_digit(d: int) -> char {
    "0123456789abcdef"@[d]
}

/// Each byte of `b` as two lowercase hexadecimal digits, high nibble first
/// (the `{:02x}` format of every byte).
pub open spec fn hex_lower(b: Seq<u8>) -> Seq<char>
    decreases b.len(),
{
    if b.len() == 0 {
        Seq::empty()
    } else {
        seq![hex_digit((b[0] / 16) as int), hex_digit((b[0] % 16) as int)] + hex_lower(b.drop_first())
    }
}

/// The identifier of a favourite whose origin is `text`.
pub open spec fn md5_id(text: Seq<char>) -> Seq<char> {
    hex_lower(md5_digest_of(text))
}

/// Whether `c` is a lowercase hexadecimal digit.
pub open spec fn is_lower_hex(c: char) -> bool {
    ('0' <= c && c <= '9') || ('a' <= c && c <= 'f')
}

/// The hexadecimal text of `b` has two digits per byte, each a lowercase
/// hexadecimal digit.
pub proof fn lemma_hex_lower_shape(b: Seq<u8>)
    ensures
        hex_lower(b).len() == 2 * b.len(),
        forall|i: int| 0 <= i < hex_lower(b).len() ==> is_lower_hex(#[trigger] hex_lower(b)[i]),
    decreases b.len(),
{
    reveal_strlit("0123456789abcdef");
    if b.len() > 0 {
        lemma_hex_lower_shape(b.drop_first());
        let h = hex_lower(b);
        let t = hex_lower(b.drop_first());
        assert forall|i: int| 0 <= i < h.len() implies is_lower_hex(#[trigger] h[i]) by {
            if i >= 2 {
                assert(h[i] == t[i - 2]);
            } else {
                let d = if i == 0 { b[0] / 16 } else { b[0] % 16 };
                assert(0 <= d < 16);
                assert(h[i] == hex_digit(d as int));
            }
        }
    }
}

/// Each byte of `b` as two lowercase hexadecimal digits.
pub fn to_hex_lower(b: &Vec<u8>) -> (r: String)
    ensures
        r@ == hex_lower(b@),
{
    let table = "0123456789abcdef";
    proof {
        reveal_strlit("0123456789abcdef");
    }
    let n = b.len();
    let mut r = String::new();
    let mut i: usize = 0;
    assert(b@.skip(0) =~= b@);
    while i < n
        invariant
            n == b@.len(),
            i <= n,
            table@ == "0123456789abcdef"@,
            table@.len() == 16,
            hex_lower(b@) == r@ + hex_lower(b@.skip(i as int)),
        decreases n - i,
    {
        let byte = b[i];
        let hi = (byte / 16) as usize;
        let lo = (byte % 16) as usize;
        let ghost old_r = r@;
        r.append(table.substring_char(hi, hi + 1));
        r.append(table.substring_char(lo, lo + 1));
        proof {
            let rest = b@.skip(i as int);
            assert(rest[0] == byte);
            assert(rest.drop_first() =~= b@.skip(i + 1));
            assert(table@.subrange(hi as int, hi + 1) =~= seq![hex_digit(hi as int)]);
            assert(table@.subrange(lo as int, lo + 1) =~= seq![hex_digit(lo as int)]);
            assert(old_r + seq![hex_digit(hi as int)] + seq![hex_digit(lo as int)] + hex_lower(
                b@.skip(i + 1),
            ) =~= old_r + hex_lower(rest));
        }
        i = i + 1;
    }
    assert(b@.skip(n as int).len() == 0);
    assert(r@ + hex_lower(b@.skip(n as int)) =~= r@);
    r
}

/// The identifier of a favourite whose origin is `text`: its MD5 digest in
/// lowercase hexadecimal.
pub fn md5_hex(text: &str) -> (r: String)
    ensures
        r@ == md5_id(text@),
        r@.len() == 32,
        forall|i: int| 0 <= i < r@.len() ==> is_lower_hex(#[trigger] r@[i]),
{
    let d = md5_digest(text);
    proof {
        lemma_hex_lower_shape(d@);
    }
    to_hex_lower(&d)
}

} // verus!
