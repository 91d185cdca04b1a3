use vstd::prelude::*;

use sha2::Digest;
use vstd::string::StrSliceExecFns;
use vstd::string::StringExecFns;

verus! {

/// The SHA-256 digest of a byte sequence, as `sha2::Sha256` computes it.
pub uninterp spec fn sha256_digest(data: Seq<u8>) -> Seq<u8>;

/// Calls `sha2::Sha256::digest` (via the `Digest` trait). The digest is a function
/// of the input alone, named `sha256_digest`; SHA-256 always yields 32 bytes.
#[verifier::external_body]
fn sha256(data: &[u8]) -> (res: Vec<u8>)
    ensures
        res@ == sha256_digest(data@),
        res@.len() == 32,
{
    <sha2::Sha256 as Digest>::digest(data).to_vec()
}

/// The lowercase hexadecimal digit for a value below 16.
pub open spec fn hex_digit(n: u8) -> char {
    if n < 10 {
        (('0' as u8) + n) as char
    } else {
        (('a' as u8) + (n - 10)) as char
    }
}

/// Lowercase hexadecimal: two digits per byte, high nibble first.
pub open spec fn hex_lower(data: Seq<u8>) -> Seq<char>
    decreases data.len(),
{
    if data.len() == 0 {
        Seq::empty()
    } else {
        seq![hex_digit(data[0] / 16), hex_digit(data[0] % 16)] + hex_lower(data.drop_first())
    }
}

/// A hexadecimal rendering is exactly twice as long as its input.
pub proof fn lemma_hex_lower_len(data: Seq<u8>)
    ensures
        hex_lower(data).len() == 2 * data.len(),
    decreases data.len(),
{
    if data.len() > 0 {
        lemma_hex_lower_len(data.drop_first());
    }
}

/// Every character of a hexadecimal rendering is one of `0-9a-f`.
pub proof fn lemma_hex_lower_digits(data: Seq<u8>)
    ensures
        forall|i: int|
            0 <= i < hex_lower(data).len() ==> ('0' <= #[trigger] hex_lower(data)[i] <= '9'
                || 'a' <= hex_lower(data)[i] <= 'f'),
    decreases data.len(),
{
    if data.len() > 0 {
        lemma_hex_lower_digits(data.drop_first());
        let rest = hex_lower(data.drop_first());
        let head = seq![hex_digit(data[0] / 16), hex_digit(data[0] % 16)];
        assert forall|i: int| 0 <= i < hex_lower(data).len() implies ('0' <= #[trigger] hex_lower(
            data,
        )[i] <= '9' || 'a' <= hex_lower(data)[i] <= 'f') by {
            if i >= 2 {
                assert(hex_lower(data)[i] == rest[i - 2]);
            }
        }
    }
}

/// Encodes bytes as lowercase hexadecimal, as `hex::encode` does.
pub fn hex_encode(data: &[u8]) -> (res: String)
    ensures
        res@ == hex_lower(data@),
{
    let digits: &str = "0123456789abcdef";
    proof {
        reveal_strlit("0123456789abcdef");
    }
    assert(digits.is_ascii());
    assert forall|k: int| 0 <= k < 16 implies #[trigger] digits@[k] == hex_digit(k as u8) by {
        assert(k == 0 || k == 1 || k == 2 || k == 3 || k == 4 || k == 5 || k == 6 || k == 7
            || k == 8 || k == 9 || k == 10 || k == 11 || k == 12 || k == 13 || k == 14 || k == 15);
    }
    let mut res = String::new();
    let n = data.len();
    assert(data@.skip(0) =~= data@);
    for i in 0..n
        invariant
            n == data@.len(),
            forall|k: int| 0 <= k < 16 ==> #[trigger] digits@[k] == hex_digit(k as u8),
            digits.is_ascii(),
            digits@.len() == 16,
            hex_lower(data@) == res@ + hex_lower(data@.skip(i as int)),
    {
        let b = data[i];
        let hi = (b / 16) as usize;
        let lo = (b % 16) as usize;
        let hs = digits.substring_ascii(hi, hi + 1);
        let ls = digits.substring_ascii(lo, lo + 1);
        assert(hs@ =~= seq![hex_digit(b / 16)]);
        assert(ls@ =~= seq![hex_digit(b % 16)]);
        let ghost before = res@;
        res.append(hs);
        res.append(ls);
        assert(data@.skip(i as int).drop_first() =~= data@.skip(i + 1));
        assert(res@ + hex_lower(data@.skip(i + 1)) =~= before + hex_lower(data@.skip(i as int)));
    }
    assert(data@.skip(n as int) =~= Seq::<u8>::empty());
    assert(res@ =~= res@ + hex_lower(data@.skip(n as int)));
    res
}

/// The stored form of a token: the lowercase hexadecimal SHA-256 of its UTF-8 bytes.
pub open spec fn token_digest(input: Seq<char>) -> Seq<char> {
    hex_lower(sha256_digest(vstd::utf8::encode_utf8(input)))
}

/// Hashes a string with SHA-256 and renders the digest as 64 lowercase hexadecimal digits.
pub fn sha256_hex(input: &str) -> (res: String)
    ensures
        res@ == token_digest(input@),
        res@.len() == 64,
        forall|i: int| 0 <= i < 64 ==> ('0' <= #[trigger] res@[i] <= '9' || 'a' <= res@[i] <= 'f'),
{
    let digest = sha256(input.as_bytes());
    proof {
        lemma_hex_lower_len(digest@);
        lemma_hex_lower_digits(digest@);
    }
    hex_encode(digest.as_slice())
}

} // verus!
