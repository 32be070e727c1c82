//! The digest under which a password travels to the service.

use vstd::prelude::*;
use vstd::string::*;
use vstd::slice::*;

verus! {

/// The MD5 digest of a sequence of bytes, sixteen bytes long.
pub uninterp spec fn md5_of(data: Seq<u8>) -> Seq<u8>;

/// `md5::compute`: the digest depends on the bytes alone.
#[verifier::external_body]
pub(crate) fn md5_digest(data: &[u8]) -> (r: [u8; 16])
    ensures
        r@ == md5_of(data@),
{
    md5::compute(data).0
}

/// The hexadecimal digit for a number below sixteen, in lower case.
pub open spec fn hex_digit(n: int) -> char {
    "0123456789abcdef"@[n]
}

/// Bytes in hexadecimal: two digits in lower case for each byte, the high
/// half first.
pub open spec fn hex_text(bytes: Seq<u8>) -> Seq<char>
    decreases bytes.len(),
{
    if bytes.len() == 0 {
        Seq::empty()
    } else {
        hex_text(bytes.drop_last()) + seq![
            hex_digit(bytes.last() as int / 16),
            hex_digit(bytes.last() as int % 16),
        ]
    }
}

/// The digest of a text in hexadecimal: that of its UTF-8 bytes.
pub open spec fn md5_hex_text(text: Seq<char>) -> Seq<char> {
    hex_text(md5_of(vstd::utf8::encode_utf8(text)))
}

/// Every byte becomes two digits.
pub proof fn lemma_hex_text_len(bytes: Seq<u8>)
    ensures
        hex_text(bytes).len() == 2 * bytes.len(),
    decreases bytes.len(),
{
    if bytes.len() > 0 {
        lemma_hex_text_len(bytes.drop_last());
    }
}

/// Bytes in hexadecimal.
pub fn to_hex(bytes: &[u8]) -> (r: String)
    ensures
        r@ == hex_text(bytes@),
{
    let digits = "0123456789abcdef";
    proof {
        reveal_strlit("0123456789abcdef");
    }
    let mut out = String::new();
    let mut i: usize = 0;
    while i < bytes.len()
        invariant
            i <= bytes.len(),
            digits@ == "0123456789abcdef"@,
            digits@.len() == 16,
            out@ == hex_text(bytes@.subrange(0, i as int)),
        decreases bytes.len() - i,
    {
        let byte: u8 = bytes[i];
        let high: usize = (byte / 16) as usize;
        let low: usize = (byte % 16) as usize;
        let high_digit = digits.substring_char(high, high + 1);
        let low_digit = digits.substring_char(low, low + 1);
        proof {
            let next = bytes@.subrange(0, i + 1);
            assert(next.drop_last() =~= bytes@.subrange(0, i as int));
            assert(high_digit@ + low_digit@ =~= seq![
                hex_digit(byte as int / 16),
                hex_digit(byte as int % 16),
            ]);
        }
        out.append(high_digit);
        out.append(low_digit);
        i = i + 1;
    }
    assert(bytes@.subrange(0, i as int) =~= bytes@);
    out
}

/// The MD5 digest of a text, in hexadecimal.
pub fn md5_hex(text: &str) -> (r: String)
    ensures
        r@ == md5_hex_text(text@),
        r@.len() == 32,
{
    let digest = md5_digest(text.as_bytes());
    proof {
        lemma_hex_text_len(digest@);
    }
    to_hex(digest.as_slice())
}

} // verus!
