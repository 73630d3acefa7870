//! Content addressing.
//!
//! An address is the lower-case hexadecimal rendering of the SHA2-256
//! multihash of a value's canonical serialization.  The digest itself comes
//! from the `multihash` crate; everything around it — hexadecimal encoding,
//! byte/character conversions — is verified here.

use vstd::prelude::*;

verus! {

/// An address names a unit of content: the hex rendering of the digest of
/// the content's canonical serialization.
pub type Address = String;

/// What `multihash::encode` returns for SHA2-256 on the given input bytes:
/// a digest determined by the input alone.
pub uninterp spec fn multihash_sha2_256_of(input: Seq<u8>) -> Seq<u8>;

/// Relies on `multihash::encode` with `multihash::Hash::SHA2256`: the result
/// is a 34-byte multihash (a two-byte code/length prefix, then the SHA2-256
/// digest), a function of the input bytes alone; SHA2-256 is a supported
/// algorithm, so the call never fails.
#[verifier::external_body]
pub fn multihash_sha2_256(input: &Vec<u8>) -> (r: Vec<u8>)
    ensures
        r@ == multihash_sha2_256_of(input@),
        r@.len() == 34,
{
    multihash::encode(multihash::Hash::SHA2256, input.as_slice()).expect("sha2-256 is supported")
}

/// The byte of the lower-case hexadecimal digit for a value below 16.
pub open spec fn hex_digit(n: u8) -> u8 {
    if n < 10 {
        (0x30 + n) as u8
    } else {
        (0x57 + n) as u8
    }
}

/// The lower-case hexadecimal rendering of a byte sequence, two digits per
/// byte, high nibble first.
pub open spec fn hex_bytes_of(bs: Seq<u8>) -> Seq<u8> {
    Seq::new(
        bs.len() * 2,
        |i: int|
            if i % 2 == 0 {
                hex_digit(bs[i / 2] / 16)
            } else {
                hex_digit(bs[i / 2] % 16)
            },
    )
}

/// The characters with the code points of the given bytes; meaningful when
/// every byte is below 128.
pub open spec fn ascii_chars_of(bs: Seq<u8>) -> Seq<char> {
    Seq::new(bs.len(), |i: int| bs[i] as char)
}

/// Whether every byte of the sequence is an ASCII code point.
pub open spec fn all_ascii_bytes(bs: Seq<u8>) -> bool {
    forall|i: int| 0 <= i < bs.len() ==> bs[i] < 128
}

/// Relies on `String::from_utf8`: ASCII bytes are valid UTF-8 and decode to
/// exactly the characters with those code points.
#[verifier::external_body]
pub fn string_from_ascii(bytes: Vec<u8>) -> (r: String)
    requires
        all_ascii_bytes(bytes@),
    ensures
        r@ == ascii_chars_of(bytes@),
        r.is_ascii(),
{
    String::from_utf8(bytes).expect("ASCII bytes are valid UTF-8")
}

/// Render bytes as lower-case hexadecimal digits (still as bytes).
pub fn to_hex_bytes(bs: &Vec<u8>) -> (r: Vec<u8>)
    ensures
        r@ == hex_bytes_of(bs@),
        all_ascii_bytes(r@),
{
    let mut out: Vec<u8> = Vec::new();
    let mut i: usize = 0;
    while i < bs.len()
        invariant
            i <= bs.len(),
            out@ == hex_bytes_of(bs@.subrange(0, i as int)),
            all_ascii_bytes(out@),
        decreases bs.len() - i,
    {
        let b = bs[i];
        out.push(if b / 16 < 10 {
            0x30 + b / 16
        } else {
            0x57 + b / 16
        });
        out.push(if b % 16 < 10 {
            0x30 + b % 16
        } else {
            0x57 + b % 16
        });
        proof {
            assert(out@ =~= hex_bytes_of(bs@.subrange(0, i + 1 as int)));
        }
        i = i + 1;
    }
    proof {
        assert(bs@.subrange(0, bs@.len() as int) =~= bs@);
    }
    out
}

/// The address text for content whose canonical serialization is `canon`.
pub open spec fn address_text_of(canon: Seq<u8>) -> Seq<char> {
    ascii_chars_of(hex_bytes_of(multihash_sha2_256_of(canon)))
}

/// The address of content with the given canonical serialization.
pub fn address_for_bytes(canon: &Vec<u8>) -> (a: Address)
    ensures
        a@ == address_text_of(canon@),
{
    let digest = multihash_sha2_256(canon);
    let hex = to_hex_bytes(&digest);
    string_from_ascii(hex)
}

/// The UTF-8 bytes of a character sequence.
pub open spec fn utf8_of(s: Seq<char>) -> Seq<u8> {
    vstd::utf8::encode_utf8(s)
}

/// Append a slice of bytes to a vector.
pub fn append_bytes(out: &mut Vec<u8>, other: &[u8])
    ensures
        final(out)@ == old(out)@ + other@,
{
    let mut i: usize = 0;
    while i < other.len()
        invariant
            i <= other@.len(),
            out@ == old(out)@ + other@.subrange(0, i as int),
        decreases other@.len() - i,
    {
        out.push(other[i]);
        proof {
            assert(out@ =~= old(out)@ + other@.subrange(0, (i + 1) as int));
        }
        i = i + 1;
    }
    proof {
        assert(other@.subrange(0, other@.len() as int) =~= other@);
    }
}

/// The big-endian eight-byte rendering of a 64-bit value.
pub open spec fn be64_of(n: u64) -> Seq<u8> {
    seq![
        (n / 0x100000000000000 % 256) as u8,
        (n / 0x1000000000000 % 256) as u8,
        (n / 0x10000000000 % 256) as u8,
        (n / 0x100000000 % 256) as u8,
        (n / 0x1000000 % 256) as u8,
        (n / 0x10000 % 256) as u8,
        (n / 0x100 % 256) as u8,
        (n % 256) as u8,
    ]
}

/// Append the big-endian eight-byte rendering of `n` to `out`.
pub fn push_be64(out: &mut Vec<u8>, n: u64)
    ensures
        final(out)@ == old(out)@ + be64_of(n),
{
    out.push((n / 0x100000000000000 % 256) as u8);
    out.push((n / 0x1000000000000 % 256) as u8);
    out.push((n / 0x10000000000 % 256) as u8);
    out.push((n / 0x100000000 % 256) as u8);
    out.push((n / 0x1000000 % 256) as u8);
    out.push((n / 0x10000 % 256) as u8);
    out.push((n / 0x100 % 256) as u8);
    out.push((n % 256) as u8);
    proof {
        assert(out@ =~= old(out)@ + be64_of(n));
    }
}

/// Whether every byte of the vector is an ASCII code point.
pub fn bytes_are_ascii(bytes: &Vec<u8>) -> (r: bool)
    ensures
        r == all_ascii_bytes(bytes@),
{
    let mut i: usize = 0;
    while i < bytes.len()
        invariant
            i <= bytes@.len(),
            forall|j: int| 0 <= j < i ==> bytes@[j] < 128,
        decreases bytes@.len() - i,
    {
        if bytes[i] >= 128 {
            return false;
        }
        i = i + 1;
    }
    true
}

/// Whether a string holds exactly the given text.
pub fn text_eq(a: &String, b: &str) -> (r: bool)
    ensures
        r == (a@ == b@),
{
    let owned: String = b.to_owned();
    *a == owned
}

/// A length-prefixed byte string: eight length bytes, then the bytes.
pub open spec fn canon_str(bs: Seq<u8>) -> Seq<u8> {
    be64_of(bs.len() as u64) + bs
}

/// Append the canonical (length-prefixed) form of a string's UTF-8 bytes.
pub fn append_canon_str(out: &mut Vec<u8>, s: &String)
    ensures
        final(out)@ == old(out)@ + canon_str(utf8_of(s@)),
{
    let bytes: &[u8] = s.as_str().as_bytes();
    push_be64(out, bytes.len() as u64);
    append_bytes(out, bytes);
    proof {
        assert(out@ =~= old(out)@ + canon_str(utf8_of(s@)));
    }
}

} // verus!

