//! Byte-level codecs used to build candidate headers: the 8-byte big-endian
//! nonce encoding and the hex decoding of header fragments.

use vstd::prelude::*;
use vstd::string::StringSliceAdditionalSpecFns;

verus! {

/// The big-endian byte sequence of a 64-bit nonce, most significant byte first.
pub open spec fn nonce_bytes_of(n: u64) -> Seq<u8> {
    seq![
        (n >> 56) as u8,
        (n >> 48) as u8,
        (n >> 40) as u8,
        (n >> 32) as u8,
        (n >> 24) as u8,
        (n >> 16) as u8,
        (n >> 8) as u8,
        n as u8,
    ]
}

/// The 64-bit value read big-endian from the first eight bytes of a sequence.
pub open spec fn nonce_value_of(b: Seq<u8>) -> u64
    recommends
        b.len() >= 8,
{
    ((b[0] as u64) << 56) | ((b[1] as u64) << 48) | ((b[2] as u64) << 40) | ((b[3] as u64) << 32)
        | ((b[4] as u64) << 24) | ((b[5] as u64) << 16) | ((b[6] as u64) << 8) | (b[7] as u64)
}

/// Writes a nonce as eight big-endian bytes.
pub fn encode_nonce(n: u64) -> (r: [u8; 8])
    ensures
        r@ == nonce_bytes_of(n),
{
    let r: [u8; 8] = [
        (n >> 56) as u8,
        (n >> 48) as u8,
        (n >> 40) as u8,
        (n >> 32) as u8,
        (n >> 24) as u8,
        (n >> 16) as u8,
        (n >> 8) as u8,
        n as u8,
    ];
    proof {
        assert(r@ =~= nonce_bytes_of(n));
    }
    r
}

/// Reads a nonce back from its eight big-endian bytes.
pub fn decode_nonce(b: &[u8; 8]) -> (n: u64)
    ensures
        n == nonce_value_of(b@),
{
    ((b[0] as u64) << 56) | ((b[1] as u64) << 48) | ((b[2] as u64) << 40) | ((b[3] as u64) << 32)
        | ((b[4] as u64) << 24) | ((b[5] as u64) << 16) | ((b[6] as u64) << 8) | (b[7] as u64)
}

/// Encoding a nonce big-endian and reading the bytes back yields the nonce.
pub proof fn lemma_nonce_round_trip(n: u64)
    ensures
        nonce_value_of(nonce_bytes_of(n)) == n,
{
    let b0 = (n >> 56) as u8;
    let b1 = (n >> 48) as u8;
    let b2 = (n >> 40) as u8;
    let b3 = (n >> 32) as u8;
    let b4 = (n >> 24) as u8;
    let b5 = (n >> 16) as u8;
    let b6 = (n >> 8) as u8;
    let b7 = n as u8;
    assert(((b0 as u64) << 56) | ((b1 as u64) << 48) | ((b2 as u64) << 40) | ((b3 as u64) << 32)
        | ((b4 as u64) << 24) | ((b5 as u64) << 16) | ((b6 as u64) << 8) | (b7 as u64) == n)
        by (bit_vector)
        requires
            b0 == (n >> 56) as u8,
            b1 == (n >> 48) as u8,
            b2 == (n >> 40) as u8,
            b3 == (n >> 32) as u8,
            b4 == (n >> 24) as u8,
            b5 == (n >> 16) as u8,
            b6 == (n >> 8) as u8,
            b7 == n as u8,
    ;
}

/// Whether a byte is an ASCII hexadecimal digit.
pub open spec fn is_hex_digit(b: u8) -> bool {
    (48 <= b <= 57) || (65 <= b <= 70) || (97 <= b <= 102)
}

/// The numeric value of an ASCII hexadecimal digit.
pub open spec fn hex_digit_value(b: u8) -> u8
    recommends
        is_hex_digit(b),
{
    if 48 <= b <= 57 {
        (b - 48) as u8
    } else if 65 <= b <= 70 {
        (b - 55) as u8
    } else {
        (b - 87) as u8
    }
}

/// The bytes that decoding a hex fragment yields: each pair of hex digits
/// becomes one byte; a pair holding a non-digit is skipped, and a trailing
/// unpaired byte is ignored.
pub open spec fn hex_decode(s: Seq<u8>) -> Seq<u8>
    decreases s.len(),
{
    if s.len() < 2 {
        Seq::empty()
    } else {
        let rest = hex_decode(s.skip(2));
        if is_hex_digit(s[0]) && is_hex_digit(s[1]) {
            seq![(hex_digit_value(s[0]) * 16 + hex_digit_value(s[1])) as u8] + rest
        } else {
            rest
        }
    }
}

/// Decoding distributes over splitting a fragment at an even offset.
pub proof fn lemma_hex_decode_append(a: Seq<u8>, b: Seq<u8>)
    requires
        a.len() % 2 == 0,
    ensures
        hex_decode(a + b) == hex_decode(a) + hex_decode(b),
    decreases a.len(),
{
    if a.len() == 0 {
        assert(a + b =~= b);
        assert(hex_decode(a) + hex_decode(b) =~= hex_decode(b));
    } else {
        lemma_hex_decode_append(a.skip(2), b);
        assert((a + b).skip(2) =~= a.skip(2) + b);
        if is_hex_digit(a[0]) && is_hex_digit(a[1]) {
            let pair = seq![(hex_digit_value(a[0]) * 16 + hex_digit_value(a[1])) as u8];
            assert(hex_decode(a + b) =~= pair + (hex_decode(a.skip(2)) + hex_decode(b)));
            assert(hex_decode(a) + hex_decode(b) =~= pair + (hex_decode(a.skip(2)) + hex_decode(
                b,
            )));
        }
    }
}

/// The value of one ASCII hex digit, or `None` for any other byte.
fn hex_digit(b: u8) -> (r: Option<u8>)
    ensures
        r is Some <==> is_hex_digit(b),
        r matches Some(v) ==> v == hex_digit_value(b),
{
    if 48 <= b && b <= 57 {
        Some(b - 48)
    } else if 65 <= b && b <= 70 {
        Some(b - 55)
    } else if 97 <= b && b <= 102 {
        Some(b - 87)
    } else {
        None
    }
}

/// Decodes a hex string to bytes, two digits to a byte; pairs that are not
/// hex digits are skipped and a trailing unpaired character is ignored.
pub fn from_hex_string(in_str: &str) -> (r: Vec<u8>)
    ensures
        r@ == hex_decode(in_str.spec_bytes()),
{
    let s = in_str.as_bytes();
    let n = s.len();
    let mut bytes: Vec<u8> = Vec::new();
    let mut i: usize = 0;
    while i + 1 < n
        invariant
            n == s@.len(),
            i <= n,
            i % 2 == 0,
            bytes@ == hex_decode(s@.take(i as int)),
        decreases n - i,
    {
        let ghost pre = s@.take(i as int);
        let ghost pair = s@.subrange(i as int, i as int + 2);
        proof {
            assert(s@.take(i as int + 2) =~= pre + pair);
            lemma_hex_decode_append(pre, pair);
            assert(pair.skip(2) =~= Seq::<u8>::empty());
            assert(hex_decode(pair.skip(2)) == Seq::<u8>::empty());
        }
        let hi = hex_digit(s[i]);
        let lo = hex_digit(s[i + 1]);
        match (hi, lo) {
            (Some(h), Some(l)) => {
                bytes.push(h * 16 + l);
                proof {
                    assert(hex_decode(pair) =~= seq![
                        (hex_digit_value(pair[0]) * 16 + hex_digit_value(pair[1])) as u8,
                    ]);
                    assert(bytes@ =~= hex_decode(s@.take(i as int + 2)));
                }
            },
            _ => {
                proof {
                    assert(hex_decode(pair) =~= Seq::<u8>::empty());
                    assert(bytes@ =~= hex_decode(s@.take(i as int + 2)));
                }
            },
        }
        i = i + 2;
    }
    proof {
        let whole = s@;
        let even = whole.take(i as int);
        let tail = whole.skip(i as int);
        assert(whole =~= even + tail);
        lemma_hex_decode_append(even, tail);
        assert(tail.len() < 2);
        assert(hex_decode(tail) =~= Seq::<u8>::empty());
        assert(bytes@ =~= hex_decode(whole));
    }
    bytes
}

} // verus!
