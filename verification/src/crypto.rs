//! Addresses, identifiers and digests rendered as text.
//!
//! Hex encoding and SHA-256 are taken from outside crates behind trusted
//! wrappers; everything built on top of them — payment deposit addresses,
//! canonical identifier strings, client secrets — is verified against
//! exact character-level specifications.

use vstd::prelude::*;
use vstd::string::StringSliceAdditionalSpecFns;
use vstd::string::StrSliceExecFns;

use sha2::Digest;

verus! {

/// The lowercase hex digit for a value below 16.
pub open spec fn hex_char(n: u8) -> char
    recommends
        n < 16,
{
    if n < 10 {
        (48 + n) as char
    } else {
        (87 + n) as char
    }
}

/// Lowercase hex encoding: two digits per byte, high nibble first.
pub open spec fn hex_of(bytes: Seq<u8>) -> Seq<char> {
    Seq::new(
        bytes.len() * 2,
        |i: int| if i % 2 == 0 {
            hex_char(bytes[i / 2] / 16)
        } else {
            hex_char(bytes[i / 2] % 16)
        },
    )
}

/// Relies on `hex::encode`: lowercase hex, two digits for each input byte,
/// high nibble first.
#[verifier::external_body]
fn hex_encode(bytes: &Vec<u8>) -> (r: String)
    ensures
        r@ == hex_of(bytes@),
{
    hex::encode(bytes)
}

/// The SHA-256 digest of a byte sequence.
pub uninterp spec fn sha256_of(bytes: Seq<u8>) -> Seq<u8>;

/// Relies on `sha2::Sha256`: the digest depends on the input bytes alone
/// and is 32 bytes long.
#[verifier::external_body]
fn sha256_digest(bytes: &Vec<u8>) -> (r: Vec<u8>)
    ensures
        r@ == sha256_of(bytes@),
        r@.len() == 32,
{
    let mut hasher = sha2::Sha256::new();
    hasher.update(bytes.as_slice());
    hasher.finalize().to_vec()
}

/// Byte `i` (big-endian) of a 128-bit value.
pub open spec fn u128_byte(x: u128, i: int) -> u8
    recommends
        0 <= i < 16,
{
    (x >> (((15 - i) * 8) as u128)) as u8
}

/// The 16 bytes of a 128-bit value, big-endian.
pub open spec fn spec_u128_be(x: u128) -> Seq<u8> {
    Seq::new(16, |i: int| u128_byte(x, i))
}

pub fn u128_be_bytes(x: u128) -> (r: Vec<u8>)
    ensures
        r@ == spec_u128_be(x),
{
    let mut r: Vec<u8> = Vec::new();
    let mut k: usize = 0;
    while k < 16
        invariant
            k <= 16,
            r@ == spec_u128_be(x).take(k as int),
        decreases 16 - k,
    {
        let sh: u128 = ((15 - k) * 8) as u128;
        let b: u8 = (x >> sh) as u8;
        proof {
            assert(b == u128_byte(x, k as int));
        }
        r.push(b);
        proof {
            assert(r@ =~= spec_u128_be(x).take(k as int + 1));
        }
        k += 1;
    }
    proof {
        assert(spec_u128_be(x).take(16) =~= spec_u128_be(x));
    }
    r
}

/// Byte `i` (big-endian) of a 64-bit value.
pub open spec fn u64_byte(x: u64, i: int) -> u8
    recommends
        0 <= i < 8,
{
    (x >> (((7 - i) * 8) as u64)) as u8
}

/// The 8 bytes of a 64-bit value, big-endian.
pub open spec fn spec_u64_be(x: u64) -> Seq<u8> {
    Seq::new(8, |i: int| u64_byte(x, i))
}

pub fn u64_be_bytes(x: u64) -> (r: Vec<u8>)
    ensures
        r@ == spec_u64_be(x),
{
    let mut r: Vec<u8> = Vec::new();
    let mut k: usize = 0;
    while k < 8
        invariant
            k <= 8,
            r@ == spec_u64_be(x).take(k as int),
        decreases 8 - k,
    {
        let sh: u64 = ((7 - k) * 8) as u64;
        let b: u8 = (x >> sh) as u8;
        proof {
            assert(b == u64_byte(x, k as int));
        }
        r.push(b);
        proof {
            assert(r@ =~= spec_u64_be(x).take(k as int + 1));
        }
        k += 1;
    }
    proof {
        assert(spec_u64_be(x).take(8) =~= spec_u64_be(x));
    }
    r
}

/// The decimal digits of a number, as ASCII bytes.
pub open spec fn dec_digits(n: nat) -> Seq<u8>
    decreases n,
{
    if n < 10 {
        seq![(48 + n) as u8]
    } else {
        dec_digits(n / 10).push((48 + n % 10) as u8)
    }
}

/// Appends the decimal digits of `n` to `out`.
pub fn push_dec_digits(out: &mut Vec<u8>, n: u64)
    ensures
        final(out)@ == old(out)@ + dec_digits(n as nat),
    decreases n,
{
    if n < 10 {
        out.push(48 + n as u8);
        proof {
            assert(final(out)@ =~= old(out)@ + dec_digits(n as nat));
        }
    } else {
        push_dec_digits(out, n / 10);
        out.push(48 + (n % 10) as u8);
        proof {
            assert(final(out)@ =~= old(out)@ + dec_digits(n as nat));
        }
    }
}

/// The deposit address attached to a crypto payment: the payment id and
/// its creation time, hex-encoded behind a `0x` tag.
pub open spec fn payment_address_chars(id: u128, created_at: int) -> Seq<char> {
    "0x"@ + hex_of(spec_u128_be(id)) + hex_of(spec_u64_be(created_at as u64))
}

pub fn payment_address(id: u128, created_at: i64) -> (r: String)
    requires
        created_at >= 0,
    ensures
        r@ == payment_address_chars(id, created_at as int),
{
    let mut s = String::from_str("0x");
    let h1 = hex_encode(&u128_be_bytes(id));
    let h2 = hex_encode(&u64_be_bytes(created_at as u64));
    s.append(h1.as_str());
    s.append(h2.as_str());
    s
}

/// A deposit address derived from a currency, a network and a nonce: the
/// first 20 bytes of the SHA-256 of their concatenation, hex-encoded
/// behind a `0x` tag.
pub open spec fn network_address_chars(currency: Seq<u8>, network: Seq<u8>, nonce: u64)
    -> Seq<char> {
    "0x"@ + hex_of(sha256_of(currency + network + dec_digits(nonce as nat)).take(20))
}

pub fn generate_network_address(currency: &str, network: &str, nonce: u64) -> (r: String)
    ensures
        r@ == network_address_chars(currency.spec_bytes(), network.spec_bytes(), nonce),
{
    let mut input = currency.as_bytes_vec();
    let mut net = network.as_bytes_vec();
    input.append(&mut net);
    push_dec_digits(&mut input, nonce);
    proof {
        assert(input@ =~= currency.spec_bytes() + network.spec_bytes() + dec_digits(
            nonce as nat,
        ));
    }
    let digest = sha256_digest(&input);
    let mut head = digest;
    head.truncate(20);
    proof {
        assert(head@ =~= sha256_of(input@).take(20));
    }
    let mut s = String::from_str("0x");
    let h = hex_encode(&head);
    s.append(h.as_str());
    s
}

/// A deposit address for the given currency and network, salted with the
/// wall clock. Whatever the clock returned, the result is a well-formed
/// address for some nonce.
pub fn fresh_network_address(currency: &str, network: &str) -> (r: String)
    ensures
        exists|n: u64|
            r@ == #[trigger] network_address_chars(
                currency.spec_bytes(),
                network.spec_bytes(),
                n,
            ),
{
    let nanos: u64 = match crate::runtime::now_nanos() {
        Some(n) => if n >= 0 {
            n as u64
        } else {
            0
        },
        None => 0,
    };
    generate_network_address(currency, network, nanos)
}

/// The canonical textual form of a 128-bit identifier: 32 lowercase hex
/// digits in five hyphen-separated groups of 8, 4, 4, 4 and 12.
pub open spec fn hyphenated_chars(x: u128) -> Seq<char> {
    let h = hex_of(spec_u128_be(x));
    Seq::new(
        36,
        |j: int| if j < 8 {
            h[j]
        } else if j == 8 {
            '-'
        } else if j < 13 {
            h[j - 1]
        } else if j == 13 {
            '-'
        } else if j < 18 {
            h[j - 2]
        } else if j == 18 {
            '-'
        } else if j < 23 {
            h[j - 3]
        } else if j == 23 {
            '-'
        } else {
            h[j - 4]
        },
    )
}

pub fn format_id(x: u128) -> (r: String)
    ensures
        r@ == hyphenated_chars(x),
{
    let hexstr = hex_encode(&u128_be_bytes(x));
    let mut out = String::new();
    let mut j: usize = 0;
    while j < 36
        invariant
            j <= 36,
            hexstr@ == hex_of(spec_u128_be(x)),
            hexstr@.len() == 32,
            out@ == hyphenated_chars(x).take(j as int),
        decreases 36 - j,
    {
        if j == 8 || j == 13 || j == 18 || j == 23 {
            out.push('-');
        } else {
            let k: usize = if j < 8 {
                j
            } else if j < 13 {
                j - 1
            } else if j < 18 {
                j - 2
            } else if j < 23 {
                j - 3
            } else {
                j - 4
            };
            out.push(hexstr.as_str().get_char(k));
        }
        proof {
            assert(out@ =~= hyphenated_chars(x).take(j as int + 1));
        }
        j += 1;
    }
    proof {
        assert(hyphenated_chars(x).take(36) =~= hyphenated_chars(x));
    }
    out
}

/// The client secret handed back at creation: the payment id and a fresh
/// nonce, in canonical form.
pub open spec fn client_secret_chars(id: u128, nonce: u128) -> Seq<char> {
    "pi_"@ + hyphenated_chars(id) + "_secret_"@ + hyphenated_chars(nonce)
}

pub fn client_secret_for(id: u128, nonce: u128) -> (r: String)
    ensures
        r@ == client_secret_chars(id, nonce),
{
    let mut s = String::from_str("pi_");
    let a = format_id(id);
    s.append(a.as_str());
    s.append("_secret_");
    let b = format_id(nonce);
    s.append(b.as_str());
    s
}

} // verus!
