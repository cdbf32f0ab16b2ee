//! Key identifiers and secret keys made of operating-system randomness.
use vstd::prelude::*;
use crate::text::push_char;

verus! {

/// The error type of the `getrandom` crate.
#[verifier::external_type_specification]
#[verifier::external_body]
pub struct ExRandomError(getrandom::Error);

/// `getrandom::getrandom`: fills `buf` with bytes from the operating
/// system's random source, or reports that the source is unavailable. The
/// bytes depend on chance; only that the buffer keeps its length is claimed.
#[verifier::external_body]
fn fill_random(buf: &mut Vec<u8>) -> (r: Result<(), getrandom::Error>)
    ensures
        final(buf)@.len() == old(buf)@.len(),
{
    getrandom::getrandom(buf.as_mut_slice())
}

/// Why a key could not be generated.
#[derive(Debug, Clone, Copy, PartialEq, Eq, Structural)]
pub enum KeyGenError {
    /// The operating system's random source failed.
    RandomSourceUnavailable,
}

/// The lowercase hexadecimal digit for `n < 16`.
pub open spec fn hex_char(n: nat) -> char {
    if n < 10 {
        crate::text::digit_char(n)
    } else if n == 10 {
        'a'
    } else if n == 11 {
        'b'
    } else if n == 12 {
        'c'
    } else if n == 13 {
        'd'
    } else if n == 14 {
        'e'
    } else {
        'f'
    }
}

/// Bytes in lowercase hexadecimal, two digits per byte (`{:02x}`).
pub open spec fn hex_lower(bytes: Seq<u8>) -> Seq<char>
    decreases bytes.len(),
{
    if bytes.len() == 0 {
        seq![]
    } else {
        let b = bytes.last();
        hex_lower(bytes.drop_last()) + seq![hex_char((b / 16) as nat), hex_char((b % 16) as nat)]
    }
}

fn hex_digit(n: u8) -> (c: char)
    requires
        n < 16,
    ensures
        c == hex_char(n as nat),
{
    if n < 10 {
        crate::text::digit_of(n as u32)
    } else if n == 10 {
        'a'
    } else if n == 11 {
        'b'
    } else if n == 12 {
        'c'
    } else if n == 13 {
        'd'
    } else if n == 14 {
        'e'
    } else {
        'f'
    }
}

/// `bytes` in lowercase hexadecimal.
pub fn to_hex(bytes: &Vec<u8>) -> (s: String)
    ensures
        s@ == hex_lower(bytes@),
{
    let mut s = String::new();
    let mut i: usize = 0;
    while i < bytes.len()
        invariant
            i <= bytes@.len(),
            s@ == hex_lower(bytes@.take(i as int)),
        decreases bytes@.len() - i,
    {
        let b = bytes[i];
        push_char(&mut s, hex_digit(b / 16));
        push_char(&mut s, hex_digit(b % 16));
        proof {
            let t = bytes@.take(i + 1);
            assert(t.drop_last() == bytes@.take(i as int));
            assert(t.last() == b);
            assert(s@ =~= hex_lower(t));
        }
        i = i + 1;
    }
    assert(bytes@.take(bytes@.len() as int) == bytes@);
    s
}

/// Whether `s` is `prefix` followed by the hexadecimal of `n` bytes.
pub open spec fn is_token(s: Seq<char>, prefix: Seq<char>, n: nat) -> bool {
    exists|b: Seq<u8>| b.len() == n && s == prefix + hex_lower(b)
}

/// `byte_len` random bytes in lowercase hexadecimal.
fn random_token(byte_len: usize) -> (r: Result<String, KeyGenError>)
    ensures
        r matches Ok(s) ==> is_token(s@, Seq::empty(), byte_len as nat),
        r matches Err(e) ==> e == KeyGenError::RandomSourceUnavailable,
{
    let mut buf: Vec<u8> = Vec::new();
    let mut i: usize = 0;
    while i < byte_len
        invariant
            i <= byte_len,
            buf@.len() == i,
        decreases byte_len - i,
    {
        buf.push(0);
        i = i + 1;
    }
    let filled = fill_random(&mut buf);
    token_from_fill(filled, &buf)
}

/// The token made from a buffer that the random source was asked to fill:
/// the buffer in lowercase hexadecimal when the source filled it, else
/// `RandomSourceUnavailable`.
pub fn token_from_fill(filled: Result<(), getrandom::Error>, buf: &Vec<u8>) -> (r: Result<String, KeyGenError>)
    ensures
        filled is Ok <==> r is Ok,
        r matches Ok(s) ==> s@ == hex_lower(buf@),
        r matches Err(e) ==> e == KeyGenError::RandomSourceUnavailable,
{
    match filled {
        Ok(()) => Ok(to_hex(buf)),
        Err(_) => Err(KeyGenError::RandomSourceUnavailable),
    }
}

/// Whether `s` has the shape of a key id: `key_` and 8 random bytes in hex.
pub open spec fn is_key_id(s: Seq<char>) -> bool {
    is_token(s, "key_"@, 8)
}

/// Whether `s` has the shape of a secret key: `sk-selfapi-` and 24 random
/// bytes in hex.
pub open spec fn is_secret_key(s: Seq<char>) -> bool {
    is_token(s, "sk-selfapi-"@, 24)
}

/// A new key id: `key_` followed by 8 random bytes in lowercase hex.
pub fn generate_key_id() -> (r: Result<String, KeyGenError>)
    ensures
        r matches Ok(s) ==> is_key_id(s@),
{
    let token = random_token(8)?;
    let mut s = String::from_str("key_");
    s.append(token.as_str());
    proof {
        let b = choose|b: Seq<u8>| b.len() == 8 && token@ == Seq::<char>::empty() + hex_lower(b);
        assert(s@ == "key_"@ + hex_lower(b));
    }
    Ok(s)
}

/// A new secret key: `sk-selfapi-` followed by 24 random bytes in lowercase hex.
pub fn generate_secret_key() -> (r: Result<String, KeyGenError>)
    ensures
        r matches Ok(s) ==> is_secret_key(s@),
{
    let token = random_token(24)?;
    let mut s = String::from_str("sk-selfapi-");
    s.append(token.as_str());
    proof {
        let b = choose|b: Seq<u8>| b.len() == 24 && token@ == Seq::<char>::empty() + hex_lower(b);
        assert(s@ == "sk-selfapi-"@ + hex_lower(b));
    }
    Ok(s)
}

} // verus!
