//! Imported-account profile identities: `acct_` followed by the first 16
//! hex digits of the SHA-256 digest of `kind:value`.

use vstd::prelude::*;
use vstd::utf8::encode_utf8;
use crate::digest::sha256;
use crate::digest::sha256_digest;

verus! {

/// The lower-case hex digit for a nibble.
pub open spec fn hex_digit(d: nat) -> char {
    if d < 10 { (('0' as u32) + d) as char } else { (('a' as u32) + d - 10) as char }
}

/// Lower-case hex of `bytes`, two digits per byte, as `{:x}` prints a digest.
pub open spec fn hex_lower(bytes: Seq<u8>) -> Seq<char>
    decreases bytes.len(),
{
    if bytes.len() == 0 {
        Seq::empty()
    } else {
        seq![hex_digit((bytes[0] / 16) as nat), hex_digit((bytes[0] % 16) as nat)] + hex_lower(bytes.drop_first())
    }
}

/// The profile id for the digest input `input`: `acct_` and the first 16
/// hex digits of its SHA-256 digest.
pub open spec fn profile_id_of(input: Seq<u8>) -> Seq<char> {
    "acct_"@ + hex_lower(sha256(input)).take(16)
}

/// ASCII upper-case letters turned to lower case, other bytes kept, as
/// `str::to_ascii_lowercase` does to the UTF-8 bytes of a string.
pub open spec fn ascii_lower_bytes(bytes: Seq<u8>) -> Seq<u8> {
    Seq::new(bytes.len(), |i: int| if 65 <= bytes[i] <= 90 { (bytes[i] + 32) as u8 } else { bytes[i] })
}

fn hex_digit_str(d: u8) -> (res: &'static str)
    requires
        d < 16,
    ensures
        res@ == seq![hex_digit(d as nat)],
{
    proof {
        reveal_strlit("0"); reveal_strlit("1"); reveal_strlit("2"); reveal_strlit("3");
        reveal_strlit("4"); reveal_strlit("5"); reveal_strlit("6"); reveal_strlit("7");
        reveal_strlit("8"); reveal_strlit("9"); reveal_strlit("a"); reveal_strlit("b");
        reveal_strlit("c"); reveal_strlit("d"); reveal_strlit("e"); reveal_strlit("f");
    }
    if d == 0 { "0" } else if d == 1 { "1" } else if d == 2 { "2" } else if d == 3 { "3" }
    else if d == 4 { "4" } else if d == 5 { "5" } else if d == 6 { "6" } else if d == 7 { "7" }
    else if d == 8 { "8" } else if d == 9 { "9" } else if d == 10 { "a" } else if d == 11 { "b" }
    else if d == 12 { "c" } else if d == 13 { "d" } else if d == 14 { "e" } else { "f" }
}

proof fn lemma_hex_lower_prefix(bytes: Seq<u8>, i: int)
    requires
        0 <= i < bytes.len(),
    ensures
        hex_lower(bytes.take(i + 1)) == hex_lower(bytes.take(i)) + seq![
            hex_digit((bytes[i] / 16) as nat),
            hex_digit((bytes[i] % 16) as nat),
        ],
    decreases i,
{
    if i == 0 {
        assert(bytes.take(1).drop_first() =~= Seq::<u8>::empty());
        assert(bytes.take(0) =~= Seq::<u8>::empty());
    } else {
        let rest = bytes.drop_first();
        lemma_hex_lower_prefix(rest, i - 1);
        assert(bytes.take(i + 1).drop_first() =~= rest.take(i));
        assert(bytes.take(i).drop_first() =~= rest.take(i - 1));
    }
}

proof fn lemma_hex_lower_len(bytes: Seq<u8>)
    ensures
        hex_lower(bytes).len() == 2 * bytes.len(),
    decreases bytes.len(),
{
    if bytes.len() > 0 {
        lemma_hex_lower_len(bytes.drop_first());
    }
}

proof fn lemma_hex_lower_take(bytes: Seq<u8>, n: int)
    requires
        0 <= n <= bytes.len(),
    ensures
        hex_lower(bytes).take(2 * n) == hex_lower(bytes.take(n)),
    decreases n,
{
    if n > 0 {
        let rest = bytes.drop_first();
        lemma_hex_lower_take(rest, n - 1);
        lemma_hex_lower_len(rest);
        lemma_hex_lower_len(rest.take(n - 1));
        assert(bytes.take(n).drop_first() =~= rest.take(n - 1));
        assert(hex_lower(bytes).take(2 * n) =~= hex_lower(bytes.take(n)));
    }
}

/// The profile id for the digest input `input`.
pub fn profile_id_for(input: &[u8]) -> (res: String)
    ensures
        res@ == profile_id_of(input@),
{
    let digest = sha256_digest(input);
    let mut out = String::from_str("acct_");
    let mut i: usize = 0;
    while i < 8
        invariant
            i <= 8,
            digest@ == sha256(input@),
            digest@.len() == 32,
            out@ == "acct_"@ + hex_lower(digest@.take(i as int)),
        decreases 8 - i,
    {
        let b = digest[i];
        out.append(hex_digit_str(b / 16));
        out.append(hex_digit_str(b % 16));
        proof {
            lemma_hex_lower_prefix(digest@, i as int);
        }
        i = i + 1;
    }
    proof {
        lemma_hex_lower_take(digest@, 8);
    }
    out
}

/// Appends the UTF-8 bytes of `s` to `out`.
pub fn push_utf8(out: &mut Vec<u8>, s: &str)
    ensures
        final(out)@ == old(out)@ + encode_utf8(s@),
{
    let bytes = s.as_bytes();
    let mut i: usize = 0;
    while i < bytes.len()
        invariant
            bytes@ == encode_utf8(s@),
            i <= bytes@.len(),
            out@ == old(out)@ + bytes@.take(i as int),
        decreases bytes@.len() - i,
    {
        out.push(bytes[i]);
        proof {
            assert(bytes@.take(i + 1) =~= bytes@.take(i as int).push(bytes@[i as int]));
        }
        i = i + 1;
    }
    assert(bytes@.take(bytes@.len() as int) =~= bytes@);
}

/// Appends the UTF-8 bytes of `s` with ASCII letters in lower case.
pub fn push_utf8_ascii_lower(out: &mut Vec<u8>, s: &str)
    ensures
        final(out)@ == old(out)@ + ascii_lower_bytes(encode_utf8(s@)),
{
    let bytes = s.as_bytes();
    let ghost lowered = ascii_lower_bytes(bytes@);
    let mut i: usize = 0;
    while i < bytes.len()
        invariant
            bytes@ == encode_utf8(s@),
            lowered == ascii_lower_bytes(bytes@),
            i <= bytes@.len(),
            out@ == old(out)@ + lowered.take(i as int),
        decreases bytes@.len() - i,
    {
        let b = bytes[i];
        let l: u8 = if 65 <= b && b <= 90 { b + 32 } else { b };
        out.push(l);
        proof {
            assert(lowered.take(i + 1) =~= lowered.take(i as int).push(lowered[i as int]));
        }
        i = i + 1;
    }
    assert(lowered.take(bytes@.len() as int) =~= lowered);
}

} // verus!
