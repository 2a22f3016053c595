//! Canonical digest machinery: a deterministic fixed-width hash over byte
//! sequences, rendered as a 64-character lowercase hex string, together with
//! the decimal rendering used by the canonical encoder and the difficulty
//! predicate used by the proof-of-work engine.

use vstd::prelude::*;

verus! {

/// Offset basis of the 64-bit FNV-1a accumulator.
pub const FNV_OFFSET: u64 = 0xcbf29ce484222325;

/// Multiplicative prime of the 64-bit FNV-1a accumulator.
pub const FNV_PRIME: u64 = 0x100000001b3;

/// First multiplier of the 64-bit finalizer.
pub const MIX_MUL_1: u64 = 0xbf58476d1ce4e5b9;

/// Second multiplier of the 64-bit finalizer.
pub const MIX_MUL_2: u64 = 0x94d049bb133111eb;

/// Lane separation constants: each digest lane finalizes the accumulator
/// xored with a distinct constant, so the four lanes differ.
pub const LANE_1: u64 = 0x9e3779b97f4a7c15;
pub const LANE_2: u64 = 0x3c6ef372fe94f82a;
pub const LANE_3: u64 = 0xdaa66d2c7ddf743f;

/// One FNV-1a step: absorb one byte into the accumulator.
pub open spec fn fnv_step(h: u64, b: u8) -> u64 {
    (h ^ (b as u64)).wrapping_mul(FNV_PRIME)
}

/// The 64-bit FNV-1a accumulator over a byte sequence.
pub open spec fn fnv(s: Seq<u8>) -> u64
    decreases s.len(),
{
    if s.len() == 0 {
        FNV_OFFSET
    } else {
        fnv_step(fnv(s.drop_last()), s.last())
    }
}

/// The 64-bit finalizer: scrambles the accumulator so that every output bit
/// depends on every input bit.
pub open spec fn mix64(z: u64) -> u64 {
    let a = (z ^ (z >> 30u64)).wrapping_mul(MIX_MUL_1);
    let b = (a ^ (a >> 27u64)).wrapping_mul(MIX_MUL_2);
    b ^ (b >> 31u64)
}

/// The lowercase hex character of one value below sixteen.
pub open spec fn hex_digit_char(d: u8) -> char {
    if d == 0 { '0' } else if d == 1 { '1' } else if d == 2 { '2' } else if d == 3 { '3' }
    else if d == 4 { '4' } else if d == 5 { '5' } else if d == 6 { '6' } else if d == 7 { '7' }
    else if d == 8 { '8' } else if d == 9 { '9' } else if d == 10 { 'a' } else if d == 11 { 'b' }
    else if d == 12 { 'c' } else if d == 13 { 'd' } else if d == 14 { 'e' } else { 'f' }
}

/// The lowest `k` hex digits of `x`, most significant first.
pub open spec fn hex_chars(x: u64, k: nat) -> Seq<char>
    decreases k,
{
    if k == 0 {
        Seq::empty()
    } else {
        hex_chars(x / 16, (k - 1) as nat).push(hex_digit_char((x % 16) as u8))
    }
}

pub proof fn lemma_hex_chars_len(x: u64, k: nat)
    ensures
        hex_chars(x, k).len() == k,
    decreases k,
{
    if k > 0 {
        lemma_hex_chars_len(x / 16, (k - 1) as nat);
    }
}

/// The digest of a byte sequence: four finalized lanes of the FNV-1a
/// accumulator, rendered as 64 lowercase hex characters.
pub open spec fn digest_chars(s: Seq<u8>) -> Seq<char> {
    let h = fnv(s);
    hex_chars(mix64(h), 16) + hex_chars(mix64(h ^ LANE_1), 16) + hex_chars(mix64(h ^ LANE_2), 16)
        + hex_chars(mix64(h ^ LANE_3), 16)
}

pub proof fn lemma_digest_chars_len(s: Seq<u8>)
    ensures
        digest_chars(s).len() == 64,
{
    let h = fnv(s);
    lemma_hex_chars_len(mix64(h), 16);
    lemma_hex_chars_len(mix64(h ^ LANE_1), 16);
    lemma_hex_chars_len(mix64(h ^ LANE_2), 16);
    lemma_hex_chars_len(mix64(h ^ LANE_3), 16);
}

/// The difficulty predicate: a digest is acceptable proof of work when it
/// begins with four zero hex characters.
pub open spec fn meets_difficulty(d: Seq<char>) -> bool {
    &&& d.len() >= 4
    &&& d[0] == '0'
    &&& d[1] == '0'
    &&& d[2] == '0'
    &&& d[3] == '0'
}

/// The decimal digits of `n` as ASCII bytes, most significant first.
pub open spec fn dec_bytes(n: nat) -> Seq<u8>
    decreases n,
{
    if n < 10 {
        seq![(n + 48) as u8]
    } else {
        dec_bytes(n / 10).push(((n % 10) + 48) as u8)
    }
}

/// The finalizer, executable form.
fn mix64_exec(z: u64) -> (r: u64)
    ensures
        r == mix64(z),
{
    let a = (z ^ (z >> 30u64)).wrapping_mul(MIX_MUL_1);
    let b = (a ^ (a >> 27u64)).wrapping_mul(MIX_MUL_2);
    b ^ (b >> 31u64)
}

/// The FNV-1a accumulator, executable form.
fn fnv_exec(bytes: &Vec<u8>) -> (r: u64)
    ensures
        r == fnv(bytes@),
{
    let mut h: u64 = FNV_OFFSET;
    let mut i: usize = 0;
    proof {
        assert(bytes@.take(0) =~= Seq::<u8>::empty());
    }
    while i < bytes.len()
        invariant
            i <= bytes@.len(),
            h == fnv(bytes@.take(i as int)),
        decreases bytes@.len() - i,
    {
        h = (h ^ (bytes[i] as u64)).wrapping_mul(FNV_PRIME);
        i = i + 1;
        proof {
            assert(bytes@.take(i as int).drop_last() =~= bytes@.take(i as int - 1));
        }
    }
    proof {
        assert(bytes@.take(bytes@.len() as int) =~= bytes@);
    }
    h
}

/// Appends the hex character of one value below sixteen.
fn push_hex_digit(s: &mut String, d: u8)
    requires
        d < 16,
    ensures
        final(s)@ == old(s)@ + seq![hex_digit_char(d)],
{
    let ghost s0 = s@;
    match d {
        0 => s.append("0"),
        1 => s.append("1"),
        2 => s.append("2"),
        3 => s.append("3"),
        4 => s.append("4"),
        5 => s.append("5"),
        6 => s.append("6"),
        7 => s.append("7"),
        8 => s.append("8"),
        9 => s.append("9"),
        10 => s.append("a"),
        11 => s.append("b"),
        12 => s.append("c"),
        13 => s.append("d"),
        14 => s.append("e"),
        _ => s.append("f"),
    }
    proof {
        reveal_strlit("0");
        reveal_strlit("1");
        reveal_strlit("2");
        reveal_strlit("3");
        reveal_strlit("4");
        reveal_strlit("5");
        reveal_strlit("6");
        reveal_strlit("7");
        reveal_strlit("8");
        reveal_strlit("9");
        reveal_strlit("a");
        reveal_strlit("b");
        reveal_strlit("c");
        reveal_strlit("d");
        reveal_strlit("e");
        reveal_strlit("f");
        assert(s@ =~= s0 + seq![hex_digit_char(d)]);
    }
}

/// Appends the lowest `k` hex digits of `x`, most significant first.
fn push_hex(s: &mut String, x: u64, k: usize)
    ensures
        final(s)@ == old(s)@ + hex_chars(x, k as nat),
    decreases k,
{
    if k == 0 {
        proof {
            assert(s@ =~= old(s)@ + hex_chars(x, 0));
        }
    } else {
        push_hex(s, x / 16, k - 1);
        push_hex_digit(s, (x % 16) as u8);
        proof {
            assert(s@ =~= old(s)@ + hex_chars(x, k as nat));
        }
    }
}

/// The digest of a byte sequence as a 64-character lowercase hex string.
pub fn digest_hex(bytes: &Vec<u8>) -> (r: String)
    ensures
        r@ == digest_chars(bytes@),
        r@.len() == 64,
{
    let h = fnv_exec(bytes);
    let mut s = String::new();
    push_hex(&mut s, mix64_exec(h), 16);
    push_hex(&mut s, mix64_exec(h ^ LANE_1), 16);
    push_hex(&mut s, mix64_exec(h ^ LANE_2), 16);
    push_hex(&mut s, mix64_exec(h ^ LANE_3), 16);
    proof {
        assert(s@ =~= digest_chars(bytes@));
        lemma_digest_chars_len(bytes@);
    }
    s
}

/// Appends the decimal digits of `n` as ASCII bytes, most significant first.
pub fn push_dec(out: &mut Vec<u8>, n: u64)
    ensures
        final(out)@ == old(out)@ + dec_bytes(n as nat),
    decreases n,
{
    if n < 10 {
        out.push((n + 48) as u8);
        proof {
            assert(out@ =~= old(out)@ + dec_bytes(n as nat));
        }
    } else {
        push_dec(out, n / 10);
        out.push(((n % 10) + 48) as u8);
        proof {
            assert(out@ =~= old(out)@ + dec_bytes(n as nat));
        }
    }
}

/// Whether a digest string meets the difficulty predicate: it begins with
/// four zero hex characters.
pub fn check_difficulty(s: &String) -> (r: bool)
    ensures
        r == meets_difficulty(s@),
{
    let t = s.as_str();
    if t.unicode_len() < 4 {
        return false;
    }
    t.get_char(0) == '0' && t.get_char(1) == '0' && t.get_char(2) == '0' && t.get_char(3) == '0'
}

} // verus!
