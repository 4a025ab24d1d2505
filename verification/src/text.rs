//! Verified helpers for rendering numbers and byte strings as text.
//!
//! Transaction hashes, contract addresses and evaluated call results are
//! reported to clients as hexadecimal text, and numeric path segments of the
//! indexing API are rendered in decimal; the functions here build those
//! strings character by character against exact character-sequence
//! specifications.

use vstd::prelude::*;

verus! {

/// The character that stands for the value `n` in decimal or hexadecimal
/// notation (meaningful for `n < 16`).
pub open spec fn nibble_char(n: u8) -> char {
    if n == 0 {
        '0'
    } else if n == 1 {
        '1'
    } else if n == 2 {
        '2'
    } else if n == 3 {
        '3'
    } else if n == 4 {
        '4'
    } else if n == 5 {
        '5'
    } else if n == 6 {
        '6'
    } else if n == 7 {
        '7'
    } else if n == 8 {
        '8'
    } else if n == 9 {
        '9'
    } else if n == 10 {
        'a'
    } else if n == 11 {
        'b'
    } else if n == 12 {
        'c'
    } else if n == 13 {
        'd'
    } else if n == 14 {
        'e'
    } else {
        'f'
    }
}

/// The decimal rendering of `n`, most significant digit first.
pub open spec fn dec_chars(n: nat) -> Seq<char>
    decreases n,
{
    if n < 10 {
        seq![nibble_char(n as u8)]
    } else {
        dec_chars(n / 10).push(nibble_char((n % 10) as u8))
    }
}

/// The two hexadecimal characters of one byte, high nibble first.
pub open spec fn byte_hex_chars(b: u8) -> Seq<char> {
    seq![nibble_char(b >> 4), nibble_char(b & 0xf)]
}

/// The full hexadecimal rendering of a byte string, two characters per byte.
pub open spec fn bytes_hex_chars(bs: Seq<u8>) -> Seq<char>
    decreases bs.len(),
{
    if bs.len() == 0 {
        Seq::<char>::empty()
    } else {
        byte_hex_chars(bs[0]) + bytes_hex_chars(bs.drop_first())
    }
}

/// `s` with every leading `'0'` removed.
pub open spec fn strip_leading_zeros(s: Seq<char>) -> Seq<char>
    decreases s.len(),
{
    if s.len() == 0 {
        s
    } else if s[0] == '0' {
        strip_leading_zeros(s.drop_first())
    } else {
        s
    }
}

/// The shortest hexadecimal rendering of a byte string read as a big-endian
/// number: leading zero digits are dropped, and the number zero is one `'0'`.
pub open spec fn short_hex_chars(bs: Seq<u8>) -> Seq<char> {
    let stripped = strip_leading_zeros(bytes_hex_chars(bs));
    if stripped.len() == 0 {
        seq!['0']
    } else {
        stripped
    }
}

/// The nibble of `bs` at nibble position `j` (high nibble of each byte first).
pub open spec fn nibble_at(bs: Seq<u8>, j: int) -> u8 {
    if j % 2 == 0 {
        bs[j / 2] >> 4
    } else {
        bs[j / 2] & 0xf
    }
}

/// Relies on `String::push` of std: it appends exactly the given character.
#[verifier::external_body]
pub(crate) fn push_char(s: &mut String, c: char)
    ensures
        final(s)@ == old(s)@.push(c),
{
    s.push(c);
}

/// Maps a value below 16 to its digit character.
pub fn nibble_to_char(n: u8) -> (c: char)
    ensures
        c == nibble_char(n),
{
    if n == 0 {
        '0'
    } else if n == 1 {
        '1'
    } else if n == 2 {
        '2'
    } else if n == 3 {
        '3'
    } else if n == 4 {
        '4'
    } else if n == 5 {
        '5'
    } else if n == 6 {
        '6'
    } else if n == 7 {
        '7'
    } else if n == 8 {
        '8'
    } else if n == 9 {
        '9'
    } else if n == 10 {
        'a'
    } else if n == 11 {
        'b'
    } else if n == 12 {
        'c'
    } else if n == 13 {
        'd'
    } else if n == 14 {
        'e'
    } else {
        'f'
    }
}

/// Appends the decimal rendering of `n` to `out`.
pub fn push_decimal(out: &mut String, n: u64)
    ensures
        final(out)@ == old(out)@ + dec_chars(n as nat),
    decreases n,
{
    if n < 10 {
        push_char(out, nibble_to_char(n as u8));
    } else {
        push_decimal(out, n / 10);
        push_char(out, nibble_to_char((n % 10) as u8));
    }
}

/// `bytes_hex_chars` distributes over appending one byte.
proof fn lemma_bytes_hex_snoc(bs: Seq<u8>, b: u8)
    ensures
        bytes_hex_chars(bs.push(b)) == bytes_hex_chars(bs) + byte_hex_chars(b),
    decreases bs.len(),
{
    if bs.len() == 0 {
        assert(bs.push(b)[0] == b);
        assert(bs.push(b).drop_first() =~= Seq::<u8>::empty());
        assert(bytes_hex_chars(Seq::<u8>::empty()) == Seq::<char>::empty());
        assert(bytes_hex_chars(bs.push(b)) =~= bytes_hex_chars(bs) + byte_hex_chars(b));
    } else {
        assert(bs.push(b)[0] == bs[0]);
        assert(bs.push(b).drop_first() =~= bs.drop_first().push(b));
        lemma_bytes_hex_snoc(bs.drop_first(), b);
        assert(bytes_hex_chars(bs.push(b)) =~= bytes_hex_chars(bs) + byte_hex_chars(b));
    }
}

/// Appends the full hexadecimal rendering of `bs` to `out`.
pub fn push_hex_bytes(out: &mut String, bs: &Vec<u8>)
    ensures
        final(out)@ == old(out)@ + bytes_hex_chars(bs@),
{
    let mut i: usize = 0;
    while i < bs.len()
        invariant
            i <= bs.len(),
            out@ == old(out)@ + bytes_hex_chars(bs@.take(i as int)),
        decreases bs.len() - i,
    {
        let b = bs[i];
        push_char(out, nibble_to_char(b >> 4));
        push_char(out, nibble_to_char(b & 0xf));
        proof {
            assert(bs@.take(i + 1) =~= bs@.take(i as int).push(b));
            lemma_bytes_hex_snoc(bs@.take(i as int), b);
        }
        i = i + 1;
    }
    proof {
        assert(bs@.take(bs@.len() as int) =~= bs@);
    }
}

/// A digit character is `'0'` exactly for the value zero.
proof fn lemma_nibble_char_zero(n: u8)
    ensures
        (nibble_char(n) == '0') <==> n == 0,
{
}

/// Stripping leading zeros passes over a whole zero byte.
proof fn lemma_strip_zero_byte(bs: Seq<u8>)
    requires
        bs.len() > 0,
        bs[0] == 0,
    ensures
        strip_leading_zeros(bytes_hex_chars(bs)) == strip_leading_zeros(
            bytes_hex_chars(bs.drop_first()),
        ),
{
    let s = bytes_hex_chars(bs);
    let rest = bytes_hex_chars(bs.drop_first());
    assert(0u8 >> 4 == 0) by (bit_vector);
    assert(0u8 & 0xf == 0) by (bit_vector);
    assert(byte_hex_chars(0u8) =~= seq!['0', '0']);
    assert(s =~= seq!['0', '0'] + rest);
    assert(s[0] == '0');
    assert(s.drop_first() =~= seq!['0'] + rest);
    assert(s.drop_first()[0] == '0');
    assert(s.drop_first().drop_first() =~= rest);
    assert(strip_leading_zeros(s) == strip_leading_zeros(s.drop_first()));
    assert(strip_leading_zeros(s.drop_first()) == strip_leading_zeros(
        s.drop_first().drop_first(),
    ));
}

/// Stripping leading zeros passes over any prefix of zero bytes.
proof fn lemma_strip_skip_zero_bytes(bs: Seq<u8>, i: int)
    requires
        0 <= i <= bs.len(),
        forall|k: int| 0 <= k < i ==> bs[k] == 0,
    ensures
        strip_leading_zeros(bytes_hex_chars(bs)) == strip_leading_zeros(
            bytes_hex_chars(bs.skip(i)),
        ),
    decreases i,
{
    if i > 0 {
        lemma_strip_zero_byte(bs);
        assert(bs.drop_first() =~= bs.skip(1));
        lemma_strip_skip_zero_bytes(bs.skip(1), i - 1);
        assert(bs.skip(1).skip(i - 1) =~= bs.skip(i));
    } else {
        assert(bs.skip(0) =~= bs);
    }
}

/// A sequence that does not start with `'0'` is left unchanged.
proof fn lemma_strip_nonzero_head(s: Seq<char>)
    requires
        s.len() > 0,
        s[0] != '0',
    ensures
        strip_leading_zeros(s) == s,
{
}

/// Appends the shortest hexadecimal rendering of `bs` read as a big-endian
/// number to `out`.
pub fn push_short_hex(out: &mut String, bs: &Vec<u8>)
    ensures
        final(out)@ == old(out)@ + short_hex_chars(bs@),
{
    let n = bs.len();
    let mut i0: usize = 0;
    while i0 < n && bs[i0] == 0
        invariant
            i0 <= n,
            n == bs@.len(),
            forall|k: int| 0 <= k < i0 ==> bs@[k] == 0,
        decreases n - i0,
    {
        i0 = i0 + 1;
    }
    proof {
        lemma_strip_skip_zero_bytes(bs@, i0 as int);
    }
    if i0 == n {
        proof {
            assert(bs@.skip(n as int) =~= Seq::<u8>::empty());
            assert(bytes_hex_chars(Seq::<u8>::empty()) == Seq::<char>::empty());
            assert(short_hex_chars(bs@) =~= seq!['0']);
        }
        push_char(out, '0');
        return ;
    }
    let b = bs[i0];
    let hi = b >> 4;
    let lo = b & 0xf;
    proof {
        assert(hi == 0 ==> b == lo) by (bit_vector)
            requires
                hi == b >> 4,
                lo == b & 0xf,
        ;
        assert(bs@.skip(i0 as int)[0] == b);
        assert(bs@.skip(i0 as int).drop_first() =~= bs@.skip(i0 + 1));
        assert(bytes_hex_chars(bs@.skip(i0 as int)) =~= seq![nibble_char(hi), nibble_char(lo)]
            + bytes_hex_chars(bs@.skip(i0 + 1)));
        lemma_nibble_char_zero(hi);
        lemma_nibble_char_zero(lo);
    }
    let mut start: usize = i0;
    if hi == 0 {
        // the first significant digit is the low nibble of this byte
        proof {
            let s = bytes_hex_chars(bs@.skip(i0 as int));
            assert(s[0] == '0');
            assert(s.drop_first() =~= seq![nibble_char(lo)] + bytes_hex_chars(bs@.skip(i0 + 1)));
            lemma_strip_nonzero_head(s.drop_first());
            assert(short_hex_chars(bs@) =~= seq![nibble_char(lo)] + bytes_hex_chars(
                bs@.skip(i0 + 1),
            ));
        }
        push_char(out, nibble_to_char(lo));
        start = i0 + 1;
    } else {
        proof {
            let s = bytes_hex_chars(bs@.skip(i0 as int));
            lemma_strip_nonzero_head(s);
            assert(short_hex_chars(bs@) =~= bytes_hex_chars(bs@.skip(i0 as int)));
        }
    }
    let ghost done = out@;
    let mut i: usize = start;
    while i < n
        invariant
            start <= i <= n,
            n == bs@.len(),
            out@ == done + bytes_hex_chars(bs@.subrange(start as int, i as int)),
        decreases n - i,
    {
        let c = bs[i];
        push_char(out, nibble_to_char(c >> 4));
        push_char(out, nibble_to_char(c & 0xf));
        proof {
            assert(bs@.subrange(start as int, i + 1) =~= bs@.subrange(
                start as int,
                i as int,
            ).push(c));
            lemma_bytes_hex_snoc(bs@.subrange(start as int, i as int), c);
        }
        i = i + 1;
    }
    proof {
        assert(bs@.subrange(start as int, n as int) =~= bs@.skip(start as int));
    }
}

} // verus!
