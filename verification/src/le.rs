//! Little-endian integers.

use vstd::prelude::*;

verus! {

/// The number that little-endian bytes stand for.
pub open spec fn le_value(bytes: Seq<u8>) -> nat
    decreases bytes.len(),
{
    if bytes.len() == 0 {
        0
    } else {
        bytes[0] as nat + 256 * le_value(bytes.skip(1))
    }
}

/// The `n` lowest bytes of a number, the lowest first.
pub open spec fn le_bytes(x: nat, n: nat) -> Seq<u8>
    decreases n,
{
    if n == 0 {
        Seq::empty()
    } else {
        seq![(x % 256) as u8] + le_bytes(x / 256, (n - 1) as nat)
    }
}

/// How many numbers `n` bytes can stand for.
pub open spec fn le_limit(n: nat) -> nat
    decreases n,
{
    if n == 0 {
        1
    } else {
        256 * le_limit((n - 1) as nat)
    }
}

/// `n` bytes stand for a number below the limit of `n` bytes.
pub proof fn lemma_le_value_bound(bytes: Seq<u8>)
    ensures
        le_value(bytes) < le_limit(bytes.len()),
    decreases bytes.len(),
{
    if bytes.len() > 0 {
        lemma_le_value_bound(bytes.skip(1));
    }
}

/// There are `n` lowest bytes.
pub proof fn lemma_le_bytes_len(x: nat, n: nat)
    ensures
        le_bytes(x, n).len() == n,
    decreases n,
{
    if n > 0 {
        lemma_le_bytes_len(x / 256, (n - 1) as nat);
    }
}

/// What is written as `n` little-endian bytes reads back as itself, if it fits into them.
pub proof fn law_le_bytes_read_back(x: nat, n: nat)
    requires
        x < le_limit(n),
    ensures
        le_value(le_bytes(x, n)) == x,
    decreases n,
{
    if n > 0 {
        law_le_bytes_read_back(x / 256, (n - 1) as nat);
        assert(le_bytes(x, n).skip(1) =~= le_bytes(x / 256, (n - 1) as nat));
    }
}

/// The limits of the sizes that a `u64` can hold.
proof fn lemma_le_limits()
    ensures
        le_limit(1) == 0x100,
        le_limit(2) == 0x1_0000,
        le_limit(3) == 0x100_0000,
        le_limit(4) == 0x1_0000_0000,
        le_limit(5) == 0x100_0000_0000,
        le_limit(6) == 0x1_0000_0000_0000,
        le_limit(7) == 0x100_0000_0000_0000,
        le_limit(8) == 0x1_0000_0000_0000_0000,
{
    reveal_with_fuel(le_limit, 9);
}

/// Reads the number that stands in `n` bytes from `at` on.
fn read_le(bytes: &[u8], at: usize, n: usize) -> (r: u64)
    requires
        n <= 8,
        at + n <= bytes@.len(),
    ensures
        r == le_value(bytes@.subrange(at as int, at + n)),
        r < le_limit(n as nat),
{
    let end: usize = bytes.len();
    let mut value: u64 = 0;
    let mut i: usize = n;
    while i > 0
        invariant
            i <= n <= 8,
            at + n <= end == bytes@.len(),
            value == le_value(bytes@.subrange(at + i, at + n)),
        decreases i,
    {
        i = i - 1;
        proof {
            let part = bytes@.subrange(at + i, at + n);
            assert(part.skip(1) =~= bytes@.subrange(at + i + 1, at + n));
            lemma_le_value_bound(part);
            lemma_le_limits();
        }
        value = bytes[at + i] as u64 + 256 * value;
    }
    proof {
        lemma_le_value_bound(bytes@.subrange(at as int, at + n));
    }
    value
}

/// Reads a `u32` from four bytes.
pub fn read_le32(bytes: &[u8], at: usize) -> (r: u32)
    requires
        at + 4 <= bytes@.len(),
    ensures
        r == le_value(bytes@.subrange(at as int, at + 4)),
{
    let value: u64 = read_le(bytes, at, 4);
    proof {
        lemma_le_limits();
    }
    value as u32
}

/// Reads a `u64` from eight bytes.
pub fn read_le64(bytes: &[u8], at: usize) -> (r: u64)
    requires
        at + 8 <= bytes@.len(),
    ensures
        r == le_value(bytes@.subrange(at as int, at + 8)),
{
    read_le(bytes, at, 8)
}

/// Appends the `n` lowest bytes of a number, the lowest first.
pub fn push_le(out: &mut Vec<u8>, x: u64, n: usize)
    ensures
        final(out)@ == old(out)@ + le_bytes(x as nat, n as nat),
{
    let mut rest: u64 = x;
    let mut left: usize = n;
    while left > 0
        invariant
            out@ + le_bytes(rest as nat, left as nat) == old(out)@ + le_bytes(x as nat, n as nat),
        decreases left,
    {
        proof {
            assert(out@.push((rest % 256) as u8) + le_bytes(rest as nat / 256, (left - 1) as nat)
                =~= out@ + le_bytes(rest as nat, left as nat));
        }
        out.push((rest % 256) as u8);
        rest = rest / 256;
        left = left - 1;
    }
    assert(out@ + le_bytes(rest as nat, 0) =~= out@);
}

/// The lowest byte comes first: each further byte counts 256 times as much.
pub proof fn law_le_value_is_positional(bytes: Seq<u8>)
    ensures
        bytes.len() == 2 ==> le_value(bytes) == bytes[0] + 0x100 * bytes[1],
        bytes.len() == 4 ==> le_value(bytes) == bytes[0] + 0x100 * bytes[1] + 0x1_0000 * bytes[2]
            + 0x100_0000 * bytes[3],
        bytes.len() == 8 ==> le_value(bytes) == bytes[0] + 0x100 * bytes[1] + 0x1_0000 * bytes[2]
            + 0x100_0000 * bytes[3] + 0x1_0000_0000 * bytes[4] + 0x100_0000_0000 * bytes[5]
            + 0x1_0000_0000_0000 * bytes[6] + 0x100_0000_0000_0000 * bytes[7],
{
    assert(bytes.skip(0) =~= bytes);
    if bytes.len() == 2 || bytes.len() == 4 || bytes.len() == 8 {
        lemma_le_value_from(bytes, 0);
        lemma_le_value_from(bytes, 1);
        lemma_le_value_from(bytes, 2);
    }
    if bytes.len() == 4 || bytes.len() == 8 {
        lemma_le_value_from(bytes, 3);
        lemma_le_value_from(bytes, 4);
    }
    if bytes.len() == 8 {
        lemma_le_value_from(bytes, 5);
        lemma_le_value_from(bytes, 6);
        lemma_le_value_from(bytes, 7);
        lemma_le_value_from(bytes, 8);
    }
}

/// The number from a byte on.
proof fn lemma_le_value_from(bytes: Seq<u8>, k: int)
    requires
        0 <= k <= bytes.len(),
    ensures
        le_value(bytes.skip(k)) == (if k == bytes.len() {
            0
        } else {
            bytes[k] as nat + 256 * le_value(bytes.skip(k + 1))
        }),
{
    if k < bytes.len() {
        assert(bytes.skip(k).skip(1) =~= bytes.skip(k + 1));
    }
}

/// The first of the lowest bytes is the remainder by 256, and the others are those of the quotient.
pub proof fn law_le_bytes_are_positional(x: nat, n: nat)
    requires
        n > 0,
    ensures
        le_bytes(x, n).len() == n,
        le_bytes(x, n)[0] == x % 256,
        le_bytes(x, n).skip(1) == le_bytes(x / 256, (n - 1) as nat),
{
    lemma_le_bytes_len(x, n);
    assert(le_bytes(x, n).skip(1) =~= le_bytes(x / 256, (n - 1) as nat));
}

} // verus!
