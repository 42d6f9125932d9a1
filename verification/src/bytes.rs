//! Numbers as bytes.
use vstd::prelude::*;

verus! {

/// The `n` lowest bytes of `x`, the highest of them first.
pub open spec fn be_bytes(x: nat, n: nat) -> Seq<u8>
    decreases n,
{
    if n == 0 {
        Seq::empty()
    } else {
        be_bytes(x / 256, (n - 1) as nat).push((x % 256) as u8)
    }
}

/// The `n` lowest bytes of `x`, the lowest first.
pub open spec fn le_bytes(x: nat, n: nat) -> Seq<u8>
    decreases n,
{
    if n == 0 {
        Seq::empty()
    } else {
        seq![(x % 256) as u8] + le_bytes(x / 256, (n - 1) as nat)
    }
}

/// The number of different values that `n` bytes can hold.
pub open spec fn byte_range(n: nat) -> nat
    decreases n,
{
    if n == 0 {
        1
    } else {
        256 * byte_range((n - 1) as nat)
    }
}

/// A number that fits in `n` bytes can be told from its bytes, highest first.
pub proof fn be_bytes_injective(x: nat, y: nat, n: nat)
    requires
        x < byte_range(n),
        y < byte_range(n),
        be_bytes(x, n) == be_bytes(y, n),
    ensures
        x == y,
    decreases n,
{
    if n > 0 {
        let m = (n - 1) as nat;
        assert(be_bytes(x, n).last() == (x % 256) as u8);
        assert(be_bytes(y, n).last() == (y % 256) as u8);
        assert(be_bytes(x, n).drop_last() =~= be_bytes(x / 256, m));
        assert(be_bytes(y, n).drop_last() =~= be_bytes(y / 256, m));
        be_bytes_injective(x / 256, y / 256, m);
    }
}

/// The number that the bytes spell, the lowest first.
pub open spec fn le_value(bytes: Seq<u8>) -> nat
    decreases bytes.len(),
{
    if bytes.len() == 0 {
        0
    } else {
        bytes[0] as nat + 256 * le_value(bytes.drop_first())
    }
}

/// A number that fits in `n` bytes is what its bytes, lowest first, spell.
pub proof fn le_value_of_le_bytes(x: nat, n: nat)
    requires
        x < byte_range(n),
    ensures
        le_value(le_bytes(x, n)) == x,
    decreases n,
{
    if n > 0 {
        let m = (n - 1) as nat;
        assert(le_bytes(x, n)[0] == (x % 256) as u8);
        assert(le_bytes(x, n).drop_first() =~= le_bytes(x / 256, m));
        le_value_of_le_bytes(x / 256, m);
    }
}

/// Eight bytes hold exactly the numbers of a `u64`.
pub proof fn byte_range_of_u64()
    ensures
        byte_range(8) == u64::MAX + 1,
{
    reveal_with_fuel(byte_range, 9);
}

/// `be_bytes` gives as many bytes as it is asked for.
pub proof fn be_bytes_len(x: nat, n: nat)
    ensures
        be_bytes(x, n).len() == n,
    decreases n,
{
    if n > 0 {
        be_bytes_len(x / 256, (n - 1) as nat);
    }
}

/// The eight bytes of `x`, the highest first.
pub fn u64_to_be_bytes(x: u64) -> (bytes: Vec<u8>)
    ensures
        bytes@ == be_bytes(x as nat, 8),
{
    let x6: u64 = x / 256;
    let x5: u64 = x6 / 256;
    let x4: u64 = x5 / 256;
    let x3: u64 = x4 / 256;
    let x2: u64 = x3 / 256;
    let x1: u64 = x2 / 256;
    let x0: u64 = x1 / 256;
    let bytes: Vec<u8> = vec![
        (x0 % 256) as u8,
        (x1 % 256) as u8,
        (x2 % 256) as u8,
        (x3 % 256) as u8,
        (x4 % 256) as u8,
        (x5 % 256) as u8,
        (x6 % 256) as u8,
        (x % 256) as u8,
    ];
    proof {
        reveal_with_fuel(be_bytes, 9);
    }
    assert(bytes@ =~= be_bytes(x as nat, 8));
    bytes
}

} // verus!
