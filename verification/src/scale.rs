//! Compact numbers, as the chain encodes them.

use parity_scale_codec::{Compact, Decode};
use vstd::prelude::*;

verus! {

/// The `width` lowest bytes of `n`, the lowest first.
pub open spec fn low_bytes(n: int, width: nat) -> Seq<u8>
    decreases width,
{
    if width == 0 {
        seq![]
    } else {
        seq![(n % 256) as u8] + low_bytes(n / 256, (width - 1) as nat)
    }
}

/// How many bytes a number of at least 2^30 takes, which are four at least.
pub open spec fn wide_bytes(n: u64) -> nat {
    if n < 0x1_0000_0000 {
        4
    } else if n < 0x100_0000_0000 {
        5
    } else if n < 0x1_0000_0000_0000 {
        6
    } else if n < 0x100_0000_0000_0000 {
        7
    } else {
        8
    }
}

/// The compact encoding of `n`. The two lowest bits of the first byte tell the four forms apart:
/// one, two or four bytes whose upper bits hold the number, or a byte that tells how many more
/// than four bytes follow, and these bytes.
pub open spec fn compact_bytes(n: u64) -> Seq<u8> {
    if n < 0x40 {
        low_bytes(4 * n, 1)
    } else if n < 0x4000 {
        low_bytes(4 * n + 1, 2)
    } else if n < 0x4000_0000 {
        low_bytes(4 * n + 2, 4)
    } else {
        seq![(4 * (wide_bytes(n) - 4) + 3) as u8] + low_bytes(n as int, wide_bytes(n))
    }
}

/// The number whose compact encoding `bytes` begin with, if they do so with any.
pub open spec fn compact_value(bytes: Seq<u8>) -> Option<u64> {
    if exists|n: u64| #[trigger] compact_bytes(n).is_prefix_of(bytes) {
        Some(choose|n: u64| #[trigger] compact_bytes(n).is_prefix_of(bytes))
    } else {
        None
    }
}

/// The number whose compact encoding `bytes` begin with.
///
/// Calls `parity_scale_codec::Decode::decode` for `parity_scale_codec::Compact<u64>`. Trusted:
/// that it yields a number if and only if the bytes begin with that number's compact encoding,
/// which is the shortest one, and that it fails otherwise. Bytes past the encoding are left alone.
#[verifier::external_body]
fn decode_compact(bytes: &[u8]) -> (value: Option<u64>)
    ensures
        value matches Some(n) ==> compact_bytes(n).is_prefix_of(bytes@),
        value is None ==> forall|n: u64| !(#[trigger] compact_bytes(n).is_prefix_of(bytes@)),
{
    match Compact::<u64>::decode(&mut &bytes[..]) {
        Ok(compact) => Some(compact.0),
        Err(_) => None,
    }
}

/// The number whose compact encoding `bytes` begin with, if they do so with any.
pub fn read_compact(bytes: &[u8]) -> (value: Option<u64>)
    ensures
        value == compact_value(bytes@),
{
    let value = decode_compact(bytes);
    proof {
        if let Some(n) = value {
            law_compact_encodings_are_prefix_free(n, compact_value(bytes@)->0, bytes@);
        }
    }
    value
}

spec fn limit(width: nat) -> int
    decreases width,
{
    if width == 0 {
        1
    } else {
        256 * limit((width - 1) as nat)
    }
}

proof fn lemma_low_bytes(n: int, width: nat)
    ensures
        low_bytes(n, width).len() == width,
        width > 0 ==> low_bytes(n, width)[0] == n % 256,
    decreases width,
{
    if width > 0 {
        lemma_low_bytes(n / 256, (width - 1) as nat);
    }
}

proof fn lemma_low_bytes_injective(a: int, b: int, width: nat)
    requires
        0 <= a < limit(width),
        0 <= b < limit(width),
        low_bytes(a, width) == low_bytes(b, width),
    ensures
        a == b,
    decreases width,
{
    if width > 0 {
        let w = (width - 1) as nat;
        lemma_low_bytes(a, width);
        lemma_low_bytes(b, width);
        assert(low_bytes(a / 256, w) =~= low_bytes(a, width).drop_first());
        assert(low_bytes(b / 256, w) =~= low_bytes(b, width).drop_first());
        lemma_low_bytes_injective(a / 256, b / 256, w);
    }
}

proof fn lemma_limits()
    ensures
        limit(1) == 0x100,
        limit(2) == 0x1_0000,
        limit(4) == 0x1_0000_0000,
        limit(5) == 0x100_0000_0000,
        limit(6) == 0x1_0000_0000_0000,
        limit(7) == 0x100_0000_0000_0000,
        limit(8) == 0x1_0000_0000_0000_0000,
{
    reveal_with_fuel(limit, 9);
}

/// No compact encoding begins with another: bytes begin with the encoding of one number at most.
pub proof fn law_compact_encodings_are_prefix_free(a: u64, b: u64, bytes: Seq<u8>)
    requires
        compact_bytes(a).is_prefix_of(bytes),
        compact_bytes(b).is_prefix_of(bytes),
    ensures
        a == b,
{
    lemma_limits();
    lemma_form(a);
    lemma_form(b);
    assert(compact_bytes(a)[0] == bytes[0] && compact_bytes(b)[0] == bytes[0]);
    let la = compact_bytes(a).len();
    assert(la == compact_bytes(b).len());
    assert(compact_bytes(a) =~= bytes.take(la as int));
    assert(compact_bytes(b) =~= bytes.take(la as int));
    if a < 0x40 {
        lemma_low_bytes_injective(4 * a, 4 * b, 1);
    } else if a < 0x4000 {
        lemma_low_bytes_injective(4 * a + 1, 4 * b + 1, 2);
    } else if a < 0x4000_0000 {
        lemma_low_bytes_injective(4 * a + 2, 4 * b + 2, 4);
    } else {
        let w = wide_bytes(a);
        assert(low_bytes(a as int, w) =~= compact_bytes(a).drop_first());
        assert(low_bytes(b as int, w) =~= compact_bytes(b).drop_first());
        lemma_low_bytes_injective(a as int, b as int, w);
    }
}

/// The form of an encoding shows in its first byte.
proof fn lemma_form(n: u64)
    ensures
        compact_bytes(n).len() > 0,
        n < 0x40 ==> compact_bytes(n).len() == 1 && compact_bytes(n)[0] % 4 == 0,
        0x40 <= n < 0x4000 ==> compact_bytes(n).len() == 2 && compact_bytes(n)[0] % 4 == 1,
        0x4000 <= n < 0x4000_0000 ==> compact_bytes(n).len() == 4 && compact_bytes(n)[0] % 4 == 2,
        0x4000_0000 <= n ==> compact_bytes(n).len() == 1 + wide_bytes(n) && compact_bytes(n)[0]
            == 4 * (wide_bytes(n) - 4) + 3,
{
    lemma_low_bytes(4 * n, 1);
    lemma_low_bytes(4 * n + 1, 2);
    lemma_low_bytes(4 * n + 2, 4);
    lemma_low_bytes(n as int, wide_bytes(n));
}

/// A number is read back from its compact encoding, whatever follows it.
pub proof fn law_compact_reads_back(n: u64, rest: Seq<u8>)
    ensures
        compact_value(compact_bytes(n) + rest) == Some(n),
{
    let bytes = compact_bytes(n) + rest;
    assert(compact_bytes(n).is_prefix_of(bytes)) by {
        assert(bytes.subrange(0, compact_bytes(n).len() as int) =~= compact_bytes(n));
    }
    law_compact_encodings_are_prefix_free(n, compact_value(bytes)->0, bytes);
}

/// The number that `bytes` hold, the lowest byte first.
pub open spec fn number_of(bytes: Seq<u8>) -> int
    decreases bytes.len(),
{
    if bytes.len() == 0 {
        0
    } else {
        bytes[0] + 256 * number_of(bytes.drop_first())
    }
}

proof fn lemma_number_of_low_bytes(n: int, width: nat)
    requires
        0 <= n < limit(width),
    ensures
        number_of(low_bytes(n, width)) == n,
        low_bytes(n, width).len() == width,
    decreases width,
{
    lemma_low_bytes(n, width);
    if width > 0 {
        let w = (width - 1) as nat;
        lemma_number_of_low_bytes(n / 256, w);
        assert(low_bytes(n, width).drop_first() =~= low_bytes(n / 256, w));
    }
}

/// How a number is encoded, read as numbers with the lowest byte first: four times the number in
/// one byte, that plus one in two bytes, or that plus two in four bytes, whichever is the first to
/// have room; and else the number itself, in the fewest bytes that hold it, after a byte that is
/// three plus four times how many more than four these are.
pub proof fn law_compact_forms(n: u64)
    ensures
        n < 64 ==> compact_bytes(n).len() == 1 && number_of(compact_bytes(n)) == 4 * n,
        64 <= n < 16_384 ==> compact_bytes(n).len() == 2 && number_of(compact_bytes(n)) == 4 * n
            + 1,
        16_384 <= n < 1_073_741_824 ==> compact_bytes(n).len() == 4 && number_of(compact_bytes(n))
            == 4 * n + 2,
        1_073_741_824 <= n ==> {
            &&& 5 <= compact_bytes(n).len() <= 9
            &&& compact_bytes(n)[0] == 3 + 4 * (compact_bytes(n).len() - 5)
            &&& number_of(compact_bytes(n).drop_first()) == n
            &&& compact_bytes(n).len() > 5 ==> compact_bytes(n).last() > 0
        },
{
    lemma_limits();
    if n < 64 {
        lemma_number_of_low_bytes(4 * n, 1);
    } else if n < 16_384 {
        lemma_number_of_low_bytes(4 * n + 1, 2);
    } else if n < 1_073_741_824 {
        lemma_number_of_low_bytes(4 * n + 2, 4);
    } else {
        let w = wide_bytes(n);
        lemma_number_of_low_bytes(n as int, w);
        lemma_form(n);
        assert(compact_bytes(n).drop_first() =~= low_bytes(n as int, w));
        if w > 4 {
            lemma_last_byte(n as int, w);
            assert(compact_bytes(n).last() == low_bytes(n as int, w).last());
        }
    }
}

/// A number that needs all of its bytes has a last byte other than zero.
proof fn lemma_last_byte(n: int, width: nat)
    requires
        width > 0,
        limit((width - 1) as nat) <= n < limit(width),
    ensures
        low_bytes(n, width).len() == width,
        low_bytes(n, width).last() > 0,
    decreases width,
{
    lemma_low_bytes(n, width);
    if width > 1 {
        let w = (width - 1) as nat;
        lemma_last_byte(n / 256, w);
        assert(low_bytes(n, width).last() == low_bytes(n / 256, w).last());
    } else {
        reveal_with_fuel(limit, 2);
    }
}

/// A number is read if and only if the bytes begin with its encoding.
pub proof fn law_compact_value_is_what_is_encoded(bytes: Seq<u8>, n: u64)
    ensures
        compact_value(bytes) == Some(n) <==> compact_bytes(n).is_prefix_of(bytes),
{
    if compact_bytes(n).is_prefix_of(bytes) {
        law_compact_encodings_are_prefix_free(n, compact_value(bytes)->0, bytes);
    }
}

} // verus!
