//! Session identifiers.
//!
//! At the boundary an identifier is 16 raw bytes; inside the library it is
//! the 128-bit integer those bytes spell in big-endian order, used as the
//! sole registry key. Identifiers are supplied by the caller and never
//! generated here.

use vstd::arithmetic::power::lemma_pow_increases;
use vstd::arithmetic::power::pow;
use vstd::prelude::*;

verus! {

/// The integer a byte sequence spells in big-endian order.
pub open spec fn session_id_of(b: Seq<u8>) -> int
    decreases b.len(),
{
    if b.len() == 0 {
        0
    } else {
        session_id_of(b.drop_last()) * 256 + b.last()
    }
}

/// Reads a 16-byte identifier as the 128-bit registry key it denotes.
pub fn session_id_from_bytes(bytes: &[u8; 16]) -> (r: u128)
    ensures
        r == session_id_of(bytes@),
{
    let mut acc: u128 = 0;
    let mut i: usize = 0;
    proof {
        assert(pow(256, 0) == 1) by {
            reveal(vstd::arithmetic::power::pow);
        };
    }
    while i < 16
        invariant
            i <= 16,
            acc == session_id_of(bytes@.subrange(0, i as int)),
            acc < pow(256, i as nat),
        decreases 16 - i,
    {
        proof {
            lemma_pow_increases(256, i as nat, 15);
            assert(pow(256, 15) == 0x1000000000000000000000000000000) by {
                reveal_with_fuel(vstd::arithmetic::power::pow, 16);
            };
            assert(pow(256, (i + 1) as nat) == 256 * pow(256, i as nat)) by {
                reveal(vstd::arithmetic::power::pow);
            };
            assert(acc * 256 + bytes@[i as int] < 256 * pow(256, i as nat)) by (nonlinear_arith)
                requires
                    0 <= acc < pow(256, i as nat),
                    bytes@[i as int] < 256,
            ;
            assert(bytes@.subrange(0, (i + 1) as int).drop_last() == bytes@.subrange(0, i as int));
            assert(bytes@.subrange(0, (i + 1) as int).last() == bytes@[i as int]);
        }
        acc = acc * 256 + (bytes[i] as u128);
        i = i + 1;
    }
    proof {
        assert(bytes@.subrange(0, 16) == bytes@);
    }
    acc
}

} // verus!
