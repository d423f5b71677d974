//! What the contracts share: plain-value handles for Soroban addresses and symbols, the
//! packing of two handles into one map key, and the token payments a contract asks the
//! host to make.
use vstd::prelude::*;

verus! {

/// A handle standing for one Soroban address (an account or a contract). Two handles are
/// equal exactly when they stand for the same address.
pub type Addr = u64;

/// A handle standing for one Soroban symbol (a role name, an asset name).
pub type Sym = u64;

/// Whether `x` is representable as an `i128`.
pub open spec fn fits_i128(x: int) -> bool {
    i128::MIN <= x <= i128::MAX
}

/// A token movement that the host carries out by calling `transfer` on the token
/// contract at `token`.
#[derive(Copy, Clone, Debug, PartialEq, Eq, Structural)]
pub enum Payment {
    /// `from` pays `amount` into the calling contract's custody.
    In { token: Addr, from: Addr, amount: i128 },
    /// The calling contract pays `amount` out of its custody to `to`.
    Out { token: Addr, to: Addr, amount: i128 },
}

/// The key under which the pair `(a, b)` is stored: `a` in the high 64 bits, `b` in the low.
pub open spec fn spec_pair_key(a: u64, b: u64) -> u128 {
    (a as int * 0x1_0000_0000_0000_0000int + b as int) as u128
}

/// Packs two handles into one map key.
pub fn pair_key(a: u64, b: u64) -> (k: u128)
    ensures
        k == spec_pair_key(a, b),
{
    (a as u128) * 0x1_0000_0000_0000_0000u128 + (b as u128)
}

/// Distinct pairs have distinct keys.
pub proof fn lemma_pair_key_injective(a: u64, b: u64, c: u64, d: u64)
    ensures
        spec_pair_key(a, b) == spec_pair_key(c, d) ==> a == c && b == d,
{
    let ka = a as int * 0x1_0000_0000_0000_0000int + b as int;
    let kc = c as int * 0x1_0000_0000_0000_0000int + d as int;
    assert(0 <= ka < 0x1_0000_0000_0000_0000_0000_0000_0000_0000int) by (nonlinear_arith)
        requires ka == a as int * 0x1_0000_0000_0000_0000int + b as int, 0 <= a < 0x1_0000_0000_0000_0000int, 0 <= b < 0x1_0000_0000_0000_0000int;
    assert(0 <= kc < 0x1_0000_0000_0000_0000_0000_0000_0000_0000int) by (nonlinear_arith)
        requires kc == c as int * 0x1_0000_0000_0000_0000int + d as int, 0 <= c < 0x1_0000_0000_0000_0000int, 0 <= d < 0x1_0000_0000_0000_0000int;
    if spec_pair_key(a, b) == spec_pair_key(c, d) {
        assert(ka == kc);
        assert(a == c && b == d) by (nonlinear_arith)
            requires ka == kc, ka == a as int * 0x1_0000_0000_0000_0000int + b as int,
                kc == c as int * 0x1_0000_0000_0000_0000int + d as int,
                0 <= b < 0x1_0000_0000_0000_0000int, 0 <= d < 0x1_0000_0000_0000_0000int;
    }
}

/// A map keyed by packed pairs, seen as a map keyed by the pairs themselves.
pub open spec fn pair_view<V>(m: Map<u128, V>) -> Map<(u64, u64), V> {
    Map::new(
        |k: (u64, u64)| m.contains_key(spec_pair_key(k.0, k.1)),
        |k: (u64, u64)| m[spec_pair_key(k.0, k.1)],
    )
}

/// Storing under the packed key of `(a, b)` stores under `(a, b)` in the pair view.
pub proof fn lemma_pair_view_insert<V>(m: Map<u128, V>, a: u64, b: u64, v: V)
    ensures
        pair_view(m.insert(spec_pair_key(a, b), v)) == pair_view(m).insert((a, b), v),
{
    assert forall|k: (u64, u64)| #![trigger pair_view(m).insert((a, b), v).contains_key(k)]
        pair_view(m.insert(spec_pair_key(a, b), v)).contains_key(k)
            == pair_view(m).insert((a, b), v).contains_key(k) by {
        lemma_pair_key_injective(k.0, k.1, a, b);
    }
    assert forall|k: (u64, u64)| #![trigger pair_view(m).insert((a, b), v)[k]]
        pair_view(m).insert((a, b), v).contains_key(k) implies
        pair_view(m.insert(spec_pair_key(a, b), v))[k] == pair_view(m).insert((a, b), v)[k] by {
        lemma_pair_key_injective(k.0, k.1, a, b);
    }
    assert(pair_view(m.insert(spec_pair_key(a, b), v)) =~= pair_view(m).insert((a, b), v));
}

} // verus!
