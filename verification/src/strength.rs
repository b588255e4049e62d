//! Constraint strengths: the predefined levels, their names, and how a composite
//! strength is built from them.
use vstd::prelude::*;
use crate::error::KiwiError;
use crate::text::str_equal;

verus! {

/// The strength of a constraint that must hold.
pub const REQUIRED: u64 = 1_001_001_000;
/// The predefined strong strength.
pub const STRONG: u64 = 1_000_000;
/// The predefined medium strength.
pub const MEDIUM: u64 = 1_000;
/// The predefined weak strength.
pub const WEAK: u64 = 1;

/// The largest component of a composite strength.
pub const MAX_COMPONENT: u64 = 1000;

/// The composite strength with components `a` (strong), `b` (medium) and `c` (weak),
/// scaled by `weight`.
pub open spec fn composite(a: int, b: int, c: int, weight: int) -> int {
    (a * STRONG + b * MEDIUM + c * WEAK) * weight
}

/// The strength that a name denotes, if it denotes one.
pub open spec fn named_strength(name: Seq<char>) -> Option<u64> {
    if name == seq!['w', 'e', 'a', 'k'] {
        Some(WEAK)
    } else if name == seq!['m', 'e', 'd', 'i', 'u', 'm'] {
        Some(MEDIUM)
    } else if name == seq!['s', 't', 'r', 'o', 'n', 'g'] {
        Some(STRONG)
    } else if name == seq!['r', 'e', 'q', 'u', 'i', 'r', 'e', 'd'] {
        Some(REQUIRED)
    } else {
        None
    }
}

/// The predefined strengths.
pub struct Strength;

impl Strength {
    /// The weak strength.
    pub fn weak(&self) -> (r: u64)
        ensures
            r == WEAK,
    {
        WEAK
    }

    /// The medium strength.
    pub fn medium(&self) -> (r: u64)
        ensures
            r == MEDIUM,
    {
        MEDIUM
    }

    /// The strong strength.
    pub fn strong(&self) -> (r: u64)
        ensures
            r == STRONG,
    {
        STRONG
    }

    /// The required strength.
    pub fn required(&self) -> (r: u64)
        ensures
            r == REQUIRED,
    {
        REQUIRED
    }
}

/// The strength that `name` denotes, or `InvalidStrengthName`.
pub fn strength_for_name(name: &str) -> (r: Result<u64, KiwiError>)
    ensures
        match named_strength(name@) {
            Some(s) => r == Ok::<u64, KiwiError>(s),
            None => r matches Err(KiwiError::InvalidStrengthName),
        },
{
    proof {
        reveal_strlit("weak");
        reveal_strlit("medium");
        reveal_strlit("strong");
        reveal_strlit("required");
        assert("weak"@ =~= seq!['w', 'e', 'a', 'k']);
        assert("medium"@ =~= seq!['m', 'e', 'd', 'i', 'u', 'm']);
        assert("strong"@ =~= seq!['s', 't', 'r', 'o', 'n', 'g']);
        assert("required"@ =~= seq!['r', 'e', 'q', 'u', 'i', 'r', 'e', 'd']);
    }
    if str_equal(name, "weak") {
        Ok(WEAK)
    } else if str_equal(name, "medium") {
        Ok(MEDIUM)
    } else if str_equal(name, "strong") {
        Ok(STRONG)
    } else if str_equal(name, "required") {
        Ok(REQUIRED)
    } else {
        Err(KiwiError::InvalidStrengthName)
    }
}

/// The predefined strengths are strictly ordered: weak < medium < strong < required.
pub proof fn lemma_strengths_ordered()
    ensures
        0 < WEAK < MEDIUM < STRONG < REQUIRED,
{
}

/// The required strength is the composite of the largest components at unit weight,
/// and no composite of components within `[0, MAX_COMPONENT]` at unit weight exceeds it.
pub proof fn lemma_required_is_largest_composite(a: int, b: int, c: int)
    requires
        0 <= a <= MAX_COMPONENT,
        0 <= b <= MAX_COMPONENT,
        0 <= c <= MAX_COMPONENT,
    ensures
        composite(MAX_COMPONENT as int, MAX_COMPONENT as int, MAX_COMPONENT as int, 1) == REQUIRED,
        0 <= composite(a, b, c, 1) <= REQUIRED,
{
    assert(0 <= a * STRONG <= MAX_COMPONENT * STRONG) by (nonlinear_arith)
        requires 0 <= a <= MAX_COMPONENT;
    assert(0 <= b * MEDIUM <= MAX_COMPONENT * MEDIUM) by (nonlinear_arith)
        requires 0 <= b <= MAX_COMPONENT;
}

} // verus!
