//! Relational operators of constraints: their textual form, parsing, and whether a
//! constraint is violated at a given value of its expression.
use vstd::prelude::*;
use crate::error::KiwiError;
use crate::text::str_equal;

verus! {

/// The relation that a constraint `expression op 0` states.
#[derive(Debug, Clone, Copy, PartialEq, Eq, Structural)]
pub enum Relation {
    /// `<=`
    LessOrEqual,
    /// `==`
    Equal,
    /// `>=`
    GreaterOrEqual,
}

/// The textual form of a relation.
pub open spec fn relation_text(r: Relation) -> Seq<char> {
    match r {
        Relation::LessOrEqual => seq!['<', '='],
        Relation::Equal => seq!['=', '='],
        Relation::GreaterOrEqual => seq!['>', '='],
    }
}

/// The relation written as `s`, if `s` writes one.
pub open spec fn parse_relation(s: Seq<char>) -> Option<Relation> {
    if s == relation_text(Relation::Equal) {
        Some(Relation::Equal)
    } else if s == relation_text(Relation::GreaterOrEqual) {
        Some(Relation::GreaterOrEqual)
    } else if s == relation_text(Relation::LessOrEqual) {
        Some(Relation::LessOrEqual)
    } else {
        None
    }
}

impl Relation {
    /// The textual form of this relation.
    pub fn symbol(&self) -> (r: &'static str)
        ensures
            r@ == relation_text(*self),
    {
        proof {
            reveal_strlit("<=");
            reveal_strlit("==");
            reveal_strlit(">=");
            assert("<="@ =~= relation_text(Relation::LessOrEqual));
            assert("=="@ =~= relation_text(Relation::Equal));
            assert(">="@ =~= relation_text(Relation::GreaterOrEqual));
        }
        match self {
            Relation::LessOrEqual => "<=",
            Relation::Equal => "==",
            Relation::GreaterOrEqual => ">=",
        }
    }
}

/// Checks that `op` is one of the operators `==`, `>=`, `<=`.
pub fn validate_op(op: &str) -> (r: Result<(), KiwiError>)
    ensures
        parse_relation(op@) is Some ==> r is Ok,
        parse_relation(op@) is None ==> r matches Err(KiwiError::InvalidOperator),
{
    match relation_for_op(op) {
        Ok(_) => Ok(()),
        Err(e) => Err(e),
    }
}

/// The relation that `op` writes, or `InvalidOperator` if it writes none.
pub fn relation_for_op(op: &str) -> (r: Result<Relation, KiwiError>)
    ensures
        match parse_relation(op@) {
            Some(rel) => r == Ok::<Relation, KiwiError>(rel),
            None => r matches Err(KiwiError::InvalidOperator),
        },
{
    proof {
        reveal_strlit("<=");
        reveal_strlit("==");
        reveal_strlit(">=");
        assert("<="@ =~= relation_text(Relation::LessOrEqual));
        assert("=="@ =~= relation_text(Relation::Equal));
        assert(">="@ =~= relation_text(Relation::GreaterOrEqual));
    }
    if str_equal(op, "==") {
        Ok(Relation::Equal)
    } else if str_equal(op, ">=") {
        Ok(Relation::GreaterOrEqual)
    } else if str_equal(op, "<=") {
        Ok(Relation::LessOrEqual)
    } else {
        Err(KiwiError::InvalidOperator)
    }
}

/// Whether a constraint with operator text `op` is violated, given how the value of
/// its expression compares with zero: `is_zero` (equal to zero), `is_negative` (below
/// zero) and `is_positive` (above zero). An operator that writes no relation counts as
/// violated.
pub open spec fn violated_spec(op: Seq<char>, is_zero: bool, is_negative: bool, is_positive: bool) -> bool {
    match parse_relation(op) {
        Some(Relation::Equal) => !is_zero,
        Some(Relation::GreaterOrEqual) => is_negative,
        Some(Relation::LessOrEqual) => is_positive,
        None => true,
    }
}

/// Decides whether a constraint is violated; see `violated_spec`.
pub fn constraint_violated(op: &str, is_zero: bool, is_negative: bool, is_positive: bool) -> (r: bool)
    ensures
        r == violated_spec(op@, is_zero, is_negative, is_positive),
{
    match relation_for_op(op) {
        Ok(Relation::Equal) => !is_zero,
        Ok(Relation::GreaterOrEqual) => is_negative,
        Ok(Relation::LessOrEqual) => is_positive,
        Err(_) => true,
    }
}

/// Reading back the text of a relation gives the relation.
pub proof fn lemma_parse_symbol(r: Relation)
    ensures
        parse_relation(relation_text(r)) == Some(r),
{
}

/// A text that reads as a relation is that relation's text.
pub proof fn lemma_symbol_of_parse(s: Seq<char>)
    ensures
        parse_relation(s) matches Some(r) ==> relation_text(r) == s,
{
}

/// At the value zero no constraint with a valid operator is violated, and an equality is
/// violated at any value below or above zero.
pub proof fn lemma_zero_satisfies_every_relation(r: Relation)
    ensures
        !violated_spec(relation_text(r), true, false, false),
        violated_spec(relation_text(Relation::Equal), false, true, false),
        violated_spec(relation_text(Relation::Equal), false, false, true),
{
}

} // verus!
