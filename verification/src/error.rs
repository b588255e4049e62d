//! The failures the library reports, the names of the exception types that carry
//! them, and the translation of the solver back end's refusals into them.
use vstd::prelude::*;
use cassowary::{
    AddConstraintError, AddEditVariableError, RemoveConstraintError, RemoveEditVariableError,
    SuggestValueError,
};

verus! {

// The refusals of the Cassowary solver are plain enums with public variants; they are
// declared with their variants visible so that verified code can translate them.
/// Why `cassowary::Solver::add_constraint` refused.
#[verifier::external_type_specification]
pub struct ExAddConstraintError(AddConstraintError);

/// Why `cassowary::Solver::remove_constraint` refused.
#[verifier::external_type_specification]
pub struct ExRemoveConstraintError(RemoveConstraintError);

/// Why `cassowary::Solver::add_edit_variable` refused.
#[verifier::external_type_specification]
pub struct ExAddEditVariableError(AddEditVariableError);

/// Why `cassowary::Solver::remove_edit_variable` refused.
#[verifier::external_type_specification]
pub struct ExRemoveEditVariableError(RemoveEditVariableError);

/// Why `cassowary::Solver::suggest_value` refused.
#[verifier::external_type_specification]
pub struct ExSuggestValueError(SuggestValueError);

/// Every failure the library reports.
#[derive(Debug, Clone, Copy)]
pub enum KiwiError {
    /// A constraint was added twice.
    DuplicateConstraint,
    /// A required constraint contradicts the required constraints already present.
    UnsatisfiableConstraint,
    /// A constraint that is not in the solver was to be removed.
    UnknownConstraint,
    /// A variable was made an edit variable twice.
    DuplicateEditVariable,
    /// An edit variable was expected where there is none.
    UnknownEditVariable,
    /// An edit variable was given the required strength.
    BadRequiredStrength,
    /// A relational operator other than `==`, `>=` or `<=`.
    InvalidOperator,
    /// A strength name other than `weak`, `medium`, `strong` or `required`.
    InvalidStrengthName,
    /// The solver back end reached an inconsistent state; the detail says where.
    InternalSolverError(&'static str),
}

/// The kiwisolver exception types, in the order in which they are registered.
pub open spec fn exception_name_list() -> Seq<Seq<char>> {
    seq![
        seq!['B', 'a', 'd', 'R', 'e', 'q', 'u', 'i', 'r', 'e', 'd', 'S', 't', 'r', 'e', 'n', 'g', 't', 'h'],
        seq!['D', 'u', 'p', 'l', 'i', 'c', 'a', 't', 'e', 'C', 'o', 'n', 's', 't', 'r', 'a', 'i', 'n', 't'],
        seq!['D', 'u', 'p', 'l', 'i', 'c', 'a', 't', 'e', 'E', 'd', 'i', 't', 'V', 'a', 'r', 'i', 'a', 'b', 'l', 'e'],
        seq!['U', 'n', 'k', 'n', 'o', 'w', 'n', 'C', 'o', 'n', 's', 't', 'r', 'a', 'i', 'n', 't'],
        seq!['U', 'n', 'k', 'n', 'o', 'w', 'n', 'E', 'd', 'i', 't', 'V', 'a', 'r', 'i', 'a', 'b', 'l', 'e'],
        seq!['U', 'n', 's', 'a', 't', 'i', 's', 'f', 'i', 'a', 'b', 'l', 'e', 'C', 'o', 'n', 's', 't', 'r', 'a', 'i', 'n', 't'],
    ]
}

/// The name of the kiwisolver exception type that reports `e`, by its index in
/// `exception_name_list`; `None` for the failures reported by a built-in exception type.
pub open spec fn exception_index(e: KiwiError) -> Option<int> {
    match e {
        KiwiError::BadRequiredStrength => Some(0),
        KiwiError::DuplicateConstraint => Some(1),
        KiwiError::DuplicateEditVariable => Some(2),
        KiwiError::UnknownConstraint => Some(3),
        KiwiError::UnknownEditVariable => Some(4),
        KiwiError::UnsatisfiableConstraint => Some(5),
        _ => None,
    }
}

/// The names of the kiwisolver exception types, in the order in which they are registered.
pub fn exception_names() -> (r: Vec<&'static str>)
    ensures
        r@.len() == exception_name_list().len(),
        forall|i: int| 0 <= i < r@.len() ==> #[trigger] r@[i]@ == exception_name_list()[i],
{
    let mut r: Vec<&'static str> = Vec::new();
    r.push(KiwiError::BadRequiredStrength.exception_name().unwrap());
    r.push(KiwiError::DuplicateConstraint.exception_name().unwrap());
    r.push(KiwiError::DuplicateEditVariable.exception_name().unwrap());
    r.push(KiwiError::UnknownConstraint.exception_name().unwrap());
    r.push(KiwiError::UnknownEditVariable.exception_name().unwrap());
    r.push(KiwiError::UnsatisfiableConstraint.exception_name().unwrap());
    r
}

impl KiwiError {
    /// The name of the kiwisolver exception type that reports this failure, or `None`
    /// where a built-in exception type reports it.
    pub fn exception_name(&self) -> (r: Option<&'static str>)
        ensures
            match exception_index(*self) {
                Some(i) => r is Some && r->0@ == exception_name_list()[i],
                None => r is None,
            },
    {
        proof {
            reveal_strlit("BadRequiredStrength");
            reveal_strlit("DuplicateConstraint");
            reveal_strlit("DuplicateEditVariable");
            reveal_strlit("UnknownConstraint");
            reveal_strlit("UnknownEditVariable");
            reveal_strlit("UnsatisfiableConstraint");
        }
        match self {
            KiwiError::BadRequiredStrength => Some("BadRequiredStrength"),
            KiwiError::DuplicateConstraint => Some("DuplicateConstraint"),
            KiwiError::DuplicateEditVariable => Some("DuplicateEditVariable"),
            KiwiError::UnknownConstraint => Some("UnknownConstraint"),
            KiwiError::UnknownEditVariable => Some("UnknownEditVariable"),
            KiwiError::UnsatisfiableConstraint => Some("UnsatisfiableConstraint"),
            _ => None,
        }
    }
}

/// The message that a failure carries when the exception that reports it takes a
/// message; `None` for the failures whose exception carries the offending constraint
/// or variable instead.
pub open spec fn error_message(e: KiwiError) -> Option<Seq<char>> {
    match e {
        KiwiError::InternalSolverError(detail) => Some("internal solver error: "@ + detail@),
        KiwiError::InvalidOperator => Some("constraint operator must be one of ==, >=, <="@),
        KiwiError::InvalidStrengthName => Some("invalid strength name"@),
        KiwiError::BadRequiredStrength => Some("edit variable strength cannot be required"@),
        _ => None,
    }
}

impl KiwiError {
    /// The message of this failure; see `error_message`.
    pub fn message(&self) -> (r: Option<String>)
        ensures
            match error_message(*self) {
                Some(m) => r is Some && r->0@ == m,
                None => r is None,
            },
    {
        match self {
            KiwiError::InternalSolverError(detail) => {
                let mut m = String::from_str("internal solver error: ");
                m.append(detail);
                Some(m)
            },
            KiwiError::InvalidOperator => Some(String::from_str("constraint operator must be one of ==, >=, <=")),
            KiwiError::InvalidStrengthName => Some(String::from_str("invalid strength name")),
            KiwiError::BadRequiredStrength => Some(String::from_str("edit variable strength cannot be required")),
            _ => None,
        }
    }
}

/// The failure reported when the solver back end refuses a constraint.
pub open spec fn add_constraint_failure(e: AddConstraintError) -> KiwiError {
    match e {
        AddConstraintError::DuplicateConstraint => KiwiError::DuplicateConstraint,
        AddConstraintError::UnsatisfiableConstraint => KiwiError::UnsatisfiableConstraint,
        AddConstraintError::InternalSolverError(detail) => KiwiError::InternalSolverError(detail),
    }
}

/// The failure reported when the solver back end refuses to remove a constraint.
pub open spec fn remove_constraint_failure(e: RemoveConstraintError) -> KiwiError {
    match e {
        RemoveConstraintError::UnknownConstraint => KiwiError::UnknownConstraint,
        RemoveConstraintError::InternalSolverError(detail) => KiwiError::InternalSolverError(detail),
    }
}

/// The failure reported when the solver back end refuses an edit variable.
pub open spec fn add_edit_variable_failure(e: AddEditVariableError) -> KiwiError {
    match e {
        AddEditVariableError::DuplicateEditVariable => KiwiError::DuplicateEditVariable,
        AddEditVariableError::BadRequiredStrength => KiwiError::BadRequiredStrength,
    }
}

/// The failure reported when the solver back end refuses to remove an edit variable.
pub open spec fn remove_edit_variable_failure(e: RemoveEditVariableError) -> KiwiError {
    match e {
        RemoveEditVariableError::UnknownEditVariable => KiwiError::UnknownEditVariable,
        RemoveEditVariableError::InternalSolverError(detail) => KiwiError::InternalSolverError(detail),
    }
}

/// The failure reported when the solver back end refuses a suggested value.
pub open spec fn suggest_value_failure(e: SuggestValueError) -> KiwiError {
    match e {
        SuggestValueError::UnknownEditVariable => KiwiError::UnknownEditVariable,
        SuggestValueError::InternalSolverError(detail) => KiwiError::InternalSolverError(detail),
    }
}

/// Translates a refusal of `add_constraint` by the solver back end.
pub fn map_add_constraint_error(err: AddConstraintError) -> (r: KiwiError)
    ensures
        r == add_constraint_failure(err),
{
    match err {
        AddConstraintError::DuplicateConstraint => KiwiError::DuplicateConstraint,
        AddConstraintError::UnsatisfiableConstraint => KiwiError::UnsatisfiableConstraint,
        AddConstraintError::InternalSolverError(detail) => KiwiError::InternalSolverError(detail),
    }
}

/// Translates a refusal of `remove_constraint` by the solver back end.
pub fn map_remove_constraint_error(err: RemoveConstraintError) -> (r: KiwiError)
    ensures
        r == remove_constraint_failure(err),
{
    match err {
        RemoveConstraintError::UnknownConstraint => KiwiError::UnknownConstraint,
        RemoveConstraintError::InternalSolverError(detail) => KiwiError::InternalSolverError(detail),
    }
}

/// Translates a refusal of `add_edit_variable` by the solver back end.
pub fn map_add_edit_variable_error(err: AddEditVariableError) -> (r: KiwiError)
    ensures
        r == add_edit_variable_failure(err),
{
    match err {
        AddEditVariableError::DuplicateEditVariable => KiwiError::DuplicateEditVariable,
        AddEditVariableError::BadRequiredStrength => KiwiError::BadRequiredStrength,
    }
}

/// Translates a refusal of `remove_edit_variable` by the solver back end.
pub fn map_remove_edit_variable_error(err: RemoveEditVariableError) -> (r: KiwiError)
    ensures
        r == remove_edit_variable_failure(err),
{
    match err {
        RemoveEditVariableError::UnknownEditVariable => KiwiError::UnknownEditVariable,
        RemoveEditVariableError::InternalSolverError(detail) => KiwiError::InternalSolverError(detail),
    }
}

/// Translates a refusal of `suggest_value` by the solver back end.
pub fn map_suggest_value_error(err: SuggestValueError) -> (r: KiwiError)
    ensures
        r == suggest_value_failure(err),
{
    match err {
        SuggestValueError::UnknownEditVariable => KiwiError::UnknownEditVariable,
        SuggestValueError::InternalSolverError(detail) => KiwiError::InternalSolverError(detail),
    }
}

/// A failure is reported: by a registered exception type, or with a message.
pub open spec fn reported(e: KiwiError) -> bool {
    ||| (exception_index(e) matches Some(i) && 0 <= i < exception_name_list().len())
    ||| error_message(e) is Some
}

/// Every failure is reported, by a registered kiwisolver exception type or with a message.
pub proof fn lemma_every_failure_is_reported(e: KiwiError)
    ensures
        reported(e),
{
}

} // verus!
