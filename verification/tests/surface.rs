use cassowary::{
    AddConstraintError, AddEditVariableError, RemoveConstraintError, RemoveEditVariableError,
    SuggestValueError,
};
use kiwisolver::error::{
    exception_names, map_add_constraint_error, map_add_edit_variable_error,
    map_remove_constraint_error, map_remove_edit_variable_error, map_suggest_value_error,
    KiwiError,
};
use kiwisolver::relation::{constraint_violated, relation_for_op, validate_op, Relation};
use kiwisolver::strength::{strength_for_name, Strength, MEDIUM, REQUIRED, STRONG, WEAK};
use kiwisolver::text::{push_decimal, str_equal};
use kiwisolver::variable::variable_repr;

#[test]
fn operators_are_validated() {
    assert!(validate_op("==").is_ok());
    assert!(validate_op(">=").is_ok());
    assert!(validate_op("<=").is_ok());
    assert!(matches!(validate_op("<"), Err(KiwiError::InvalidOperator)));
    assert!(matches!(validate_op("!="), Err(KiwiError::InvalidOperator)));
    assert!(matches!(validate_op(""), Err(KiwiError::InvalidOperator)));
    assert!(matches!(validate_op("==="), Err(KiwiError::InvalidOperator)));
}

#[test]
fn operators_map_to_relations_and_back() {
    assert_eq!(relation_for_op("==").unwrap(), Relation::Equal);
    assert_eq!(relation_for_op(">=").unwrap(), Relation::GreaterOrEqual);
    assert_eq!(relation_for_op("<=").unwrap(), Relation::LessOrEqual);
    assert!(matches!(relation_for_op("=>"), Err(KiwiError::InvalidOperator)));
    for r in [Relation::Equal, Relation::GreaterOrEqual, Relation::LessOrEqual] {
        assert_eq!(relation_for_op(r.symbol()).unwrap(), r);
    }
    assert_eq!(Relation::LessOrEqual.symbol(), "<=");
}

#[test]
fn violation_follows_the_operator() {
    // value == 0
    assert!(!constraint_violated("==", true, false, false));
    assert!(!constraint_violated(">=", true, false, false));
    assert!(!constraint_violated("<=", true, false, false));
    // value < 0
    assert!(constraint_violated("==", false, true, false));
    assert!(constraint_violated(">=", false, true, false));
    assert!(!constraint_violated("<=", false, true, false));
    // value > 0
    assert!(constraint_violated("==", false, false, true));
    assert!(!constraint_violated(">=", false, false, true));
    assert!(constraint_violated("<=", false, false, true));
    // an operator that is not one
    assert!(constraint_violated("<", true, false, false));
}

#[test]
fn strength_names_resolve() {
    assert_eq!(strength_for_name("weak").unwrap(), 1);
    assert_eq!(strength_for_name("medium").unwrap(), 1_000);
    assert_eq!(strength_for_name("strong").unwrap(), 1_000_000);
    assert_eq!(strength_for_name("required").unwrap(), 1_001_001_000);
    assert!(matches!(strength_for_name("Weak"), Err(KiwiError::InvalidStrengthName)));
    assert!(matches!(strength_for_name("very strong"), Err(KiwiError::InvalidStrengthName)));
}

#[test]
fn predefined_strengths() {
    let s = Strength;
    assert_eq!(s.weak(), WEAK);
    assert_eq!(s.medium(), MEDIUM);
    assert_eq!(s.strong(), STRONG);
    assert_eq!(s.required(), REQUIRED);
    assert!(WEAK < MEDIUM && MEDIUM < STRONG && STRONG < REQUIRED);
    assert_eq!(1000 * STRONG + 1000 * MEDIUM + 1000 * WEAK, REQUIRED);
    assert_eq!(s.required() as f64, cassowary::strength::REQUIRED);
    assert_eq!(s.strong() as f64, cassowary::strength::STRONG);
    assert_eq!(s.medium() as f64, cassowary::strength::MEDIUM);
    assert_eq!(s.weak() as f64, cassowary::strength::WEAK);
}

#[test]
fn exception_names_are_registered_in_order() {
    assert_eq!(
        exception_names(),
        vec![
            "BadRequiredStrength",
            "DuplicateConstraint",
            "DuplicateEditVariable",
            "UnknownConstraint",
            "UnknownEditVariable",
            "UnsatisfiableConstraint",
        ]
    );
    let names = exception_names();
    for e in [
        KiwiError::BadRequiredStrength,
        KiwiError::DuplicateConstraint,
        KiwiError::DuplicateEditVariable,
        KiwiError::UnknownConstraint,
        KiwiError::UnknownEditVariable,
        KiwiError::UnsatisfiableConstraint,
    ] {
        assert!(names.contains(&e.exception_name().unwrap()));
    }
    assert_eq!(KiwiError::InvalidOperator.exception_name(), None);
    assert_eq!(KiwiError::InternalSolverError("x").exception_name(), None);
}

#[test]
fn failure_messages() {
    assert_eq!(
        KiwiError::InternalSolverError("Failed to find leaving row.").message().unwrap(),
        "internal solver error: Failed to find leaving row."
    );
    assert_eq!(
        KiwiError::InvalidOperator.message().unwrap(),
        "constraint operator must be one of ==, >=, <="
    );
    assert_eq!(KiwiError::InvalidStrengthName.message().unwrap(), "invalid strength name");
    assert_eq!(
        KiwiError::BadRequiredStrength.message().unwrap(),
        "edit variable strength cannot be required"
    );
    assert_eq!(KiwiError::DuplicateConstraint.message(), None);
    assert_eq!(KiwiError::UnknownEditVariable.message(), None);
}

#[test]
fn backend_refusals_are_translated() {
    assert!(matches!(map_add_constraint_error(AddConstraintError::DuplicateConstraint), KiwiError::DuplicateConstraint));
    assert!(matches!(map_add_constraint_error(AddConstraintError::UnsatisfiableConstraint), KiwiError::UnsatisfiableConstraint));
    assert!(matches!(map_add_constraint_error(AddConstraintError::InternalSolverError("d")), KiwiError::InternalSolverError("d")));
    assert!(matches!(map_remove_constraint_error(RemoveConstraintError::UnknownConstraint), KiwiError::UnknownConstraint));
    assert!(matches!(map_remove_constraint_error(RemoveConstraintError::InternalSolverError("e")), KiwiError::InternalSolverError("e")));
    assert!(matches!(map_add_edit_variable_error(AddEditVariableError::DuplicateEditVariable), KiwiError::DuplicateEditVariable));
    assert!(matches!(map_add_edit_variable_error(AddEditVariableError::BadRequiredStrength), KiwiError::BadRequiredStrength));
    assert!(matches!(map_remove_edit_variable_error(RemoveEditVariableError::UnknownEditVariable), KiwiError::UnknownEditVariable));
    assert!(matches!(map_remove_edit_variable_error(RemoveEditVariableError::InternalSolverError("f")), KiwiError::InternalSolverError("f")));
    assert!(matches!(map_suggest_value_error(SuggestValueError::UnknownEditVariable), KiwiError::UnknownEditVariable));
    assert!(matches!(map_suggest_value_error(SuggestValueError::InternalSolverError("g")), KiwiError::InternalSolverError("g")));
}

#[test]
fn strings_compare_by_characters() {
    assert!(str_equal("", ""));
    assert!(str_equal("abc", "abc"));
    assert!(!str_equal("abc", "abd"));
    assert!(!str_equal("abc", "ab"));
    assert!(str_equal("héllo", "héllo"));
}

#[test]
fn decimal_rendering() {
    for (n, text) in [(0u64, "0"), (7, "7"), (10, "10"), (1234567890, "1234567890"), (u64::MAX, "18446744073709551615")] {
        let mut s = String::from("n=");
        push_decimal(&mut s, n);
        assert_eq!(s, format!("n={}", text));
    }
}

#[test]
fn variable_representation() {
    assert_eq!(variable_repr("width"), "Variable('width')");
    assert_eq!(variable_repr(""), "Variable('')");
}
