use cassowary::strength::{REQUIRED, STRONG};
use cassowary::{
    AddConstraintError, AddEditVariableError, Constraint, RelationalOperator, Variable,
};
use kiwisolver::error::KiwiError;
use kiwisolver::solver::Solver;

fn equality(v: Variable, value: f64) -> Constraint {
    Constraint::new(v - value, RelationalOperator::Equal, REQUIRED)
}

#[test]
fn new_solver_records_no_variable() {
    let solver: Solver<u32> = Solver::new();
    assert_eq!(solver.variables().len(), 0);
    assert_eq!(solver.dumps(), "Solver(num_variables=0)");
}

#[test]
fn added_constraint_records_its_variables_once() {
    let mut solver: Solver<&str> = Solver::new();
    let x = Variable::new();
    let y = Variable::new();
    let c = Constraint::new(x + y - 10.0, RelationalOperator::Equal, REQUIRED);
    assert!(solver.add_constraint(c.clone(), vec![(x, "x"), (y, "y"), (x, "x again")]).is_ok());
    assert!(solver.has_constraint(&c));
    let recorded: Vec<(Variable, &str)> = solver.variables().to_vec();
    assert_eq!(recorded, vec![(x, "x"), (y, "y")]);
    assert_eq!(solver.dumps(), "Solver(num_variables=2)");
    assert_eq!(solver.backend.get_value(x) + solver.backend.get_value(y), 10.0);
}

#[test]
fn duplicate_constraint_is_refused_and_records_nothing() {
    let mut solver: Solver<u32> = Solver::new();
    let x = Variable::new();
    let c = equality(x, 42.0);
    assert!(solver.add_constraint(c.clone(), vec![(x, 1)]).is_ok());
    assert_eq!(solver.backend.get_value(x), 42.0);
    let z = Variable::new();
    let again = solver.add_constraint(c, vec![(z, 2)]);
    assert!(matches!(again, Err(KiwiError::DuplicateConstraint)));
    assert_eq!(solver.variables().len(), 1);
}

#[test]
fn unsatisfiable_constraint_is_refused() {
    let mut solver: Solver<u32> = Solver::new();
    let x = Variable::new();
    assert!(solver.add_constraint(equality(x, 1.0), vec![(x, 1)]).is_ok());
    let conflict = solver.add_constraint(equality(x, 2.0), vec![(x, 9)]);
    assert!(matches!(conflict, Err(KiwiError::UnsatisfiableConstraint)));
    assert_eq!(solver.variables().to_vec(), vec![(x, 1)]);
}

#[test]
fn removing_constraints() {
    let mut solver: Solver<u32> = Solver::new();
    let x = Variable::new();
    let c = equality(x, 5.0);
    assert!(matches!(solver.remove_constraint(&c), Err(KiwiError::UnknownConstraint)));
    assert!(solver.add_constraint(c.clone(), vec![(x, 7)]).is_ok());
    assert!(solver.remove_constraint(&c).is_ok());
    assert!(!solver.has_constraint(&c));
    assert_eq!(solver.variables().len(), 1);
    assert!(matches!(solver.remove_constraint(&c), Err(KiwiError::UnknownConstraint)));
}

#[test]
fn edit_variables_are_recorded_and_checked() {
    let mut solver: Solver<u32> = Solver::new();
    let v = Variable::new();
    assert!(!solver.has_edit_variable(&v));
    assert!(matches!(solver.remove_edit_variable(v), Err(KiwiError::UnknownEditVariable)));
    let outcome = solver.backend.add_edit_variable(v, STRONG);
    assert!(solver.complete_add_edit_variable(outcome, v, 3).is_ok());
    assert!(solver.has_edit_variable(&v));
    assert_eq!(solver.variables().to_vec(), vec![(v, 3)]);
    let outcome = solver.backend.add_edit_variable(v, STRONG);
    assert!(matches!(
        solver.complete_add_edit_variable(outcome, v, 4),
        Err(KiwiError::DuplicateEditVariable)
    ));
    assert_eq!(solver.variables().to_vec(), vec![(v, 3)]);
    assert!(solver.backend.suggest_value(v, 12.5).is_ok());
    solver.backend.fetch_changes();
    assert_eq!(solver.backend.get_value(v), 12.5);
    assert!(solver.remove_edit_variable(v).is_ok());
    assert!(!solver.has_edit_variable(&v));
}

#[test]
fn required_edit_variable_is_refused() {
    let mut solver: Solver<u32> = Solver::new();
    let v = Variable::new();
    let outcome = solver.backend.add_edit_variable(v, REQUIRED);
    assert!(matches!(outcome, Err(AddEditVariableError::BadRequiredStrength)));
    assert!(matches!(
        solver.complete_add_edit_variable(outcome, v, 1),
        Err(KiwiError::BadRequiredStrength)
    ));
    assert_eq!(solver.variables().len(), 0);
}

#[test]
fn complete_add_constraint_translates_each_outcome() {
    let mut solver: Solver<u32> = Solver::new();
    let x = Variable::new();
    let r = solver.complete_add_constraint(Err(AddConstraintError::UnsatisfiableConstraint), vec![(x, 1)]);
    assert!(matches!(r, Err(KiwiError::UnsatisfiableConstraint)));
    assert_eq!(solver.variables().len(), 0);
    let r = solver.complete_add_constraint(Err(AddConstraintError::InternalSolverError("boom")), vec![(x, 1)]);
    assert!(matches!(r, Err(KiwiError::InternalSolverError("boom"))));
    let r = solver.complete_add_constraint(Ok(()), vec![(x, 1), (x, 2)]);
    assert!(r.is_ok());
    assert_eq!(solver.variables().to_vec(), vec![(x, 1)]);
}

#[test]
fn tracking_twice_is_the_same_as_once() {
    let mut solver: Solver<u32> = Solver::new();
    let a = Variable::new();
    let b = Variable::new();
    solver.track_variables(vec![(a, 1), (b, 2)]);
    let once = solver.variables().to_vec();
    solver.track_variables(vec![(a, 1), (b, 2)]);
    assert_eq!(solver.variables().to_vec(), once);
    solver.track_variable(a, 99);
    assert_eq!(solver.variables().to_vec(), vec![(a, 1), (b, 2)]);
}

#[test]
fn reset_forgets_everything() {
    let mut solver: Solver<u32> = Solver::new();
    let x = Variable::new();
    let c = equality(x, 3.0);
    assert!(solver.add_constraint(c.clone(), vec![(x, 1)]).is_ok());
    let outcome = solver.backend.add_edit_variable(x, STRONG);
    assert!(solver.complete_add_edit_variable(outcome, x, 1).is_ok());
    solver.reset();
    assert_eq!(solver.variables().len(), 0);
    assert!(!solver.has_constraint(&c));
    assert!(!solver.has_edit_variable(&x));
    assert_eq!(solver.dumps(), "Solver(num_variables=0)");
    assert!(solver.add_constraint(c, vec![(x, 1)]).is_ok());
}

#[test]
fn constraints_are_compared_by_identity() {
    let mut solver: Solver<u32> = Solver::new();
    let x = Variable::new();
    let c = equality(x, 5.0);
    let same_contents = equality(x, 5.0);
    assert!(solver.add_constraint(c.clone(), vec![(x, 1)]).is_ok());
    assert!(!solver.has_constraint(&same_contents));
    assert!(solver.add_constraint(same_contents.clone(), vec![(x, 1)]).is_ok());
    assert!(solver.has_constraint(&same_contents));
    assert!(matches!(solver.add_constraint(c, vec![]), Err(KiwiError::DuplicateConstraint)));
    assert_eq!(solver.variables().len(), 1);
}
