//! The solver front end: a Cassowary solver together with the record of every
//! variable that the constraints and edit variables added to it mention, each bound
//! to the handle by which the caller knows it.
use vstd::prelude::*;
use cassowary::Solver as BackendSolver;
use cassowary::{
    AddConstraintError, AddEditVariableError, Constraint, RemoveConstraintError,
    RemoveEditVariableError, Variable,
};
use crate::error::{
    add_constraint_failure, add_edit_variable_failure, map_add_constraint_error,
    map_add_edit_variable_error, map_remove_constraint_error, map_remove_edit_variable_error,
    remove_constraint_failure, remove_edit_variable_failure, KiwiError,
};
use crate::text::{decimal, push_decimal};

verus! {

/// The Cassowary solver, held opaque.
#[verifier::external_type_specification]
#[verifier::external_body]
pub struct ExBackendSolver(BackendSolver);

/// A Cassowary variable (an identifier), held opaque.
#[verifier::external_type_specification]
#[verifier::external_body]
pub struct ExBackendVariable(Variable);

/// A Cassowary constraint (a shared pointer compared by identity), held opaque.
#[verifier::external_type_specification]
#[verifier::external_body]
pub struct ExBackendConstraint(Constraint);

/// The constraints that a Cassowary solver holds (the keys of its `cns` map). A constraint
/// is a shared pointer that the solver compares by identity: a clone is the same constraint,
/// and two constraints built separately are different ones even with equal contents.
pub uninterp spec fn constraints_of(solver: BackendSolver) -> Set<Constraint>;

/// The variables that a Cassowary solver treats as edit variables (the keys of its
/// `edits` map).
pub uninterp spec fn edit_variables_of(solver: BackendSolver) -> Set<Variable>;

/// `cassowary::Solver::new` builds a solver with no constraint and no edit variable.
pub assume_specification[ BackendSolver::new ]() -> (r: BackendSolver)
    ensures
        constraints_of(r) == Set::<Constraint>::empty(),
        edit_variables_of(r) == Set::<Variable>::empty(),
;

/// `cassowary::Solver::add_constraint` refuses a constraint that it holds already with
/// `DuplicateConstraint`, and one that contradicts its required constraints with
/// `UnsatisfiableConstraint`, changing neither its constraints nor its edit variables;
/// otherwise it holds the constraint afterwards. An internal failure can come before or
/// after the constraint is taken in. Whether a new constraint is satisfiable rests on the
/// floating-point contents of the system and is not stated.
pub assume_specification[ BackendSolver::add_constraint ](
    solver: &mut BackendSolver,
    constraint: Constraint,
) -> (r: Result<(), AddConstraintError>)
    ensures
        edit_variables_of(*final(solver)) == edit_variables_of(*old(solver)),
        constraints_of(*old(solver)).contains(constraint)
            <==> r matches Err(AddConstraintError::DuplicateConstraint),
        match r {
            Ok(()) => constraints_of(*final(solver)) == constraints_of(*old(solver)).insert(constraint),
            Err(AddConstraintError::InternalSolverError(_)) =>
                constraints_of(*final(solver)) == constraints_of(*old(solver))
                || constraints_of(*final(solver)) == constraints_of(*old(solver)).insert(constraint),
            Err(_) => constraints_of(*final(solver)) == constraints_of(*old(solver)),
        },
;

/// `cassowary::Solver::remove_constraint` drops the constraint when it holds it (an
/// internal failure can follow the removal) and refuses with `UnknownConstraint`, changing
/// nothing, when it does not. The edit variables are left as they were.
pub assume_specification[ BackendSolver::remove_constraint ](
    solver: &mut BackendSolver,
    constraint: &Constraint,
) -> (r: Result<(), RemoveConstraintError>)
    ensures
        edit_variables_of(*final(solver)) == edit_variables_of(*old(solver)),
        constraints_of(*final(solver)) == constraints_of(*old(solver)).remove(*constraint),
        r matches Err(RemoveConstraintError::UnknownConstraint)
            <==> !constraints_of(*old(solver)).contains(*constraint),
;

/// `cassowary::Solver::has_constraint` tells whether the solver holds the constraint.
pub assume_specification[ BackendSolver::has_constraint ](
    solver: &BackendSolver,
    constraint: &Constraint,
) -> (r: bool)
    ensures
        r == constraints_of(*solver).contains(*constraint),
;

/// `cassowary::Solver::remove_edit_variable` reports `UnknownEditVariable`, and changes
/// nothing, when `v` is not an edit variable; otherwise `v` stops being one, its edit
/// constraint (which the solver made itself) is dropped, and that removal either succeeds
/// or fails internally.
pub assume_specification[ BackendSolver::remove_edit_variable ](
    solver: &mut BackendSolver,
    v: Variable,
) -> (r: Result<(), RemoveEditVariableError>)
    ensures
        edit_variables_of(*old(solver)).contains(v) ==> {
            &&& edit_variables_of(*final(solver)) == edit_variables_of(*old(solver)).remove(v)
            &&& exists|e: Constraint| constraints_of(*final(solver)) == #[trigger] constraints_of(*old(solver)).remove(e)
            &&& (r is Ok || r matches Err(RemoveEditVariableError::InternalSolverError(_)))
        },
        !edit_variables_of(*old(solver)).contains(v) ==> {
            &&& edit_variables_of(*final(solver)) == edit_variables_of(*old(solver))
            &&& constraints_of(*final(solver)) == constraints_of(*old(solver))
            &&& r matches Err(RemoveEditVariableError::UnknownEditVariable)
        },
;

/// `cassowary::Solver::has_edit_variable` tells whether `v` is an edit variable.
pub assume_specification[ BackendSolver::has_edit_variable ](
    solver: &BackendSolver,
    v: &Variable,
) -> (r: bool)
    ensures
        r == edit_variables_of(*solver).contains(*v),
;

/// `cassowary::Solver::reset` empties the solver of constraints and edit variables.
pub assume_specification[ BackendSolver::reset ](solver: &mut BackendSolver)
    ensures
        constraints_of(*final(solver)) == Set::<Constraint>::empty(),
        edit_variables_of(*final(solver)) == Set::<Variable>::empty(),
;

/// Compares two Cassowary variables with their derived `PartialEq`, which compares the
/// identifiers they wrap: two variables are equal exactly when they are the same variable.
#[verifier::external_body]
fn same_variable(a: &Variable, b: &Variable) -> (r: bool)
    ensures
        r == (*a == *b),
{
    *a == *b
}

/// The variables recorded in a sequence of entries, in order.
pub open spec fn entry_keys<H>(s: Seq<(Variable, H)>) -> Seq<Variable> {
    s.map_values(|e: (Variable, H)| e.0)
}

/// Records `entry` unless its variable is recorded already; the first handle recorded for
/// a variable is the one kept.
pub open spec fn track_one<H>(s: Seq<(Variable, H)>, entry: (Variable, H)) -> Seq<(Variable, H)> {
    if entry_keys(s).contains(entry.0) {
        s
    } else {
        s.push(entry)
    }
}

/// Records each of `entries` in turn.
pub open spec fn track_all<H>(s: Seq<(Variable, H)>, entries: Seq<(Variable, H)>) -> Seq<(Variable, H)>
    decreases entries.len(),
{
    if entries.len() == 0 {
        s
    } else {
        track_one(track_all(s, entries.drop_last()), entries.last())
    }
}

/// A record of entries names each variable at most once.
pub open spec fn distinct_keys<H>(s: Seq<(Variable, H)>) -> bool {
    entry_keys(s).no_duplicates()
}

/// A solver and the variables that it has been told about, each with its handle `H`.
pub struct Solver<H> {
    /// The Cassowary solver that holds the constraints and edit variables.
    pub backend: BackendSolver,
    registry: Vec<(Variable, H)>,
}

impl<H> View for Solver<H> {
    type V = Seq<(Variable, H)>;

    /// The recorded variables with their handles, in the order in which they were first
    /// recorded.
    closed spec fn view(&self) -> Seq<(Variable, H)> {
        self.registry@
    }
}

impl<H> Solver<H> {
    /// The state of the Cassowary solver.
    pub closed spec fn backend_state(&self) -> BackendSolver {
        self.backend
    }

    /// The constraints that the Cassowary solver holds.
    pub closed spec fn constraints(&self) -> Set<Constraint> {
        constraints_of(self.backend)
    }

    /// The variables that the Cassowary solver treats as edit variables.
    pub closed spec fn edit_variables(&self) -> Set<Variable> {
        edit_variables_of(self.backend)
    }

    /// No variable is recorded twice.
    pub open spec fn wf(&self) -> bool {
        distinct_keys(self@)
    }

    /// An empty solver that records no variable.
    pub fn new() -> (s: Self)
        ensures
            s@ == Seq::<(Variable, H)>::empty(),
            s.constraints() == Set::<Constraint>::empty(),
            s.edit_variables() == Set::<Variable>::empty(),
            s.wf(),
    {
        let s = Solver { backend: BackendSolver::new(), registry: Vec::new() };
        proof {
            assert(entry_keys(s@) =~= Seq::<Variable>::empty());
        }
        s
    }

    /// The recorded variables with their handles.
    pub fn variables(&self) -> (r: &[(Variable, H)])
        ensures
            r@ == self@,
    {
        self.registry.as_slice()
    }

    /// Records `backend` with `handle`, unless the variable is recorded already.
    pub fn track_variable(&mut self, backend: Variable, handle: H)
        requires
            old(self).wf(),
        ensures
            final(self)@ == track_one(old(self)@, (backend, handle)),
            final(self).wf(),
            final(self).backend_state() == old(self).backend_state(),
    {
        let n = self.registry.len();
        let mut i: usize = 0;
        while i < n
            invariant
                n == self.registry@.len(),
                i <= n,
                forall|j: int| 0 <= j < i ==> self.registry@[j].0 != backend,
                self.wf(),
            decreases n - i,
        {
            if same_variable(&self.registry[i].0, &backend) {
                proof {
                    assert(entry_keys(self@)[i as int] == backend);
                }
                return;
            }
            i = i + 1;
        }
        proof {
            lemma_track_one_new(self@, (backend, handle));
        }
        self.registry.push((backend, handle));
    }

    /// Records each of `variables` in turn.
    pub fn track_variables(&mut self, variables: Vec<(Variable, H)>)
        requires
            old(self).wf(),
        ensures
            final(self)@ == track_all(old(self)@, variables@),
            final(self).wf(),
            final(self).backend_state() == old(self).backend_state(),
    {
        let ghost entries = variables@;
        let n = variables.len();
        let mut variables = variables;
        let mut k: usize = 0;
        while variables.len() > 0
            invariant
                self.wf(),
                self.backend_state() == old(self).backend_state(),
                k <= entries.len(),
                entries.len() == n,
                variables@ == entries.skip(k as int),
                self@ == track_all(old(self)@, entries.take(k as int)),
            decreases variables.len(),
        {
            let e = variables.remove(0);
            proof {
                assert(entries.take(k + 1).drop_last() =~= entries.take(k as int));
                assert(entries.take(k + 1).last() == e);
                assert(variables@ =~= entries.skip(k + 1));
            }
            self.track_variable(e.0, e.1);
            k = k + 1;
        }
        proof {
            assert(entries.take(k as int) =~= entries);
        }
    }

    /// Finishes adding a constraint once the Cassowary solver has answered `outcome`:
    /// on success the constraint's `variables` are recorded; on refusal nothing is recorded
    /// and the refusal is translated.
    pub fn complete_add_constraint(
        &mut self,
        outcome: Result<(), AddConstraintError>,
        variables: Vec<(Variable, H)>,
    ) -> (r: Result<(), KiwiError>)
        requires
            old(self).wf(),
        ensures
            final(self).wf(),
            final(self).backend_state() == old(self).backend_state(),
            match outcome {
                Ok(()) => r is Ok && final(self)@ == track_all(old(self)@, variables@),
                Err(f) => r == Err::<(), KiwiError>(add_constraint_failure(f)) && final(self)@ == old(self)@,
            },
    {
        match outcome {
            Ok(()) => {
                self.track_variables(variables);
                Ok(())
            },
            Err(f) => Err(map_add_constraint_error(f)),
        }
    }

    /// Adds `constraint` to the Cassowary solver; when it is accepted, records the
    /// variables it mentions (`variables`, each with its handle). A constraint that the
    /// solver holds already is refused with `DuplicateConstraint`.
    pub fn add_constraint(&mut self, constraint: Constraint, variables: Vec<(Variable, H)>) -> (r: Result<(), KiwiError>)
        requires
            old(self).wf(),
        ensures
            final(self).wf(),
            final(self).edit_variables() == old(self).edit_variables(),
            (r matches Err(KiwiError::DuplicateConstraint)) <==> old(self).constraints().contains(constraint),
            match r {
                Ok(()) => {
                    &&& final(self)@ == track_all(old(self)@, variables@)
                    &&& final(self).constraints() == old(self).constraints().insert(constraint)
                },
                Err(e) => {
                    &&& final(self)@ == old(self)@
                    &&& exists|f: AddConstraintError| e == #[trigger] add_constraint_failure(f)
                    &&& (e matches KiwiError::InternalSolverError(_)
                        || final(self).constraints() == old(self).constraints())
                },
            },
    {
        let outcome = self.backend.add_constraint(constraint);
        self.complete_add_constraint(outcome, variables)
    }

    /// Removes `constraint` from the Cassowary solver; fails with `UnknownConstraint`,
    /// changing nothing, when the solver does not hold it. The recorded variables stay.
    pub fn remove_constraint(&mut self, constraint: &Constraint) -> (r: Result<(), KiwiError>)
        requires
            old(self).wf(),
        ensures
            final(self).wf(),
            final(self)@ == old(self)@,
            final(self).edit_variables() == old(self).edit_variables(),
            final(self).constraints() == old(self).constraints().remove(*constraint),
            (r matches Err(KiwiError::UnknownConstraint)) <==> !old(self).constraints().contains(*constraint),
            match r {
                Ok(()) => true,
                Err(e) => exists|f: RemoveConstraintError| e == #[trigger] remove_constraint_failure(f),
            },
    {
        match self.backend.remove_constraint(constraint) {
            Ok(()) => Ok(()),
            Err(f) => Err(map_remove_constraint_error(f)),
        }
    }

    /// Whether the Cassowary solver holds `constraint` (compared by identity).
    pub fn has_constraint(&self, constraint: &Constraint) -> (r: bool)
        ensures
            r == self.constraints().contains(*constraint),
    {
        self.backend.has_constraint(constraint)
    }

    /// Finishes making `backend` an edit variable once the Cassowary solver has answered
    /// `outcome`: on success the variable is recorded with `handle`; on refusal nothing is
    /// recorded and the refusal is translated.
    pub fn complete_add_edit_variable(
        &mut self,
        outcome: Result<(), AddEditVariableError>,
        backend: Variable,
        handle: H,
    ) -> (r: Result<(), KiwiError>)
        requires
            old(self).wf(),
        ensures
            final(self).wf(),
            final(self).backend_state() == old(self).backend_state(),
            match outcome {
                Ok(()) => r is Ok && final(self)@ == track_one(old(self)@, (backend, handle)),
                Err(f) => r == Err::<(), KiwiError>(add_edit_variable_failure(f)) && final(self)@ == old(self)@,
            },
    {
        match outcome {
            Ok(()) => {
                self.track_variable(backend, handle);
                Ok(())
            },
            Err(f) => Err(map_add_edit_variable_error(f)),
        }
    }

    /// Stops treating `v` as an edit variable; fails with `UnknownEditVariable`, changing
    /// nothing, when it is not one. The recorded variables stay.
    pub fn remove_edit_variable(&mut self, v: Variable) -> (r: Result<(), KiwiError>)
        requires
            old(self).wf(),
        ensures
            final(self).wf(),
            final(self)@ == old(self)@,
            final(self).edit_variables() == old(self).edit_variables().remove(v),
            old(self).edit_variables().contains(v)
                ==> exists|e: Constraint| final(self).constraints() == #[trigger] old(self).constraints().remove(e),
            !old(self).edit_variables().contains(v) ==> final(self).constraints() == old(self).constraints(),
            (r matches Err(KiwiError::UnknownEditVariable)) <==> !old(self).edit_variables().contains(v),
            match r {
                Ok(()) => old(self).edit_variables().contains(v),
                Err(e) => exists|f: RemoveEditVariableError| e == #[trigger] remove_edit_variable_failure(f),
            },
    {
        let ghost before = self.backend;
        let outcome = self.backend.remove_edit_variable(v);
        proof {
            if edit_variables_of(before).contains(v) {
                let e = choose|e: Constraint| constraints_of(self.backend) == #[trigger] constraints_of(before).remove(e);
                assert(self.constraints() == old(self).constraints().remove(e));
            }
        }
        match outcome {
            Ok(()) => Ok(()),
            Err(f) => Err(map_remove_edit_variable_error(f)),
        }
    }

    /// Whether `v` is an edit variable of the Cassowary solver.
    pub fn has_edit_variable(&self, v: &Variable) -> (r: bool)
        ensures
            r == self.edit_variables().contains(*v),
    {
        self.backend.has_edit_variable(v)
    }

    /// Empties the Cassowary solver and forgets every recorded variable.
    pub fn reset(&mut self)
        ensures
            final(self)@ == Seq::<(Variable, H)>::empty(),
            final(self).constraints() == Set::<Constraint>::empty(),
            final(self).edit_variables() == Set::<Variable>::empty(),
            final(self).wf(),
    {
        self.backend.reset();
        self.registry.clear();
        proof {
            assert(entry_keys(self@) =~= Seq::<Variable>::empty());
        }
    }

    /// A one-line description of the solver: the number of recorded variables.
    pub fn dumps(&self) -> (r: String)
        ensures
            r@ == "Solver(num_variables="@ + decimal(self@.len()) + ")"@,
    {
        let mut out = String::from_str("Solver(num_variables=");
        push_decimal(&mut out, self.registry.len() as u64);
        out.append(")");
        out
    }
}

proof fn lemma_track_one_new<H>(s: Seq<(Variable, H)>, entry: (Variable, H))
    requires
        distinct_keys(s),
        forall|j: int| 0 <= j < s.len() ==> s[j].0 != entry.0,
    ensures
        track_one(s, entry) == s.push(entry),
        distinct_keys(s.push(entry)),
{
    assert(entry_keys(s.push(entry)) =~= entry_keys(s).push(entry.0));
    if entry_keys(s).contains(entry.0) {
        let j = choose|j: int| 0 <= j < entry_keys(s).len() && entry_keys(s)[j] == entry.0;
        assert(s[j].0 == entry.0);
    }
}


proof fn lemma_track_one_facts<H>(s: Seq<(Variable, H)>, entry: (Variable, H))
    ensures
        track_one(s, entry).len() >= s.len(),
        track_one(s, entry).take(s.len() as int) == s,
        entry_keys(track_one(s, entry)).contains(entry.0),
        forall|k: Variable| #[trigger] entry_keys(track_one(s, entry)).contains(k)
            ==> entry_keys(s).contains(k) || k == entry.0,
        distinct_keys(s) ==> distinct_keys(track_one(s, entry)),
{
    let t = track_one(s, entry);
    if entry_keys(s).contains(entry.0) {
        assert(t.take(s.len() as int) =~= s);
    } else {
        assert(t.take(s.len() as int) =~= s);
        assert(entry_keys(t) =~= entry_keys(s).push(entry.0));
        assert(entry_keys(t)[s.len() as int] == entry.0);
        assert forall|k: Variable| #[trigger] entry_keys(t).contains(k)
            implies entry_keys(s).contains(k) || k == entry.0 by {
            let j = choose|j: int| 0 <= j < entry_keys(t).len() && entry_keys(t)[j] == k;
            if j < s.len() {
                assert(entry_keys(s)[j] == k);
            }
        }
        if distinct_keys(s) {
            assert forall|a: int, b: int| 0 <= a < entry_keys(t).len() && 0 <= b < entry_keys(t).len() && a != b
                implies entry_keys(t)[a] != entry_keys(t)[b] by {
                if a == s.len() {
                    assert(entry_keys(s)[b] == entry_keys(t)[b]);
                } else if b == s.len() {
                    assert(entry_keys(s)[a] == entry_keys(t)[a]);
                }
            }
        }
    }
}

/// Recording variables never drops or rebinds a variable already recorded: the earlier
/// record is a prefix of the later one, and a record without repeated variables stays so.
pub proof fn lemma_tracking_keeps_earlier_records<H>(s: Seq<(Variable, H)>, entries: Seq<(Variable, H)>)
    ensures
        track_all(s, entries).len() >= s.len(),
        track_all(s, entries).take(s.len() as int) == s,
        distinct_keys(s) ==> distinct_keys(track_all(s, entries)),
    decreases entries.len(),
{
    if entries.len() > 0 {
        let prev = track_all(s, entries.drop_last());
        lemma_tracking_keeps_earlier_records(s, entries.drop_last());
        lemma_track_one_facts(prev, entries.last());
        assert(track_all(s, entries).take(s.len() as int) =~= prev.take(s.len() as int));
    }
}

proof fn lemma_key_at<H>(s: Seq<(Variable, H)>, j: int)
    requires
        0 <= j < s.len(),
    ensures
        entry_keys(s).contains(s[j].0),
{
    assert(entry_keys(s)[j] == s[j].0);
}

proof fn lemma_key_index<H>(s: Seq<(Variable, H)>, k: Variable) -> (j: int)
    requires
        entry_keys(s).contains(k),
    ensures
        0 <= j < s.len(),
        s[j].0 == k,
{
    let j = choose|j: int| 0 <= j < entry_keys(s).len() && entry_keys(s)[j] == k;
    j
}

proof fn lemma_prefix_keys<H>(a: Seq<(Variable, H)>, b: Seq<(Variable, H)>, k: Variable)
    requires
        b.len() >= a.len(),
        b.take(a.len() as int) == a,
        entry_keys(a).contains(k),
    ensures
        entry_keys(b).contains(k),
{
    let j = lemma_key_index(a, k);
    assert(b.take(a.len() as int)[j] == b[j]);
    lemma_key_at(b, j);
}

/// After recording `entries`, the variables recorded are exactly those recorded before
/// together with those of `entries`.
pub proof fn lemma_tracking_records_exactly<H>(s: Seq<(Variable, H)>, entries: Seq<(Variable, H)>, k: Variable)
    ensures
        entry_keys(track_all(s, entries)).contains(k)
            <==> (entry_keys(s).contains(k) || entry_keys(entries).contains(k)),
    decreases entries.len(),
{
    if entries.len() > 0 {
        let init = entries.drop_last();
        let last = entries.last();
        let prev = track_all(s, init);
        let t = track_all(s, entries);
        lemma_tracking_records_exactly(s, init, k);
        lemma_track_one_facts(prev, last);
        assert(t == track_one(prev, last));
        if entry_keys(t).contains(k) {
            if entry_keys(prev).contains(k) {
                if entry_keys(init).contains(k) {
                    let j = lemma_key_index(init, k);
                    assert(entries[j] == init[j]);
                    lemma_key_at(entries, j);
                }
            } else {
                lemma_key_at(entries, entries.len() - 1);
            }
        }
        if entry_keys(entries).contains(k) {
            let j = lemma_key_index(entries, k);
            if j < init.len() {
                assert(entries[j] == init[j]);
                lemma_key_at(init, j);
                lemma_prefix_keys(prev, t, k);
            }
        }
        if entry_keys(s).contains(k) {
            lemma_prefix_keys(prev, t, k);
        }
    }
}

/// Recording the same entries a second time changes nothing.
pub proof fn lemma_tracking_is_idempotent<H>(s: Seq<(Variable, H)>, entries: Seq<(Variable, H)>)
    ensures
        track_all(track_all(s, entries), entries) == track_all(s, entries),
{
    let t = track_all(s, entries);
    assert forall|k: Variable| #[trigger] entry_keys(entries).contains(k) implies entry_keys(t).contains(k) by {
        lemma_tracking_records_exactly(s, entries, k);
    }
    lemma_tracking_unchanged_when_known(t, entries);
}

/// Recording entries whose variables are all recorded already changes nothing.
pub proof fn lemma_tracking_unchanged_when_known<H>(s: Seq<(Variable, H)>, entries: Seq<(Variable, H)>)
    requires
        forall|k: Variable| #[trigger] entry_keys(entries).contains(k) ==> entry_keys(s).contains(k),
    ensures
        track_all(s, entries) == s,
    decreases entries.len(),
{
    if entries.len() > 0 {
        let init = entries.drop_last();
        assert forall|k: Variable| #[trigger] entry_keys(init).contains(k) implies entry_keys(s).contains(k) by {
            let j = lemma_key_index(init, k);
            assert(entries[j] == init[j]);
            lemma_key_at(entries, j);
        }
        lemma_tracking_unchanged_when_known(s, init);
        lemma_key_at(entries, entries.len() - 1);
    }
}

/// Each recorded variable keeps the handle it first came with: every entry of the record
/// after `entries` are recorded is an entry of `s` or of `entries`, namely the first entry,
/// in `s` followed by `entries`, that names its variable. In particular no variable is
/// ever bound to a handle that came with another variable.
pub proof fn lemma_tracking_keeps_first_handle<H>(s: Seq<(Variable, H)>, entries: Seq<(Variable, H)>, i: int)
    requires
        distinct_keys(s),
        0 <= i < track_all(s, entries).len(),
    ensures
        exists|j: int|
            0 <= j < (s + entries).len()
            && track_all(s, entries)[i] == #[trigger] (s + entries)[j]
            && forall|j2: int| 0 <= j2 < j ==> (s + entries)[j2].0 != (s + entries)[j].0,
    decreases entries.len(),
{
    let t = track_all(s, entries);
    let all = s + entries;
    if entries.len() == 0 {
        assert(all =~= s);
        assert(t[i] == all[i]);
        assert forall|j2: int| 0 <= j2 < i implies all[j2].0 != all[i].0 by {
            assert(entry_keys(s)[j2] == s[j2].0);
            assert(entry_keys(s)[i] == s[i].0);
        }
    } else {
        let init = entries.drop_last();
        let last = entries.last();
        let prev = track_all(s, init);
        let all_init = s + init;
        assert(all =~= all_init.push(last));
        assert(t == track_one(prev, last));
        if entry_keys(prev).contains(last.0) || i < prev.len() {
            if entry_keys(prev).contains(last.0) {
                assert(t == prev);
            } else {
                assert(t[i] == prev[i]);
            }
            lemma_tracking_keeps_first_handle(s, init, i);
            let j = choose|j: int|
                0 <= j < all_init.len()
                && prev[i] == #[trigger] all_init[j]
                && forall|j2: int| 0 <= j2 < j ==> all_init[j2].0 != all_init[j].0;
            assert(all[j] == all_init[j]);
            assert forall|j2: int| 0 <= j2 < j implies all[j2].0 != all[j].0 by {
                assert(all[j2] == all_init[j2]);
            }
        } else {
            assert(t == prev.push(last));
            lemma_tracking_keeps_earlier_records(s, init);
            let j = all.len() - 1;
            assert(i == prev.len());
            assert(t[i] == last);
            assert(all[j] == last);
            assert forall|j2: int| 0 <= j2 < j implies all[j2].0 != all[j].0 by {
                lemma_tracking_records_exactly(s, init, last.0);
                if j2 < s.len() {
                    assert(all[j2] == s[j2]);
                    if s[j2].0 == last.0 {
                        lemma_key_at(s, j2);
                    }
                } else {
                    assert(all[j2] == init[j2 - s.len()]);
                    if init[j2 - s.len()].0 == last.0 {
                        lemma_key_at(init, j2 - s.len());
                    }
                }
            }
        }
    }
}
} // verus!
