//! One form: the observable store of its field values, the watch
//! scheduler, and one validation machine per field, wired together.
//!
//! A value mutation flows value, then scheduler, then dependent
//! machine: `set_value` writes the cell and, synchronously before it
//! returns, runs the transition of every live subscription whose
//! dependency set includes that cell, in registration order. A field
//! whose subscription was cancelled first is never run again.

use crate::observable::CellId;
use crate::observable::Store;
use crate::validate::FieldValidationState;
use crate::validate::FieldValidator;
use crate::validate::ValidationRule;
use crate::validate::spec_transition;
use crate::watch::Scheduler;
use crate::watch::SubId;
use crate::watch::lemma_plan_complete;
use vstd::prelude::*;

verus! {

/// One field of a form: its value cell, its watch registration, and
/// its validation machine.
pub struct FormField {
    pub cell: CellId,
    pub sub: SubId,
    pub validator: FieldValidator,
}

/// The reactive state of one form.
pub struct Form {
    pub store: Store<String>,
    pub scheduler: Scheduler,
    pub fields: Vec<FormField>,
}

impl Form {
    /// Field `i` owns cell `i` and subscription `i`, and its
    /// subscription watches exactly its own cell.
    pub open spec fn wf(&self) -> bool {
        &&& self.fields@.len() == self.scheduler@.len()
        &&& self.fields@.len() == self.store@.len()
        &&& forall|i: int|
            0 <= i < self.fields@.len() ==> {
                &&& (#[trigger] self.fields@[i]).cell.index == i
                &&& self.fields@[i].sub.index == i
                &&& self.scheduler@[i].spec_deps() == seq![CellId { index: i as usize }]
            }
    }

    pub fn new() -> (f: Self)
        ensures
            f.wf(),
            f.fields@.len() == 0,
    {
        Form { store: Store::new(), scheduler: Scheduler::new(), fields: Vec::new() }
    }

    /// Creates a field: a cell holding the initial value, a watch on
    /// that cell, and a machine starting `Pristine`. With
    /// `fire_immediately` the transition runs once, synchronously,
    /// against the initial value before this returns; without it, the
    /// machine is untouched until the first mutation. `verdicts` are
    /// the outside answers for the rules that need one, against the
    /// initial value.
    pub fn add_field(
        &mut self,
        required: bool,
        rules: Vec<ValidationRule>,
        initial: String,
        fire_immediately: bool,
        verdicts: &Vec<bool>,
    ) -> (k: usize)
        requires
            old(self).wf(),
            verdicts@.len() == rules@.len(),
        ensures
            final(self).wf(),
            k == old(self).fields@.len(),
            final(self).fields@.len() == k + 1,
            final(self).store@ == old(self).store@.push(initial),
            forall|j: int| 0 <= j < k ==> final(self).fields@[j] == old(self).fields@[j],
            forall|j: int|
                0 <= j < k ==> final(self).scheduler@[j] == old(self).scheduler@[j],
            final(self).scheduler@[k as int].is_alive(),
            final(self).fields@[k as int].validator.required == required,
            final(self).fields@[k as int].validator.rules@ == rules@,
            fire_immediately ==> final(self).fields@[k as int].validator.state@
                == spec_transition(required, rules@, initial@, verdicts@),
            !fire_immediately ==> final(self).fields@[k as int].validator.state@ is Pristine,
    {
        let cell = self.store.create(initial);
        let mut deps: Vec<CellId> = Vec::new();
        deps.push(cell);
        proof {
            assert(deps@ =~= seq![cell]);
        }
        let ghost deps_view = deps@;
        let (sub, fire_now) = self.scheduler.watch(deps, fire_immediately);
        let mut validator = FieldValidator::new(required, rules);
        if fire_now {
            let value = self.store.get(cell);
            validator.on_value_change(value.as_str(), verdicts);
        }
        let k = self.fields.len();
        self.fields.push(FormField { cell, sub, validator });
        proof {
            assert forall|i: int| 0 <= i < self.fields@.len() implies {
                &&& (#[trigger] self.fields@[i]).cell.index == i
                &&& self.fields@[i].sub.index == i
                &&& self.scheduler@[i].spec_deps() == seq![CellId { index: i as usize }]
            } by {
                if i < k {
                    assert(self.fields@[i] == old(self).fields@[i]);
                    assert(old(self).fields@[i].cell.index == i);
                    assert(self.scheduler@[i] == old(self).scheduler@[i]);
                } else {
                    assert(self.fields@[i].cell == cell);
                    assert(self.scheduler@[i].spec_deps() == deps_view);
                    assert(seq![CellId { index: i as usize }] =~= seq![cell]);
                }
            }
        }
        k
    }

    /// Cancels the field's subscription: no later mutation, even one
    /// already planned above this call, runs its transition again.
    pub fn cancel_field(&mut self, k: usize)
        requires
            old(self).wf(),
            k < old(self).fields@.len(),
        ensures
            final(self).wf(),
            final(self).store@ == old(self).store@,
            final(self).fields@ == old(self).fields@,
            final(self).scheduler@.len() == old(self).scheduler@.len(),
            !final(self).scheduler@[k as int].is_alive(),
            forall|j: int|
                0 <= j < old(self).scheduler@.len() && j != k ==> final(self).scheduler@[j]
                    == old(self).scheduler@[j],
    {
        let sub = self.fields[k].sub;
        self.scheduler.cancel(sub);
    }

    /// Writes the field's cell unconditionally (a write of an equal
    /// value is still observed) and, synchronously, runs the
    /// transition of every live subscription watching that cell — here
    /// exactly the field's own machine, when its subscription is still
    /// alive. A cancelled field's machine is left untouched.
    pub fn set_value(&mut self, k: usize, value: String, verdicts: &Vec<bool>)
        requires
            old(self).wf(),
            k < old(self).fields@.len(),
            verdicts@.len() == old(self).fields@[k as int].validator.rules@.len(),
        ensures
            final(self).wf(),
            final(self).store@ == old(self).store@.update(k as int, value),
            final(self).scheduler@ == old(self).scheduler@,
            final(self).fields@.len() == old(self).fields@.len(),
            forall|j: int|
                0 <= j < old(self).fields@.len() && j != k ==> final(self).fields@[j]
                    == old(self).fields@[j],
            final(self).fields@[k as int].cell == old(self).fields@[k as int].cell,
            final(self).fields@[k as int].sub == old(self).fields@[k as int].sub,
            final(self).fields@[k as int].validator.required == old(self).fields@[k as int].validator.required,
            final(self).fields@[k as int].validator.rules@ == old(self).fields@[k as int].validator.rules@,
            old(self).scheduler@[k as int].is_alive() ==> final(self).fields@[k as int].validator.state@ == spec_transition(
                old(self).fields@[k as int].validator.required,
                old(self).fields@[k as int].validator.rules@,
                value@,
                verdicts@,
            ),
            !old(self).scheduler@[k as int].is_alive() ==> final(self).fields@[k as int]
                == old(self).fields@[k as int],
    {
        let ghost v = value@;
        let ghost value_snap = value;
        let cell = self.fields[k].cell;
        self.store.set(cell, value);
        let plan = self.scheduler.fire_plan(cell);
        let ghost subs = self.scheduler@;
        let mut i: usize = 0;
        while i < plan.len()
            invariant
                self.wf(),
                k < self.fields@.len(),
                k < old(self).store@.len(),
                value_snap@ == v,
                cell == (CellId { index: k }),
                self.scheduler@ == subs,
                self.store@ == old(self).store@.update(k as int, value_snap),
                self.scheduler@ == old(self).scheduler@,
                self.fields@.len() == old(self).fields@.len(),
                verdicts@.len() == old(self).fields@[k as int].validator.rules@.len(),
                plan@.map_values(|s: SubId| s.index as int) == crate::watch::spec_plan(
                    subs,
                    cell,
                ),
                forall|m: int| 0 <= m < plan@.len() ==> (#[trigger] plan@[m]).index
                    < subs.len(),
                i <= plan@.len(),
                forall|j: int|
                    0 <= j < old(self).fields@.len() && j != k ==> self.fields@[j] == old(self).fields@[j],
                self.fields@[k as int].cell == old(self).fields@[k as int].cell,
                self.fields@[k as int].sub == old(self).fields@[k as int].sub,
                self.fields@[k as int].validator.required == old(self).fields@[k as int].validator.required,
                self.fields@[k as int].validator.rules@ == old(self).fields@[k as int].validator.rules@,
                i == 0 ==> self.fields@[k as int] == old(self).fields@[k as int],
                i > 0 ==> self.fields@[k as int].validator.state@ == spec_transition(
                    old(self).fields@[k as int].validator.required,
                    old(self).fields@[k as int].validator.rules@,
                    v,
                    verdicts@,
                ),
            decreases plan@.len() - i,
        {
            let p = plan[i];
            proof {
                assert(crate::watch::spec_plan(subs, cell)[i as int] == p.index as int);
                assert(crate::watch::spec_plan(subs, cell).contains(p.index as int));
                lemma_plan_complete(subs, cell, p.index as int);
                assert(subs[p.index as int].watches(cell));
                assert(self.fields@[p.index as int].cell.index == p.index as int);
                let deps = subs[p.index as int].spec_deps();
                assert(deps == seq![CellId { index: p.index }]);
                assert(deps.contains(cell));
                let m = choose|m: int| 0 <= m < deps.len() && deps[m] == cell;
                assert(deps[m] == cell);
                assert(m == 0);
                assert(cell == (CellId { index: p.index }));
                assert(p.index == k);
            }
            let value_now = self.store.get(cell);
            let field = &mut self.fields[k];
            field.validator.on_value_change(value_now.as_str(), verdicts);
            i += 1;
        }
        proof {
            assert(self.fields@[k as int].cell.index == k as int);
            let deps = subs[k as int].spec_deps();
            assert(deps == seq![CellId { index: k }]);
            assert(deps[0] == cell);
            assert(deps.contains(cell));
            if subs[k as int].is_alive() {
                assert(subs[k as int].watches(cell));
                lemma_plan_complete(subs, cell, k as int);
                let sp = crate::watch::spec_plan(subs, cell);
                assert(sp.contains(k as int));
                let m = choose|m: int| 0 <= m < sp.len() && sp[m] == k as int;
                assert(sp[m] == k as int);
                assert(plan@.len() > 0);
            } else {
                if plan@.len() > 0 {
                    let p0 = plan@[0];
                    assert(crate::watch::spec_plan(subs, cell)[0] == p0.index as int);
                    assert(crate::watch::spec_plan(subs, cell).contains(p0.index as int));
                    lemma_plan_complete(subs, cell, p0.index as int);
                    assert(subs[p0.index as int].watches(cell));
                    assert(self.fields@[p0.index as int].cell.index == p0.index as int);
                    let deps0 = subs[p0.index as int].spec_deps();
                    assert(deps0 == seq![CellId { index: p0.index }]);
                    assert(deps0.contains(cell));
                    let m0 = choose|m0: int| 0 <= m0 < deps0.len() && deps0[m0] == cell;
                    assert(deps0[m0] == cell);
                    assert(m0 == 0);
                    assert(cell == (CellId { index: p0.index }));
                    assert(p0.index == k);
                    assert(subs[k as int].watches(cell));
                    assert(false);
                }
            }
        }
    }

    /// The blur transition of one field, against its current value:
    /// an empty required field is forced invalid; anything else is
    /// left as it stands.
    pub fn blur_field(&mut self, k: usize)
        requires
            old(self).wf(),
            k < old(self).fields@.len(),
        ensures
            final(self).wf(),
            final(self).store@ == old(self).store@,
            final(self).scheduler@ == old(self).scheduler@,
            final(self).fields@.len() == old(self).fields@.len(),
            forall|j: int|
                0 <= j < old(self).fields@.len() && j != k ==> final(self).fields@[j]
                    == old(self).fields@[j],
            final(self).fields@[k as int].cell == old(self).fields@[k as int].cell,
            final(self).fields@[k as int].sub == old(self).fields@[k as int].sub,
            final(self).fields@[k as int].validator.required == old(self).fields@[k as int].validator.required,
            final(self).fields@[k as int].validator.rules@ == old(self).fields@[k as int].validator.rules@,
            (old(self).fields@[k as int].validator.required && old(self).store@[k as int]@.len() == 0) ==> final(self).fields@[k as int].validator.state@
                == crate::validate::FieldStateModel::Invalid(crate::validate::required_message()),
            !(old(self).fields@[k as int].validator.required && old(self).store@[k as int]@.len() == 0) ==> final(self).fields@[k as int]
                == old(self).fields@[k as int],
    {
        let cell = self.fields[k].cell;
        let value = self.store.get(cell);
        let owned = value.clone();
        let field = &mut self.fields[k];
        field.validator.on_blur(owned.as_str());
    }

    /// The field's current validation state, for the rendering layer
    /// to read.
    pub fn field_state(&self, k: usize) -> (s: &FieldValidationState)
        requires
            self.wf(),
            k < self.fields@.len(),
        ensures
            *s == self.fields@[k as int].validator.state,
    {
        &self.fields[k].validator.state
    }

    /// The field's current value.
    pub fn value(&self, k: usize) -> (v: &String)
        requires
            self.wf(),
            k < self.fields@.len(),
        ensures
            v@ == self.store@[k as int]@,
    {
        self.store.get(self.fields[k].cell)
    }
}

} // verus!

