//! The operations on images, each as a plan of steps that the caller
//! carries out one after the other.
//!
//! The library touches neither the disk nor the network. To create, update
//! or delete an image it computes what has to be done and hands the steps
//! out one at a time; the caller performs a step and reports how it went.
//! A step that fails ends the operation: no later step is handed out, and
//! nothing that was done before it is undone.

use vstd::prelude::*;
use crate::converter::Artifacts;
use crate::converter::ImagesVersions;
use crate::converter::artifacts_of;
use crate::converter::convert_and_resize;
use crate::error::ServiceError;
use crate::identity::Identity;
use crate::identity::is_random_version;
use crate::index::IndexLookup;
use crate::index::IndexSchema;
use crate::index::SchemaView;
use crate::index::images_schema;
use crate::index::images_schema_view;
use crate::models::ImageCreationRequest;
use crate::models::ImageInfo;
use crate::models::ImagePatch;
use crate::models::ImageRecord;
use crate::models::named_record;
use crate::storage::StoreOp;
use crate::storage::StoreStep;
use crate::storage::delete_images;
use crate::storage::delete_steps;
use crate::storage::save_images;
use crate::storage::save_steps;
use crate::storage::steps_of;
use crate::store_model::Slot;
use crate::store_model::effect_of_all;
use crate::store_model::lemma_delete_effect;
use crate::store_model::lemma_delete_leaves_others;
use crate::store_model::lemma_identities_apart;
use crate::store_model::lemma_save_effect;
use crate::store_model::lemma_save_leaves_others;
use crate::store_model::slot_content;
use crate::store_model::slot_path;

verus! {

/// One step of an operation, for the caller to carry out.
#[derive(Debug)]
pub enum Step {
    /// An operation on the store.
    Store(StoreOp),
    /// Add the record to the index, or replace the record of its identity.
    Upsert(ImageInfo),
    /// Remove the record of the identity from the index.
    Remove(Identity),
    /// Create the index under its name, with its key.
    CreateIndex(IndexSchema),
    /// Tell the index which fields it searches and filters by.
    Configure(IndexSchema),
}

/// What a step says, as mathematical values.
pub enum StepView {
    Store(StoreStep),
    Upsert(ImageRecord),
    Remove(Identity),
    CreateIndex(SchemaView),
    Configure(SchemaView),
}

impl View for Step {
    type V = StepView;

    open spec fn view(&self) -> StepView {
        match self {
            Step::Store(op) => StepView::Store(op@),
            Step::Upsert(record) => StepView::Upsert(record@),
            Step::Remove(id) => StepView::Remove(*id),
            Step::CreateIndex(schema) => StepView::CreateIndex(schema@),
            Step::Configure(schema) => StepView::Configure(schema@),
        }
    }
}

/// How a step went.
#[derive(Clone, Copy, Debug, PartialEq, Eq, Structural)]
pub enum Outcome {
    /// The step was carried out.
    Done,
    /// What the step was to remove was not there.
    Missing,
    /// The step failed.
    Failed,
}

/// Whether the step removes something, so that finding nothing to remove
/// does no harm.
pub open spec fn is_removal(step: StepView) -> bool {
    step is Remove || (step matches StepView::Store(op) && op is RemoveFile)
}

/// Whether the operation goes on after the step went as `outcome` says: it
/// does where the step was carried out, and where a removal found nothing
/// to remove.
pub open spec fn accepted(step: StepView, outcome: Outcome) -> bool {
    outcome is Done || (outcome is Missing && is_removal(step))
}

/// The failure that a failed step stands for: that of the store for a step
/// on the store, that of the index for a step on the index.
pub open spec fn failure_of(step: StepView) -> ServiceError {
    if step is Store {
        ServiceError::Store
    } else {
        ServiceError::Index
    }
}

/// The state of an operation: its steps, how many of them are done, and the
/// failure that ended it, if one did.
pub struct SagaState {
    pub plan: Seq<StepView>,
    pub done: nat,
    pub failure: Option<ServiceError>,
}

impl SagaState {
    /// The state of an operation of which no step is done yet.
    pub open spec fn fresh(plan: Seq<StepView>) -> SagaState {
        SagaState { plan, done: 0, failure: None }
    }

    /// The step that is to be carried out next, if the operation is still
    /// under way.
    pub open spec fn pending(self) -> Option<StepView> {
        if self.failure is None && self.done < self.plan.len() {
            Some(self.plan[self.done as int])
        } else {
            None
        }
    }

    /// The state after the pending step went as `outcome` says. Where no
    /// step is pending, a report changes nothing.
    pub open spec fn report(self, outcome: Outcome) -> SagaState {
        match self.pending() {
            None => self,
            Some(step) => if accepted(step, outcome) {
                SagaState { plan: self.plan, done: self.done + 1, failure: self.failure }
            } else {
                SagaState { plan: self.plan, done: self.done, failure: Some(failure_of(step)) }
            },
        }
    }

    /// The state after the steps went as `outcomes` say, one after the other.
    pub open spec fn run(self, outcomes: Seq<Outcome>) -> SagaState
        decreases outcomes.len(),
    {
        if outcomes.len() == 0 {
            self
        } else {
            self.report(outcomes[0]).run(outcomes.drop_first())
        }
    }

    /// How the operation ended, if it has: well, once every step is done, or
    /// with the failure that ended it.
    pub open spec fn result(self) -> Option<Result<(), ServiceError>> {
        match self.failure {
            Some(failure) => Some(Err(failure)),
            None => if self.done >= self.plan.len() {
                Some(Ok(()))
            } else {
                None
            },
        }
    }
}

/// The record of the first step of the plan that upserts one.
pub open spec fn first_upsert(plan: Seq<StepView>) -> Option<ImageRecord>
    decreases plan.len(),
{
    if plan.len() == 0 {
        None
    } else {
        match plan[0] {
            StepView::Upsert(record) => Some(record),
            _ => first_upsert(plan.drop_first()),
        }
    }
}

/// An operation under way.
#[derive(Debug)]
pub struct Saga {
    steps: Vec<Step>,
    cursor: usize,
    failure: Option<ServiceError>,
}

/// What the steps say.
pub open spec fn plan_of(steps: Seq<Step>) -> Seq<StepView> {
    Seq::new(steps.len(), |i: int| steps[i]@)
}

/// The steps on the store as steps of an operation.
pub open spec fn store_plan(steps: Seq<StoreStep>) -> Seq<StepView> {
    Seq::new(steps.len(), |i: int| StepView::Store(steps[i]))
}

impl View for Saga {
    type V = SagaState;

    closed spec fn view(&self) -> SagaState {
        SagaState { plan: plan_of(self.steps@), done: self.cursor as nat, failure: self.failure }
    }
}

impl Step {
    /// Whether the step removes something.
    pub fn is_removal(&self) -> (removal: bool)
        ensures
            removal == is_removal(self@),
    {
        match self {
            Step::Remove(_) => true,
            Step::Store(StoreOp::RemoveFile { .. }) => true,
            _ => false,
        }
    }

    /// Whether the operation goes on after the step went as `outcome` says.
    pub fn accepts(&self, outcome: Outcome) -> (goes_on: bool)
        ensures
            goes_on == accepted(self@, outcome),
    {
        match outcome {
            Outcome::Done => true,
            Outcome::Missing => self.is_removal(),
            Outcome::Failed => false,
        }
    }

    /// The failure that the step stands for when it fails.
    pub fn failure(&self) -> (failure: ServiceError)
        ensures
            failure == failure_of(self@),
    {
        match self {
            Step::Store(_) => ServiceError::Store,
            _ => ServiceError::Index,
        }
    }
}

impl Saga {
    #[verifier::type_invariant]
    spec fn cursor_in_range(self) -> bool {
        self.cursor <= self.steps.len()
    }

    /// An operation that consists of the given steps, none of them done.
    pub fn new(steps: Vec<Step>) -> (saga: Saga)
        ensures
            saga@ == SagaState::fresh(plan_of(steps@)),
    {
        Saga { steps, cursor: 0, failure: None }
    }

    /// The step to carry out next; `None` once the operation has ended.
    pub fn pending(&self) -> (step: Option<&Step>)
        ensures
            self@.pending() == (match step {
                Some(step) => Some(step@),
                None => None,
            }),
    {
        proof {
            use_type_invariant(self);
        }
        if self.failure.is_none() && self.cursor < self.steps.len() {
            Some(&self.steps[self.cursor])
        } else {
            None
        }
    }

    /// Takes note of how the pending step went. Where no step is pending,
    /// nothing changes.
    pub fn report(&mut self, outcome: Outcome)
        ensures
            final(self)@ == old(self)@.report(outcome),
    {
        proof {
            use_type_invariant(&*self);
        }
        if self.failure.is_none() && self.cursor < self.steps.len() {
            if self.steps[self.cursor].accepts(outcome) {
                self.cursor = self.cursor + 1;
            } else {
                self.failure = Some(self.steps[self.cursor].failure());
            }
        }
    }

    /// The record that the operation puts into the index: that of its first
    /// step that upserts one, whether or not the step is done yet.
    pub fn record(&self) -> (record: Option<&ImageInfo>)
        ensures
            record matches Some(found) ==> first_upsert(self@.plan) == Some(found@),
            record is None ==> first_upsert(self@.plan) is None,
    {
        let mut at: usize = 0;
        assert(plan_of(self.steps@).skip(0) =~= plan_of(self.steps@));
        while at < self.steps.len()
            invariant
                at <= self.steps.len(),
                first_upsert(plan_of(self.steps@)) == first_upsert(
                    plan_of(self.steps@).skip(at as int),
                ),
            decreases self.steps.len() - at,
        {
            let ghost rest = plan_of(self.steps@).skip(at as int);
            assert(rest[0] == self.steps[at as int]@);
            assert(rest.drop_first() =~= plan_of(self.steps@).skip(at + 1));
            match &self.steps[at] {
                Step::Upsert(found) => {
                    return Some(found);
                },
                _ => {},
            }
            at = at + 1;
        }
        None
    }

    /// How the operation ended: `None` while a step is pending.
    pub fn result(&self) -> (result: Option<Result<(), ServiceError>>)
        ensures
            result == self@.result(),
    {
        proof {
            use_type_invariant(self);
        }
        match self.failure {
            Some(failure) => Some(Err(failure)),
            None => if self.cursor >= self.steps.len() {
                Some(Ok(()))
            } else {
                None
            },
        }
    }
}

/// The steps that create an image: its artifacts are saved, then its record
/// enters the index.
pub open spec fn creation_plan(base: Seq<char>, record: ImageRecord, images: Artifacts) -> Seq<
    StepView,
> {
    store_plan(save_steps(base, record.id, images)).push(StepView::Upsert(record))
}

/// The steps that delete an image: its record leaves the index, then its
/// artifacts are removed.
pub open spec fn deletion_plan(base: Seq<char>, id: Identity) -> Seq<StepView> {
    seq![StepView::Remove(id)] + store_plan(delete_steps(base, id))
}

/// The steps that update an image: the patched record replaces the record
/// in the index. The store has no part in it.
pub open spec fn update_plan(current: ImageRecord, patch: ImagePatch) -> Seq<StepView> {
    seq![StepView::Upsert(patch.applied_to(current))]
}

/// The steps that make sure of the index at startup: none where it is
/// there; where it is missing, it is created and then configured.
pub open spec fn startup_plan(lookup: IndexLookup) -> Seq<StepView> {
    if lookup is Missing {
        seq![
            StepView::CreateIndex(images_schema_view()),
            StepView::Configure(images_schema_view()),
        ]
    } else {
        Seq::<StepView>::empty()
    }
}

fn store_steps(ops: Vec<StoreOp>) -> (steps: Vec<Step>)
    ensures
        plan_of(steps@) == store_plan(steps_of(ops@)),
{
    let ghost all = ops@;
    let mut steps: Vec<Step> = Vec::new();
    for op in iter: ops
        invariant
            iter.seq() == all,
            steps.len() == iter.index(),
            forall|j: int| 0 <= j < steps.len() ==> steps[j]@ == StepView::Store(all[j]@),
    {
        steps.push(Step::Store(op));
    }
    assert(plan_of(steps@) =~= store_plan(steps_of(all)));
    steps
}

/// Plans the creation of an image from its artifacts and its record.
pub fn plan_creation(base: &str, record: ImageInfo, images: ImagesVersions) -> (saga: Saga)
    ensures
        saga@ == SagaState::fresh(creation_plan(base@, record@, images@)),
{
    let mut steps = store_steps(save_images(base, &record.id, images));
    let ghost stored = plan_of(steps@);
    steps.push(Step::Upsert(record));
    assert(plan_of(steps@) =~= stored.push(StepView::Upsert(record@)));
    Saga::new(steps)
}

/// Begins the creation of an image: builds the artifacts from the submitted
/// bytes, draws a fresh identity, and plans the saving of the artifacts
/// under `base` and the entry of the record into the index. The record is a
/// draft that carries the identity and the request's name; what else the
/// request says of the image enters the record by a later update.
///
/// Bytes that do not decode fail with `Decode`, and bytes of which an
/// encoding fails with `Encode`; then there is no plan, so that nothing is
/// written and nothing enters the index. All other bytes give the plan.
pub fn create(request: ImageCreationRequest, base: &str) -> (r: Result<Saga, ServiceError>)
    ensures
        r matches Err(e) ==> artifacts_of(request.image@) == Err::<Artifacts, ServiceError>(e),
        r matches Ok(saga) ==> artifacts_of(request.image@) is Ok && artifacts_of(
            request.image@,
        ).unwrap().complete() && exists|id: Identity|
            is_random_version(id.value) && saga@ == SagaState::fresh(
                #[trigger] creation_plan(
                    base@,
                    named_record(id, request.name@),
                    artifacts_of(request.image@).unwrap(),
                ),
            ),
{
    let ImageCreationRequest { name, image, description: _, text: _, tags: _ } = request;
    let images = match convert_and_resize(image) {
        Ok(images) => images,
        Err(e) => {
            return Err(e);
        },
    };
    let id = Identity::generate();
    let record = ImageInfo::named(id, name);
    let saga = plan_creation(base, record, images);
    assert(saga@ == SagaState::fresh(
        creation_plan(
            base@,
            named_record(id, request.name@),
            artifacts_of(request.image@).unwrap(),
        ),
    ));
    Ok(saga)
}

/// Plans the update of an image: the record as the index holds it, changed
/// by the patch, replaces the record in the index. No step touches the
/// store.
pub fn update(current: ImageInfo, patch: ImagePatch) -> (saga: Saga)
    ensures
        saga@ == SagaState::fresh(update_plan(current@, patch)),
{
    let mut steps: Vec<Step> = Vec::new();
    steps.push(Step::Upsert(current.apply(patch)));
    assert(plan_of(steps@) =~= update_plan(current@, patch));
    Saga::new(steps)
}

/// Plans the deletion of an image: first its record leaves the index, then
/// its artifacts are removed from under `base`. Should the store fail after
/// the index has let go of the record, files stay behind that nothing
/// refers to any more.
pub fn delete(id: Identity, base: &str) -> (saga: Saga)
    ensures
        saga@ == SagaState::fresh(deletion_plan(base@, id)),
{
    let mut removals = store_steps(delete_images(base, &id));
    let ghost stored = plan_of(removals@);
    let mut steps: Vec<Step> = Vec::new();
    steps.push(Step::Remove(id));
    steps.append(&mut removals);
    assert(plan_of(steps@) =~= seq![StepView::Remove(id)] + stored);
    Saga::new(steps)
}

/// Decides what startup owes the index, from what looking it up gave: an
/// index that is there is left alone, a missing one is created and
/// configured, and any other answer fails the startup.
pub fn ensure_index(lookup: IndexLookup) -> (r: Result<Saga, ServiceError>)
    ensures
        lookup is Failed ==> r == Err::<Saga, ServiceError>(ServiceError::Index),
        !(lookup is Failed) ==> (r matches Ok(saga) && saga@ == SagaState::fresh(
            startup_plan(lookup),
        )),
{
    let mut steps: Vec<Step> = Vec::new();
    match lookup {
        IndexLookup::Failed => {
            return Err(ServiceError::Index);
        },
        IndexLookup::Found => {},
        IndexLookup::Missing => {
            steps.push(Step::CreateIndex(images_schema()));
            steps.push(Step::Configure(images_schema()));
        },
    }
    assert(plan_of(steps@) =~= startup_plan(lookup));
    Ok(Saga::new(steps))
}

/// While every step goes in a way that lets the operation go on, the steps
/// are handed out in order, and after the last of them the operation has
/// ended well.
pub proof fn lemma_run_of_accepted(state: SagaState, outcomes: Seq<Outcome>)
    requires
        state.failure is None,
        state.done + outcomes.len() <= state.plan.len(),
        forall|k: int|
            0 <= k < outcomes.len() ==> accepted(
                #[trigger] state.plan[state.done + k],
                outcomes[k],
            ),
    ensures
        state.run(outcomes) == (SagaState {
            plan: state.plan,
            done: state.done + outcomes.len(),
            failure: None,
        }),
        state.done + outcomes.len() == state.plan.len() ==> state.run(outcomes).result() == Some(
            Ok::<(), ServiceError>(()),
        ),
    decreases outcomes.len(),
{
    if outcomes.len() > 0 {
        let next = state.report(outcomes[0]);
        let rest = outcomes.drop_first();
        assert(accepted(state.plan[state.done + 0int], outcomes[0]));
        assert forall|k: int| 0 <= k < rest.len() implies accepted(
            #[trigger] next.plan[next.done + k],
            rest[k],
        ) by {
            assert(accepted(state.plan[state.done + (k + 1)], outcomes[k + 1]));
        }
        lemma_run_of_accepted(next, rest);
    }
}

/// An operation that has ended takes no further notice of reports: no step
/// is handed out any more and the result stays.
pub proof fn lemma_run_after_end(state: SagaState, outcomes: Seq<Outcome>)
    requires
        state.pending() is None,
    ensures
        state.run(outcomes) == state,
    decreases outcomes.len(),
{
    if outcomes.len() > 0 {
        lemma_run_after_end(state, outcomes.drop_first());
    }
}

/// The first step that does not go well ends the operation with the failure
/// of that step: the steps before it are done and stay done, the step
/// itself and the steps after it are not, and whatever is reported
/// afterwards changes nothing.
pub proof fn lemma_run_stops_at_failure(plan: Seq<StepView>, outcomes: Seq<Outcome>, at: int)
    requires
        0 <= at < outcomes.len(),
        at < plan.len(),
        forall|k: int| 0 <= k < at ==> accepted(#[trigger] plan[k], outcomes[k]),
        !accepted(plan[at], outcomes[at]),
    ensures
        SagaState::fresh(plan).run(outcomes) == (SagaState {
            plan,
            done: at as nat,
            failure: Some(failure_of(plan[at])),
        }),
        SagaState::fresh(plan).run(outcomes).pending() is None,
        SagaState::fresh(plan).run(outcomes).result() == Some(
            Err::<(), ServiceError>(failure_of(plan[at])),
        ),
{
    let start = SagaState::fresh(plan);
    let head = outcomes.subrange(0, at);
    let tail = outcomes.subrange(at, outcomes.len() as int);
    assert forall|k: int| 0 <= k < head.len() implies accepted(
        #[trigger] start.plan[start.done + k],
        head[k],
    ) by {
        assert(accepted(plan[k], outcomes[k]));
    }
    lemma_run_of_accepted(start, head);
    let middle = start.run(head);
    lemma_run_split(start, outcomes, at);
    assert(tail[0] == outcomes[at]);
    let failed = middle.report(tail[0]);
    lemma_run_after_end(failed, tail.drop_first());
}

/// Running through the outcomes is running through the first of them and
/// then through the rest.
pub proof fn lemma_run_split(state: SagaState, outcomes: Seq<Outcome>, at: int)
    requires
        0 <= at <= outcomes.len(),
    ensures
        state.run(outcomes) == state.run(outcomes.subrange(0, at)).run(
            outcomes.subrange(at, outcomes.len() as int),
        ),
    decreases at,
{
    if at == 0 {
        assert(outcomes.subrange(0, outcomes.len() as int) =~= outcomes);
    } else {
        let rest = outcomes.drop_first();
        lemma_run_split(state.report(outcomes[0]), rest, at - 1);
        assert(outcomes.subrange(0, at).drop_first() =~= rest.subrange(0, at - 1));
        assert(outcomes.subrange(at, outcomes.len() as int) =~= rest.subrange(
            at - 1,
            rest.len() as int,
        ));
        assert(outcomes.subrange(0, at)[0] == outcomes[0]);
    }
}

/// Deleting an image of which nothing is there does no harm: where every
/// step of a deletion is carried out or finds nothing to remove, the
/// deletion ends well.
pub proof fn lemma_deletion_tolerates_absence(base: Seq<char>, id: Identity, outcomes: Seq<Outcome>)
    requires
        outcomes.len() == deletion_plan(base, id).len(),
        forall|k: int| 0 <= k < outcomes.len() ==> !(#[trigger] outcomes[k] is Failed),
    ensures
        SagaState::fresh(deletion_plan(base, id)).run(outcomes).result() == Some(
            Ok::<(), ServiceError>(()),
        ),
{
    let plan = deletion_plan(base, id);
    let start = SagaState::fresh(plan);
    crate::store_model::lemma_deletion_removes_only(base, id);
    assert forall|k: int| 0 <= k < outcomes.len() implies accepted(
        #[trigger] start.plan[start.done + k],
        outcomes[k],
    ) by {
        assert(!(outcomes[k] is Failed));
        if k > 0 {
            assert(plan[k] == store_plan(delete_steps(base, id))[k - 1]);
            assert(delete_steps(base, id)[k - 1] is RemoveFile);
        }
    }
    lemma_run_of_accepted(start, outcomes);
}

/// Two images created from the same bytes under distinct identities are
/// independent. The artifacts are a function of the bytes, so both get the
/// same ones. Once both are saved, the twenty files lie at twenty paths of
/// which none belongs to both, each of the two sets is whole, and the two
/// agree file for file. Deleting the first of them afterwards removes its
/// ten files and leaves the ten of the second as they are.
pub proof fn lemma_ingestions_independent(
    files: Map<Seq<char>, Seq<u8>>,
    base: Seq<char>,
    bytes: Seq<u8>,
    first: Identity,
    second: Identity,
)
    requires
        artifacts_of(bytes) is Ok,
        first != second,
    ensures
        forall|one: Slot, other: Slot| #[trigger]
            slot_path(base, one, first) != #[trigger] slot_path(base, other, second),
        ({
            let images = artifacts_of(bytes).unwrap();
            let both = effect_of_all(
                effect_of_all(files, save_steps(base, first, images)),
                save_steps(base, second, images),
            );
            let left = effect_of_all(both, delete_steps(base, first));
            forall|slot: Slot|
                {
                    &&& both.contains_key(#[trigger] slot_path(base, slot, first))
                    &&& both.contains_key(slot_path(base, slot, second))
                    &&& both[slot_path(base, slot, first)] == slot_content(images, slot)
                    &&& both[slot_path(base, slot, second)] == slot_content(images, slot)
                    &&& !left.contains_key(slot_path(base, slot, first))
                    &&& left.contains_key(slot_path(base, slot, second))
                    &&& left[slot_path(base, slot, second)] == slot_content(images, slot)
                }
        }),
{
    let images = artifacts_of(bytes).unwrap();
    let once = effect_of_all(files, save_steps(base, first, images));
    let both = effect_of_all(once, save_steps(base, second, images));
    let left = effect_of_all(both, delete_steps(base, first));
    assert forall|one: Slot, other: Slot| #[trigger]
        slot_path(base, one, first) != #[trigger] slot_path(base, other, second) by {
        lemma_identities_apart(base, first, second, one, other);
    }
    lemma_save_effect(files, base, first, images);
    lemma_save_effect(once, base, second, images);
    lemma_delete_effect(both, base, first);
    assert forall|slot: Slot|
        {
            &&& both.contains_key(#[trigger] slot_path(base, slot, first))
            &&& both.contains_key(slot_path(base, slot, second))
            &&& both[slot_path(base, slot, first)] == slot_content(images, slot)
            &&& both[slot_path(base, slot, second)] == slot_content(images, slot)
            &&& !left.contains_key(slot_path(base, slot, first))
            &&& left.contains_key(slot_path(base, slot, second))
            &&& left[slot_path(base, slot, second)] == slot_content(images, slot)
        } by {
        lemma_save_leaves_others(once, base, second, images, first, slot);
        lemma_delete_leaves_others(both, base, first, second, slot);
        assert(once.contains_key(slot_path(base, slot, first)));
        assert(both.contains_key(slot_path(base, slot, second)));
    }
}

/// An update never touches the store: its plan is one step, and that step
/// replaces the record in the index.
pub proof fn lemma_update_spares_store(current: ImageRecord, patch: ImagePatch)
    ensures
        update_plan(current, patch).len() == 1,
        forall|k: int|
            0 <= k < update_plan(current, patch).len() ==> !(#[trigger] update_plan(
                current,
                patch,
            )[k] is Store),
        update_plan(current, patch)[0] == StepView::Upsert(patch.applied_to(current)),
        patch.applied_to(current).id == current.id,
{
}

} // verus!
