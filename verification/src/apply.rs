//! Server-side apply of the rendered object set: what to ask the apiserver next,
//! and what its answers mean.
//!
//! SSA is what makes drift self-healing: we always re-send our full intent under
//! a stable field manager, so a hand-edited ConfigMap or a stripped DaemonSet
//! field is put back on the next reconcile without us having to diff anything.
//!
//! Accommodations for the rustkube apiserver this stack runs against:
//!
//! * It implements `application/apply-patch+yaml` as a plain merge with no
//!   field-ownership tracking. Our fields are still restored; fields *added* by
//!   someone else survive rather than being pruned. Drift-heal, not drift-purge.
//! * Older builds answer a patch of a missing object with 404 instead of
//!   creating it, so the object is created directly.
//! * Older builds reject PATCH outright, so a 405/501 falls back to
//!   create-then-replace.

use vstd::prelude::*;

use crate::kube_error::{ErrorResponse, ErrorResponseView, KubeError, KubeErrorView};
use crate::render::{is_cilium_cr, Rendered, RenderedView};
use crate::text::{cat, cat3, contains, is_empty};

verus! {

use crate::kube_error::refused_with;
use crate::render::cilium_cr;
use crate::text::occurs_in;

/// Why an object could not be applied.
#[derive(Clone, Debug, PartialEq, Eq)]
pub enum ApplyError {
    /// The object's CRD does not exist yet. For Cilium's own CRs this is
    /// expected on a fresh install — `cilium-operator` has not created them.
    KindNotFound { id: String },
    Api { id: String, source: KubeError },
}

/// What an [`ApplyError`] holds.
#[verifier::ext_equal]
pub enum ApplyErrorView {
    KindNotFound { id: Seq<char> },
    Api { id: Seq<char>, source: KubeErrorView },
}

impl DeepView for ApplyError {
    type V = ApplyErrorView;

    open spec fn deep_view(&self) -> ApplyErrorView {
        match self {
            ApplyError::KindNotFound { id } => ApplyErrorView::KindNotFound { id: id@ },
            ApplyError::Api { id, source } => ApplyErrorView::Api {
                id: id@,
                source: source.deep_view(),
            },
        }
    }
}

impl ApplyErrorView {
    /// The error in one line.
    pub open spec fn line(self) -> Seq<char> {
        match self {
            ApplyErrorView::KindNotFound { id } => id + ": kind not registered yet"@,
            ApplyErrorView::Api { id, source } => id + ": "@ + source.line(),
        }
    }
}

impl ApplyError {
    /// The error in one line.
    pub fn describe(&self) -> (r: String)
        ensures
            r@ == self.deep_view().line(),
    {
        match self {
            ApplyError::KindNotFound { id } => cat(id.as_str(), ": kind not registered yet"),
            ApplyError::Api { id, source } => cat3(
                id.as_str(),
                ": ",
                source.describe().as_str(),
            ),
        }
    }
}

// --- missing kinds ---------------------------------------------------------

/// A 404 about the *resource type*: the kind is unknown. A 404 that names an
/// object means that object is absent.
pub open spec fn kind_missing(e: ErrorResponseView) -> bool {
    e.code == 404 && (occurs_in(e.message, "could not find the requested resource"@) || occurs_in(
        e.message,
        "no matches for kind"@,
    ) || e.message.len() == 0)
}

/// A 404 whose message is about the *resource type* means the kind is unknown,
/// as opposed to a 404 naming an object, which means that object is absent.
pub fn is_kind_missing(e: &ErrorResponse) -> (r: bool)
    ensures
        r == kind_missing(e.deep_view()),
{
    e.code == 404 && (contains(e.message.as_str(), "could not find the requested resource")
        || contains(e.message.as_str(), "no matches for kind") || is_empty(e.message.as_str()))
}

// --- one object ------------------------------------------------------------

/// A request to the apiserver about one object.
#[derive(Clone, Debug, PartialEq, Eq)]
pub enum Request {
    /// Server-side apply, forcing conflicts so that a previous owner (a hand-run
    /// `kubectl apply`, or an older field manager) cannot pin a field against us.
    Patch,
    Create,
    /// Read it, for its current resourceVersion.
    Get,
    /// Overwrite it, carrying the current resourceVersion, or the replace is
    /// rejected as a mid-air collision.
    Replace { resource_version: Option<String> },
}

/// What a [`Request`] holds.
#[verifier::ext_equal]
pub enum RequestView {
    Patch,
    Create,
    Get,
    Replace { resource_version: Option<Seq<char>> },
}

impl DeepView for Request {
    type V = RequestView;

    open spec fn deep_view(&self) -> RequestView {
        match self {
            Request::Patch => RequestView::Patch,
            Request::Create => RequestView::Create,
            Request::Get => RequestView::Get,
            Request::Replace { resource_version } => RequestView::Replace {
                resource_version: resource_version.deep_view(),
            },
        }
    }
}

/// The apiserver's answer.
#[derive(Clone, Debug, PartialEq, Eq)]
pub enum Reply {
    /// Done; the object now has this resourceVersion.
    Stored { resource_version: Option<String> },
    Failed(KubeError),
}

/// What a [`Reply`] holds.
#[verifier::ext_equal]
pub enum ReplyView {
    Stored { resource_version: Option<Seq<char>> },
    Failed(KubeErrorView),
}

impl DeepView for Reply {
    type V = ReplyView;

    open spec fn deep_view(&self) -> ReplyView {
        match self {
            Reply::Stored { resource_version } => ReplyView::Stored {
                resource_version: resource_version.deep_view(),
            },
            Reply::Failed(e) => ReplyView::Failed(e.deep_view()),
        }
    }
}

/// What an answer leads to.
#[derive(Clone, Debug, PartialEq, Eq)]
pub enum Step {
    Ask(Request),
    Applied,
    Failed(ApplyError),
}

/// What a [`Step`] holds.
#[verifier::ext_equal]
pub enum StepView {
    Ask(RequestView),
    Applied,
    Failed(ApplyErrorView),
}

impl DeepView for Step {
    type V = StepView;

    open spec fn deep_view(&self) -> StepView {
        match self {
            Step::Ask(request) => StepView::Ask(request.deep_view()),
            Step::Applied => StepView::Applied,
            Step::Failed(e) => StepView::Failed(e.deep_view()),
        }
    }
}

/// An error of the apiserver that stands.
pub open spec fn failed(id: Seq<char>, source: KubeErrorView) -> StepView {
    StepView::Failed(ApplyErrorView::Api { id, source })
}

/// What follows a failed patch: an unknown kind is reported as such; a missing
/// object, or an apiserver without PATCH, makes us create the object.
pub open spec fn after_failed_patch(id: Seq<char>, e: KubeErrorView) -> StepView {
    match e {
        KubeErrorView::Api(response) if kind_missing(response) => StepView::Failed(
            ApplyErrorView::KindNotFound { id },
        ),
        _ => if refused_with(e, 404) || refused_with(e, 405) || refused_with(e, 501) {
            StepView::Ask(RequestView::Create)
        } else {
            failed(id, e)
        },
    }
}

/// What follows an answer.
pub open spec fn next_step(id: Seq<char>, asked: RequestView, reply: ReplyView) -> StepView {
    match reply {
        ReplyView::Stored { resource_version } => if asked is Get {
            StepView::Ask(RequestView::Replace { resource_version })
        } else {
            StepView::Applied
        },
        ReplyView::Failed(e) => match asked {
            RequestView::Patch => after_failed_patch(id, e),
            RequestView::Create => if refused_with(e, 409) {
                StepView::Ask(RequestView::Get)
            } else {
                failed(id, e)
            },
            _ => failed(id, e),
        },
    }
}

fn fail(id: &str, source: KubeError) -> (r: Step)
    ensures
        r.deep_view() == failed(id@, source.deep_view()),
{
    Step::Failed(ApplyError::Api { id: id.to_string(), source })
}

fn patch_failed(id: &str, e: KubeError) -> (r: Step)
    ensures
        r.deep_view() == after_failed_patch(id@, e.deep_view()),
{
    if let KubeError::Api(response) = &e {
        if is_kind_missing(response) {
            return Step::Failed(ApplyError::KindNotFound { id: id.to_string() });
        }
    }
    if e.has_code(404) || e.has_code(405) || e.has_code(501) {
        Step::Ask(Request::Create)
    } else {
        fail(id, e)
    }
}

/// Go on applying an object, from what was asked and what the apiserver
/// answered. The first request of an object is [`Request::Patch`].
pub fn after(id: &str, asked: &Request, reply: Reply) -> (r: Step)
    ensures
        r.deep_view() == next_step(id@, asked.deep_view(), reply.deep_view()),
{
    match reply {
        Reply::Stored { resource_version } => {
            match asked {
                Request::Get => Step::Ask(Request::Replace { resource_version }),
                _ => Step::Applied,
            }
        },
        Reply::Failed(e) => {
            match asked {
                Request::Patch => patch_failed(id, e),
                Request::Create => {
                    if e.has_code(409) {
                        Step::Ask(Request::Get)
                    } else {
                        fail(id, e)
                    }
                },
                _ => fail(id, e),
            }
        },
    }
}

// --- all objects -----------------------------------------------------------

/// A Cilium CR whose CRD is not registered yet: it is put off, not failed.
pub open spec fn deferrable(r: RenderedView, outcome: Result<(), ApplyErrorView>) -> bool {
    outcome matches Err(ApplyErrorView::KindNotFound { .. }) && cilium_cr(r)
}

/// What was put off so far, once the outcome of one more object is known; or the
/// error that ends the pass.
pub open spec fn settled(
    deferred: Seq<Seq<char>>,
    r: RenderedView,
    outcome: Result<(), ApplyErrorView>,
) -> Result<Seq<Seq<char>>, ApplyErrorView> {
    match outcome {
        Ok(()) => Ok(deferred),
        Err(e) => if deferrable(r, outcome) {
            Ok(deferred.push(e->KindNotFound_id))
        } else {
            Err(e)
        },
    }
}

/// What applying objects in order comes to, from the outcome of each: the ids
/// that were put off, or the first error that could not be.
pub open spec fn pass_outcome(
    objects: Seq<RenderedView>,
    outcomes: Seq<Result<(), ApplyErrorView>>,
) -> Result<Seq<Seq<char>>, ApplyErrorView>
    decreases objects.len(),
{
    if objects.len() == 0 {
        Ok(seq![])
    } else {
        match pass_outcome(objects.drop_last(), outcomes.drop_last()) {
            Ok(deferred) => settled(deferred, objects.last(), outcomes.last()),
            Err(e) => Err(e),
        }
    }
}

/// An outcome, as the contracts speak of it.
pub open spec fn outcome_view(outcome: Result<(), ApplyError>) -> Result<(), ApplyErrorView> {
    match outcome {
        Ok(()) => Ok(()),
        Err(e) => Err(e.deep_view()),
    }
}

/// Take the outcome of one object into account. Success, or a Cilium CR whose
/// CRD is not registered yet, which is put off, lets the pass go on; any other
/// error comes back and ends it.
pub fn settle(
    deferred: &mut Vec<String>,
    r: &Rendered,
    outcome: Result<(), ApplyError>,
) -> (stop: Option<ApplyError>)
    ensures
        match settled(old(deferred).deep_view(), r.deep_view(), outcome_view(outcome)) {
            Ok(ids) => stop is None && final(deferred).deep_view() == ids,
            Err(e) => stop.deep_view() == Some(e) && final(deferred).deep_view() == old(
                deferred,
            ).deep_view(),
        },
{
    match outcome {
        Ok(()) => None,
        Err(ApplyError::KindNotFound { id }) => {
            if is_cilium_cr(r) {
                let ghost before = deferred.deep_view();
                deferred.push(id);
                assert(deferred.deep_view() =~= before.push(id@));
                None
            } else {
                Some(ApplyError::KindNotFound { id })
            }
        },
        Err(e) => Some(e),
    }
}

// --- removing --------------------------------------------------------------

/// What a deletion comes to.
pub open spec fn after_deletion(
    id: Seq<char>,
    reply: Result<(), KubeErrorView>,
) -> Result<(), ApplyErrorView> {
    match reply {
        Ok(()) => Ok(()),
        Err(e) => if refused_with(e, 404) {
            Ok(())
        } else {
            Err(ApplyErrorView::Api { id, source: e })
        },
    }
}

/// What a deletion comes to: a missing object, or a missing kind, is success.
pub fn deleted(id: &str, reply: Result<(), KubeError>) -> (r: Result<(), ApplyError>)
    ensures
        outcome_view(r) == after_deletion(
            id@,
            match reply {
                Ok(()) => Ok(()),
                Err(e) => Err(e.deep_view()),
            },
        ),
        match reply {
            Ok(()) => r is Ok,
            Err(e) => if refused_with(e.deep_view(), 404) {
                r is Ok
            } else {
                r matches Err(ApplyError::Api { id: of, source }) && of@ == id@ && source == e
            },
        },
{
    match reply {
        Ok(()) => Ok(()),
        Err(e) => {
            if e.has_code(404) {
                Ok(())
            } else {
                Err(ApplyError::Api { id: id.to_string(), source: e })
            }
        },
    }
}

// --- laws ------------------------------------------------------------------

/// How far along a request is.
pub open spec fn rank(request: RequestView) -> nat {
    match request {
        RequestView::Patch => 3,
        RequestView::Create => 2,
        RequestView::Get => 1,
        RequestView::Replace { .. } => 0,
    }
}

/// Every answer leads forward: whatever the apiserver says, an object is settled
/// after at most four requests.
pub proof fn law_applying_ends(id: Seq<char>, asked: RequestView, reply: ReplyView)
    ensures
        next_step(id, asked, reply) matches StepView::Ask(next) ==> rank(next) < rank(asked),
{
}

/// An object is only ever overwritten with the resourceVersion that was just read.
pub proof fn law_replacing_carries_the_current_version(
    id: Seq<char>,
    asked: RequestView,
    reply: ReplyView,
)
    ensures
        next_step(id, asked, reply) matches StepView::Ask(
            RequestView::Replace { resource_version },
        ) ==> asked is Get && reply == (ReplyView::Stored { resource_version }),
{
}

/// An unknown kind is never answered by creating the object, and is reported
/// under the object's id, which is what defers a Cilium CR.
pub proof fn law_a_missing_kind_is_reported(id: Seq<char>, e: ErrorResponseView)
    requires
        kind_missing(e),
    ensures
        next_step(id, RequestView::Patch, ReplyView::Failed(KubeErrorView::Api(e)))
            == StepView::Failed(ApplyErrorView::KindNotFound { id }),
{
}

/// A missing object of a known kind is created.
pub proof fn law_a_missing_object_is_created(id: Seq<char>, e: ErrorResponseView)
    requires
        e.code == 404,
        !kind_missing(e),
    ensures
        next_step(id, RequestView::Patch, ReplyView::Failed(KubeErrorView::Api(e)))
            == StepView::Ask(RequestView::Create),
{
}

/// An object counts as applied only where the apiserver has stored it, and
/// applying fails only where the apiserver failed: with its error, or with an
/// unknown kind.
pub proof fn law_success_is_the_apiservers(id: Seq<char>, asked: RequestView, reply: ReplyView)
    ensures
        next_step(id, asked, reply) is Applied ==> reply is Stored,
        next_step(id, asked, reply) matches StepView::Failed(e) ==> reply is Failed && (e
            == (ApplyErrorView::KindNotFound { id }) || e == (ApplyErrorView::Api {
            id,
            source: reply->Failed_0,
        })),
{
}

/// A pass over objects fails exactly if some object failed in a way that cannot
/// be put off.
pub proof fn law_only_missing_cilium_crds_are_put_off(
    objects: Seq<RenderedView>,
    outcomes: Seq<Result<(), ApplyErrorView>>,
)
    requires
        objects.len() == outcomes.len(),
    ensures
        pass_outcome(objects, outcomes) is Ok <==> forall|i: int|
            0 <= i < objects.len() ==> (#[trigger] outcomes[i]) is Ok || deferrable(
                objects[i],
                outcomes[i],
            ),
    decreases objects.len(),
{
    if objects.len() > 0 {
        let fewer = objects.drop_last();
        let before = outcomes.drop_last();
        law_only_missing_cilium_crds_are_put_off(fewer, before);
        let last = objects.len() - 1;
        assert(outcomes[last] == outcomes.last());
        if pass_outcome(objects, outcomes) is Ok {
            assert forall|i: int| 0 <= i < objects.len() implies (#[trigger] outcomes[i]) is Ok
                || deferrable(objects[i], outcomes[i]) by {
                if i < last {
                    assert(before[i] == outcomes[i]);
                    assert(fewer[i] == objects[i]);
                }
            }
        } else if pass_outcome(fewer, before) is Err {
            let i = choose|i: int|
                0 <= i < fewer.len() && !((#[trigger] before[i]) is Ok || deferrable(
                    fewer[i],
                    before[i],
                ));
            assert(before[i] == outcomes[i]);
            assert(fewer[i] == objects[i]);
        }
    }
}

/// The first object that failed in a way that cannot be put off.
pub open spec fn first_failure(
    objects: Seq<RenderedView>,
    outcomes: Seq<Result<(), ApplyErrorView>>,
    k: int,
) -> bool {
    &&& 0 <= k < objects.len()
    &&& outcomes[k] is Err
    &&& !deferrable(objects[k], outcomes[k])
    &&& forall|i: int|
        0 <= i < k ==> (#[trigger] outcomes[i]) is Ok || deferrable(objects[i], outcomes[i])
}

proof fn lemma_first_failure(
    objects: Seq<RenderedView>,
    outcomes: Seq<Result<(), ApplyErrorView>>,
    k: int,
)
    requires
        objects.len() == outcomes.len(),
        first_failure(objects, outcomes, k),
    ensures
        pass_outcome(objects, outcomes) == Err::<Seq<Seq<char>>, _>(outcomes[k]->Err_0),
    decreases objects.len(),
{
    let fewer = objects.drop_last();
    let before = outcomes.drop_last();
    assert forall|i: int| 0 <= i < k implies (#[trigger] before[i]) is Ok || deferrable(
        fewer[i],
        before[i],
    ) by {
        assert(outcomes[i] is Ok || deferrable(objects[i], outcomes[i]));
    }
    if k == objects.len() - 1 {
        law_only_missing_cilium_crds_are_put_off(fewer, before);
    } else {
        lemma_first_failure(fewer, before, k);
    }
}

/// The error of a pass is that of the first object that failed in a way that
/// cannot be put off.
pub proof fn law_the_first_failure_is_reported(
    objects: Seq<RenderedView>,
    outcomes: Seq<Result<(), ApplyErrorView>>,
) -> (k: int)
    requires
        objects.len() == outcomes.len(),
        pass_outcome(objects, outcomes) is Err,
    ensures
        first_failure(objects, outcomes, k),
        pass_outcome(objects, outcomes) == Err::<Seq<Seq<char>>, _>(outcomes[k]->Err_0),
    decreases objects.len(),
{
    let fewer = objects.drop_last();
    let before = outcomes.drop_last();
    let k = if pass_outcome(fewer, before) is Err {
        law_the_first_failure_is_reported(fewer, before)
    } else {
        law_only_missing_cilium_crds_are_put_off(fewer, before);
        objects.len() - 1
    };
    assert forall|i: int| 0 <= i < k implies (#[trigger] outcomes[i]) is Ok || deferrable(
        objects[i],
        outcomes[i],
    ) by {
        assert(before[i] is Ok || deferrable(fewer[i], before[i]));
    }
    lemma_first_failure(objects, outcomes, k);
    k
}

/// A pass ends at its first failure: whatever objects follow, and whatever would
/// come of them, the pass comes to the same.
pub proof fn law_nothing_after_the_first_failure_matters(
    objects: Seq<RenderedView>,
    outcomes: Seq<Result<(), ApplyErrorView>>,
    others: Seq<RenderedView>,
    their_outcomes: Seq<Result<(), ApplyErrorView>>,
    k: int,
)
    requires
        objects.len() == outcomes.len(),
        others.len() == their_outcomes.len(),
        first_failure(objects, outcomes, k),
        k < others.len(),
        others.take(k + 1) == objects.take(k + 1),
        their_outcomes.take(k + 1) == outcomes.take(k + 1),
    ensures
        pass_outcome(others, their_outcomes) == pass_outcome(objects, outcomes),
{
    let shared = objects.take(k + 1);
    let came_of = outcomes.take(k + 1);
    assert(shared[k] == objects[k] && shared[k] == others[k]);
    assert(came_of[k] == outcomes[k]);
    assert(came_of[k] == their_outcomes[k]);
    assert forall|i: int| 0 <= i < k implies (#[trigger] their_outcomes[i]) is Ok || deferrable(
        others[i],
        their_outcomes[i],
    ) by {
        assert(shared[i] == objects[i] && shared[i] == others[i]);
        assert(came_of[i] == outcomes[i]);
        assert(came_of[i] == their_outcomes[i]);
    }
    lemma_first_failure(objects, outcomes, k);
    lemma_first_failure(others, their_outcomes, k);
}

/// What a pass puts off are Cilium CRs whose kind is missing, each under the id
/// that was reported of it.
pub proof fn law_deferred_ids_are_of_cilium_crs(
    objects: Seq<RenderedView>,
    outcomes: Seq<Result<(), ApplyErrorView>>,
    d: int,
) -> (i: int)
    requires
        objects.len() == outcomes.len(),
        pass_outcome(objects, outcomes) is Ok,
        0 <= d < pass_outcome(objects, outcomes)->Ok_0.len(),
    ensures
        0 <= i < objects.len(),
        d <= i,
        cilium_cr(objects[i]),
        outcomes[i] == Err::<(), _>(
            (ApplyErrorView::KindNotFound { id: pass_outcome(objects, outcomes)->Ok_0[d] }),
        ),
    decreases objects.len(),
{
    let fewer = objects.drop_last();
    let before = outcomes.drop_last();
    lemma_deferred_count(fewer, before);
    if d < pass_outcome(fewer, before)->Ok_0.len() {
        law_deferred_ids_are_of_cilium_crs(fewer, before, d)
    } else {
        objects.len() - 1
    }
}

proof fn lemma_deferred_count(
    objects: Seq<RenderedView>,
    outcomes: Seq<Result<(), ApplyErrorView>>,
)
    requires
        objects.len() == outcomes.len(),
    ensures
        pass_outcome(objects, outcomes) is Ok ==> pass_outcome(objects, outcomes)->Ok_0.len()
            <= objects.len(),
    decreases objects.len(),
{
    if objects.len() > 0 {
        lemma_deferred_count(objects.drop_last(), outcomes.drop_last());
    }
}

/// The ids that a pass puts off come in the order of their objects.
pub proof fn law_deferred_ids_keep_the_order(
    objects: Seq<RenderedView>,
    outcomes: Seq<Result<(), ApplyErrorView>>,
    d1: int,
    d2: int,
) -> (r: (int, int))
    requires
        objects.len() == outcomes.len(),
        pass_outcome(objects, outcomes) is Ok,
        0 <= d1 < d2 < pass_outcome(objects, outcomes)->Ok_0.len(),
    ensures
        0 <= r.0 < r.1 < objects.len(),
        cilium_cr(objects[r.0]),
        cilium_cr(objects[r.1]),
        outcomes[r.0] == Err::<(), _>(
            (ApplyErrorView::KindNotFound { id: pass_outcome(objects, outcomes)->Ok_0[d1] }),
        ),
        outcomes[r.1] == Err::<(), _>(
            (ApplyErrorView::KindNotFound { id: pass_outcome(objects, outcomes)->Ok_0[d2] }),
        ),
    decreases objects.len(),
{
    let fewer = objects.drop_last();
    let before = outcomes.drop_last();
    if d2 < pass_outcome(fewer, before)->Ok_0.len() {
        law_deferred_ids_keep_the_order(fewer, before, d1, d2)
    } else {
        (law_deferred_ids_are_of_cilium_crs(fewer, before, d1), objects.len() - 1)
    }
}

/// Every Cilium CR whose kind is missing is put off: its id is among those that
/// the pass reports.
pub proof fn law_every_missing_cilium_crd_is_put_off(
    objects: Seq<RenderedView>,
    outcomes: Seq<Result<(), ApplyErrorView>>,
    i: int,
) -> (d: int)
    requires
        objects.len() == outcomes.len(),
        pass_outcome(objects, outcomes) is Ok,
        0 <= i < objects.len(),
        deferrable(objects[i], outcomes[i]),
    ensures
        0 <= d < pass_outcome(objects, outcomes)->Ok_0.len(),
        outcomes[i] == Err::<(), _>(
            (ApplyErrorView::KindNotFound { id: pass_outcome(objects, outcomes)->Ok_0[d] }),
        ),
    decreases objects.len(),
{
    let fewer = objects.drop_last();
    let before = outcomes.drop_last();
    if i == objects.len() - 1 {
        pass_outcome(fewer, before)->Ok_0.len() as int
    } else {
        assert(before[i] == outcomes[i]);
        assert(fewer[i] == objects[i]);
        law_every_missing_cilium_crd_is_put_off(fewer, before, i)
    }
}

/// What each answer of the apiserver leads to, by its code: a patch that it cannot
/// do becomes a create, a create that comes too late a read and an overwrite, and
/// anything else is the error of the object.
pub proof fn law_what_each_answer_leads_to(
    id: Seq<char>,
    e: ErrorResponseView,
    lost: Seq<char>,
    version: Option<Seq<char>>,
    asked: RequestView,
)
    ensures
        ({
            let refusal = KubeErrorView::Api(e);
            let error = StepView::Failed(ApplyErrorView::Api { id, source: refusal });
            let unknown_kind = occurs_in(e.message, "could not find the requested resource"@)
                || occurs_in(e.message, "no matches for kind"@) || e.message.len() == 0;
            let after_patch = next_step(id, RequestView::Patch, ReplyView::Failed(refusal));
            &&& e.code == 404 && unknown_kind ==> after_patch == StepView::Failed(
                ApplyErrorView::KindNotFound { id },
            )
            &&& e.code == 404 && !unknown_kind ==> after_patch == StepView::Ask(
                RequestView::Create,
            )
            &&& e.code == 405 || e.code == 501 ==> after_patch == StepView::Ask(
                RequestView::Create,
            )
            &&& e.code != 404 && e.code != 405 && e.code != 501 ==> after_patch == error
            &&& next_step(id, RequestView::Create, ReplyView::Failed(refusal)) == if e.code
                == 409 {
                StepView::Ask(RequestView::Get)
            } else {
                error
            }
            &&& asked is Get || asked is Replace ==> next_step(
                id,
                asked,
                ReplyView::Failed(refusal),
            ) == error
        }),
        next_step(id, asked, ReplyView::Failed(KubeErrorView::Other(lost))) == StepView::Failed(
            ApplyErrorView::Api { id, source: KubeErrorView::Other(lost) },
        ),
        next_step(id, RequestView::Get, ReplyView::Stored { resource_version: version })
            == StepView::Ask(RequestView::Replace { resource_version: version }),
        !(asked is Get) ==> next_step(
            id,
            asked,
            ReplyView::Stored { resource_version: version },
        ) is Applied,
{
}

/// What is put off: an object of the group `cilium.io` whose kind is not registered.
pub proof fn law_what_is_put_off(r: RenderedView, e: ApplyErrorView)
    ensures
        deferrable(r, Err(e)) <==> e is KindNotFound && r.api.group == "cilium.io"@,
        !deferrable(r, Ok(())),
{
}

/// An error in one line, under the id of the object.
pub proof fn law_how_an_apply_error_reads(id: Seq<char>, source: KubeErrorView)
    ensures
        (ApplyErrorView::KindNotFound { id }).line() == id + ": kind not registered yet"@,
        (ApplyErrorView::Api { id, source }).line() == id + ": "@ + source.line(),
{
}

/// Deleting fails exactly where the apiserver fails with anything but 404: what is
/// not there, or has no kind, needs no deleting.
pub proof fn law_deleting_what_is_gone_is_success(id: Seq<char>, e: KubeErrorView, code: u16)
    ensures
        after_deletion(id, Ok(())) is Ok,
        refused_with(e, 404) ==> after_deletion(id, Err(e)) is Ok,
        code != 404 && refused_with(e, code) ==> after_deletion(id, Err(e)) == Err::<(), _>(
            (ApplyErrorView::Api { id, source: e }),
        ),
        e is Other ==> after_deletion(id, Err(e)) == Err::<(), _>(
            (ApplyErrorView::Api { id, source: e }),
        ),
{
}

} // verus!
