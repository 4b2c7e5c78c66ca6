//! Writing `Network.status`: which way to try next.
//!
//! rustkube's CR handling has historically been partial: some builds serve no
//! `/status` subresource, and older ones reject PATCH entirely. So this walks
//! down a ladder — patch `/status`, then PUT `/status`, then read-modify-PUT the
//! whole object — and only the last rung can clobber a concurrent spec write,
//! which is why it is last.

use vstd::prelude::*;

use crate::kube_error::{KubeError, KubeErrorView};

verus! {

use crate::kube_error::refused_with;

/// Where a whole status is put.
#[derive(Clone, Copy, Debug, PartialEq, Eq, Structural)]
pub enum Route {
    /// `/status`: a spec write racing us cannot be lost.
    Subresource,
    /// The whole object, with the spec that was read just before.
    Whole,
}

/// A request to the apiserver about the `Network`.
#[derive(Clone, Copy, Debug, PartialEq, Eq, Structural)]
pub enum Request {
    /// Server-side apply of the status on `/status`.
    Patch,
    /// Read the object that is to be put with the new status.
    Read(Route),
    /// Put back what was read, with the new status.
    Put(Route),
}

/// What an answer leads to.
#[derive(Clone, Debug, PartialEq, Eq)]
pub enum Step {
    Ask(Request),
    Written,
    Failed(KubeError),
}

/// What a [`Step`] holds.
#[verifier::ext_equal]
pub enum StepView {
    Ask(Request),
    Written,
    Failed(KubeErrorView),
}

impl DeepView for Step {
    type V = StepView;

    open spec fn deep_view(&self) -> StepView {
        match self {
            Step::Ask(request) => StepView::Ask(*request),
            Step::Written => StepView::Written,
            Step::Failed(e) => StepView::Failed(e.deep_view()),
        }
    }
}

/// The apiserver says that a *route* does not exist.
pub open spec fn route_missing(e: KubeErrorView) -> bool {
    refused_with(e, 404) || refused_with(e, 405) || refused_with(e, 501)
}

/// Whether the apiserver is telling us this *route* does not exist, as opposed
/// to rejecting this particular write.
pub fn unsupported(e: &KubeError) -> (r: bool)
    ensures
        r == route_missing(e.deep_view()),
{
    e.has_code(404) || e.has_code(405) || e.has_code(501)
}

/// The rung below, where there is one.
pub open spec fn rung_below(request: Request) -> Option<Request> {
    match request {
        Request::Patch => Some(Request::Read(Route::Subresource)),
        Request::Put(Route::Subresource) => Some(Request::Read(Route::Whole)),
        _ => None,
    }
}

/// What follows an answer.
pub open spec fn next_step(asked: Request, reply: Result<(), KubeErrorView>) -> StepView {
    match reply {
        Ok(()) => match asked {
            Request::Read(route) => StepView::Ask(Request::Put(route)),
            _ => StepView::Written,
        },
        Err(e) => if route_missing(e) && rung_below(asked) is Some {
            StepView::Ask(rung_below(asked)->0)
        } else {
            StepView::Failed(e)
        },
    }
}

/// A reply, as the contracts speak of it.
pub open spec fn reply_view(reply: Result<(), KubeError>) -> Result<(), KubeErrorView> {
    match reply {
        Ok(()) => Ok(()),
        Err(e) => Err(e.deep_view()),
    }
}

/// Go on writing a status, from what was asked and what the apiserver answered.
/// The first request is [`Request::Patch`].
pub fn after(asked: Request, reply: Result<(), KubeError>) -> (r: Step)
    ensures
        r.deep_view() == next_step(asked, reply_view(reply)),
{
    match reply {
        Ok(()) => {
            match asked {
                Request::Read(route) => Step::Ask(Request::Put(route)),
                _ => Step::Written,
            }
        },
        Err(e) => {
            if unsupported(&e) {
                match asked {
                    Request::Patch => Step::Ask(Request::Read(Route::Subresource)),
                    Request::Put(Route::Subresource) => Step::Ask(Request::Read(Route::Whole)),
                    _ => Step::Failed(e),
                }
            } else {
                Step::Failed(e)
            }
        },
    }
}

// --- laws ------------------------------------------------------------------

/// How far up the ladder a request is.
pub open spec fn rank(request: Request) -> nat {
    match request {
        Request::Patch => 4,
        Request::Read(Route::Subresource) => 3,
        Request::Put(Route::Subresource) => 2,
        Request::Read(Route::Whole) => 1,
        Request::Put(Route::Whole) => 0,
    }
}

/// Every answer leads down the ladder: writing a status takes at most five
/// requests.
pub proof fn law_writing_ends(asked: Request, reply: Result<(), KubeErrorView>)
    ensures
        next_step(asked, reply) matches StepView::Ask(next) ==> rank(next) < rank(asked),
{
}

/// The whole object is put only after it was read again, and is read for that
/// only after `/status` turned out not to be served.
pub proof fn law_the_whole_object_is_the_last_resort(
    asked: Request,
    reply: Result<(), KubeErrorView>,
)
    ensures
        next_step(asked, reply) == StepView::Ask(Request::Put(Route::Whole)) ==> asked
            == Request::Read(Route::Whole) && reply is Ok,
        next_step(asked, reply) == StepView::Ask(Request::Read(Route::Whole)) ==> asked
            == Request::Put(Route::Subresource) && reply is Err && route_missing(reply->Err_0),
{
}

/// A write that the apiserver rejects for what it says is never tried another
/// way: the error comes back as it is.
pub proof fn law_rejections_surface(asked: Request, e: KubeErrorView)
    requires
        !route_missing(e),
    ensures
        next_step(asked, Err(e)) == StepView::Failed(e),
{
}

/// The ladder, by the codes that lead down it: a route that answers 404, 405 or 501
/// is not there, and the next way is tried while there is one; what was read is put
/// back the way it was read for.
pub proof fn law_the_ladder(code: u16, e: KubeErrorView, route: Route)
    requires
        refused_with(e, code),
    ensures
        ({
            let missing = code == 404 || code == 405 || code == 501;
            &&& next_step(Request::Patch, Ok(())) is Written
            &&& next_step(Request::Patch, Err(e)) == if missing {
                StepView::Ask(Request::Read(Route::Subresource))
            } else {
                StepView::Failed(e)
            }
            &&& next_step(Request::Read(route), Ok(())) == StepView::Ask(Request::Put(route))
            &&& next_step(Request::Read(route), Err(e)) == StepView::Failed(e)
            &&& next_step(Request::Put(route), Ok(())) is Written
            &&& next_step(Request::Put(Route::Subresource), Err(e)) == if missing {
                StepView::Ask(Request::Read(Route::Whole))
            } else {
                StepView::Failed(e)
            }
            &&& next_step(Request::Put(Route::Whole), Err(e)) == StepView::Failed(e)
        }),
{
}

/// An error that is not the apiserver's own ends the writing.
pub proof fn law_a_lost_request_ends_the_writing(asked: Request, lost: Seq<char>)
    ensures
        next_step(asked, Err(KubeErrorView::Other(lost))) == StepView::Failed(
            KubeErrorView::Other(lost),
        ),
{
}

} // verus!
