use vstd::prelude::*;

use crate::types::{requests_view, Handle, Request, RequestView};

verus! {

/// The active input context after an activation carrying `id`: the newest
/// activation replaces any earlier one.
pub open spec fn after_activate(active: Option<Handle>, id: Handle) -> Option<Handle> {
    Some(id)
}

/// The active input context after a deactivation of `context`: cleared only
/// when `context` is the active one.
pub open spec fn after_deactivate(active: Option<Handle>, context: Handle) -> Option<Handle> {
    if active == Some(context) {
        None
    } else {
        active
    }
}

/// A deactivated context is always released, whether or not it was active.
pub open spec fn deactivate_requests(context: Handle) -> Seq<RequestView> {
    seq![RequestView::Destroy { object: context }]
}

/// The lifecycle of the input context that the server pushes: unbound until
/// an activation, active until the matching deactivation.
#[derive(Clone, Copy, Debug)]
pub struct SessionState {
    pub active: Option<Handle>,
}

impl SessionState {
    pub fn new() -> (r: SessionState)
        ensures
            r.active is None,
    {
        SessionState { active: None }
    }

    /// The active input context, if any.
    pub fn current(&self) -> (r: Option<Handle>)
        ensures
            r == self.active,
    {
        self.active
    }

    /// Activation by the server with a fresh context.
    pub fn activate(&mut self, id: Handle)
        ensures
            final(self).active == after_activate(old(self).active, id),
    {
        self.active = Some(id);
    }

    /// Deactivation by the server; returns the release of `context`.
    pub fn deactivate(&mut self, context: Handle) -> (r: Vec<Request>)
        ensures
            final(self).active == after_deactivate(old(self).active, context),
            requests_view(r@) == deactivate_requests(context),
    {
        match self.active {
            Some(h) => {
                if h == context {
                    self.active = None;
                }
            },
            None => {},
        }
        let mut r: Vec<Request> = Vec::new();
        r.push(Request::Destroy { object: context });
        assert(requests_view(r@) =~= deactivate_requests(context));
        r
    }
}

/// Two activations in a row leave the second context active.
pub proof fn lemma_last_activation_wins(active: Option<Handle>, first: Handle, second: Handle)
    ensures
        after_activate(after_activate(active, first), second) == Some(second),
{
}

/// A deactivation of a context that is not the active one leaves the active
/// context as it was, and still releases that context with exactly one request.
pub proof fn lemma_stale_deactivation(active: Option<Handle>, context: Handle)
    requires
        active != Some(context),
    ensures
        after_deactivate(active, context) == active,
        deactivate_requests(context).len() == 1,
        deactivate_requests(context)[0] == (RequestView::Destroy { object: context }),
{
}

} // verus!
