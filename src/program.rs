//! The coordinator's side of the handoff with the load worker.
//!
//! The worker announces that it is ready and then blocks until it is handed
//! a request. The coordinator never blocks on it: it hands a request over
//! only in answer to that announcement, or later while it knows the worker to
//! be parked waiting.

use vstd::prelude::*;

use crate::gallery::Tiling;
use crate::load_request::LoadRequest;
use crate::rlens::RLens;

verus! {

/// Whether the load worker is parked waiting for a request.
pub struct ImageLoaderLink {
    waiting: bool,
}

impl ImageLoaderLink {
    pub closed spec fn waiting_spec(&self) -> bool {
        self.waiting
    }

    /// A link to a worker that has not announced itself yet.
    pub fn new() -> (r: Self)
        ensures
            !r.waiting_spec(),
    {
        ImageLoaderLink { waiting: false }
    }

    /// Whether the worker is parked waiting for a request.
    pub fn is_waiting(&self) -> (r: bool)
        ensures
            r == self.waiting_spec(),
    {
        self.waiting
    }

    /// The worker announced that it is ready: return the request to hand it,
    /// or, where there is nothing to load, note that it is left waiting.
    pub fn on_ready<T>(&mut self, rlens: &RLens<T>, tiling: Option<Tiling>) -> (r: Option<LoadRequest>)
        requires
            rlens.wf(),
        ensures
            r is None <==> !rlens.has_work(tiling),
            r matches Some(req) ==> rlens.is_next_request(tiling, req),
            final(self).waiting_spec() == if r is None {
                true
            } else {
                old(self).waiting_spec()
            },
    {
        let req = rlens.poll_loads(tiling);
        if req.is_none() {
            // Nothing to load now: let the worker sleep until woken
            self.waiting = true;
        }
        req
    }

    /// Something that can make new work happened: return a request to hand
    /// the worker where it is parked and there is something to load.
    /// A busy worker will announce itself when it is done.
    pub fn wake_image_loader<T>(&mut self, rlens: &RLens<T>, tiling: Option<Tiling>) -> (r: Option<
        LoadRequest,
    >)
        requires
            rlens.wf(),
        ensures
            !old(self).waiting_spec() ==> r is None && !final(self).waiting_spec(),
            old(self).waiting_spec() ==> {
                &&& r is None <==> !rlens.has_work(tiling)
                &&& r matches Some(req) ==> rlens.is_next_request(tiling, req)
                &&& final(self).waiting_spec() == r is None
            },
    {
        if self.waiting {
            let req = rlens.poll_loads(tiling);
            if req.is_some() {
                self.waiting = false;
            }
            req
        } else {
            None
        }
    }
}

} // verus!
