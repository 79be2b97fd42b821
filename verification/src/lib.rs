//! The core of a reparenting window manager, written as a state machine that performs no
//! input or output of its own.
//!
//! The manager talks to the display server in a strict question-and-answer rhythm: it hands
//! out a list of [`Request`](protocol::Request)s, the last of which is a query, and is driven
//! on by the [`Reply`](protocol::Reply) to that query. Everything it decides (which windows
//! to adopt, where frames go, how a drag moves or resizes a frame) is computed here and
//! verified; carrying the requests out is left to the caller.

use vstd::prelude::*;
use crate::env::{Env, EnvState};
use crate::geometry::FontMetrics;
use crate::protocol::{Reply, Request};

pub mod client;
pub mod env;
pub mod event;
pub mod geometry;
pub mod laws;
pub mod mode;
pub mod protocol;
pub mod registry;

verus! {

/// The state that a manager created with `font` reaches when it begins its startup scan
/// and is then given `replies` one by one, and all the requests it makes on the way.
pub open spec fn run_spec(font: Option<FontMetrics>, replies: Seq<Reply>) -> (
    EnvState,
    Seq<Request>,
) {
    let start = EnvState::initial(font).scan();
    let end = start.0.run(replies);
    (end.0, start.1 + end.1)
}

/// Runs a manager from its creation through a whole conversation with the server: it
/// begins the startup scan, takes each of `replies` in turn, and stops when they are used
/// up. Returns the manager as it then stands and every request it made, in order.
pub fn run(font: Option<FontMetrics>, replies: Vec<Reply>) -> (end: (Env, Vec<Request>))
    ensures
        (end.0@, end.1@) == run_spec(font, replies@),
        end.0@.wf(),
{
    let mut env = Env::new(font);
    let mut requests = env.scan_wins();
    let ghost start = env@;
    let ghost asked = requests@;
    let ghost all = replies@;
    for reply in it: replies
        invariant
            it.seq() == all,
            env@.wf(),
            env@ == start.run(all.take(it.index())).0,
            requests@ == asked + start.run(all.take(it.index())).1,
    {
        proof {
            assert(all.take(it.index() + 1).drop_last() =~= all.take(it.index()));
        }
        let mut next = env.step(reply);
        requests.append(&mut next);
    }
    proof {
        assert(all.take(all.len() as int) =~= all);
    }
    (env, requests)
}

} // verus!
