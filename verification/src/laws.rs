//! Properties of history navigation that relate several transitions, proved
//! over the abstract [`State`].

use vstd::prelude::*;
use crate::app::State;

verus! {

/// From a non-browsing state with three history entries, three up steps
/// followed by three down steps restore the buffer and leave the cursor not
/// browsing; the history itself never changes.
pub proof fn lemma_up_down_round_trip(s: State)
    requires
        s.wf(),
        s.cursor is None,
        s.history.len() == 3,
    ensures
        ({
            let r = s.nav_up().nav_up().nav_up().nav_down().nav_down().nav_down();
            &&& r.input == s.input
            &&& r.cursor is None
            &&& r.history == s.history
        }),
{
    let u1 = s.nav_up();
    let u2 = u1.nav_up();
    let u3 = u2.nav_up();
    assert(u3.cursor == Some(0usize));
    let d1 = u3.nav_down();
    let d2 = d1.nav_down();
    assert(d2.cursor == Some(2usize));
    assert(d2.nav_down().cursor is None);
}

/// Once the cursor sits at the oldest entry, stepping up changes nothing,
/// however often it is repeated.
pub proof fn lemma_up_at_oldest_is_noop(s: State)
    requires
        s.cursor == Some(0usize),
    ensures
        s.nav_up() == s,
{
}

/// Stepping down while not browsing changes nothing.
pub proof fn lemma_down_not_browsing_is_noop(s: State)
    requires
        s.cursor is None,
    ensures
        s.nav_down() == s,
{
}

} // verus!
