//! One running node: a context, the current state snapshot, and the
//! counter that hands out action identities.
//!
//! Writes happen only by dispatching an action through the single
//! reduction function; each dispatch replaces the snapshot wholesale.

use vstd::prelude::*;
use crate::action::Action;
use crate::action::ActionWrapper;
use crate::context::Context;
use crate::state::State;
use crate::state::reduce_rel;

verus! {

/// A running node.
#[derive(Debug)]
pub struct Instance {
    /// The identity this node acts under.
    pub context: Context,
    /// The current state snapshot.
    pub state: State,
    /// The next action identity to hand out; all identities in history
    /// are below it.
    pub next_id: u64,
}

impl Instance {
    /// Every identity already in history is below the next one to be
    /// handed out, so a fresh dispatch is never mistaken for a replay.
    pub open spec fn wf(self) -> bool {
        forall|k: int|
            0 <= k < self.state.history@.len() ==> self.state.history@[k] < self.next_id
    }

    /// A fresh node for the given context.
    pub fn new(context: Context) -> (r: Instance)
        ensures
            r.wf(),
            r.context == context,
            r.state.history@ == Seq::<u64>::empty(),
            r.state.nucleus.dna is None,
            r.state.agent.chain.items@ == Seq::<crate::chain::ChainItem>::empty(),
            r.state.dht.entries@.len() == 0,
            r.state.dht.headers@.len() == 0,
            r.state.dht.meta.rows@.len() == 0,
            r.next_id == 0,
    {
        let state = State::new(&context);
        Instance { context, state, next_id: 0 }
    }

    /// Dispatch one action: wrap it under a fresh identity and reduce.
    pub fn dispatch(&mut self, action: Action)
        requires
            old(self).wf(),
            old(self).next_id < u64::MAX,
            old(self).state.dht.meta.rows@.len() + 2 <= u64::MAX,
        ensures
            final(self).wf(),
            final(self).context == old(self).context,
            final(self).next_id == old(self).next_id + 1,
            !old(self).state.history@.contains(old(self).next_id),
            reduce_rel(
                old(self).context,
                old(self).state,
                final(self).state,
                (ActionWrapper { id: old(self).next_id, action }),
            ),
            final(self).state.history@ == old(self).state.history@.push(old(self).next_id),
    {
        proof {
            assert(!old(self).state.history@.contains(old(self).next_id)) by {
                if old(self).state.history@.contains(old(self).next_id) {
                    let k = choose|k: int|
                        0 <= k < old(self).state.history@.len() && old(self).state.history@[k]
                            == old(self).next_id;
                    assert(old(self).state.history@[k] < old(self).next_id);
                }
            }
        }
        let mut st = State::new(&self.context);
        std::mem::swap(&mut st, &mut self.state);
        let wrapper = ActionWrapper::new(self.next_id, action);
        let st2 = st.reduce(&self.context, wrapper);
        self.state = st2;
        self.next_id = self.next_id + 1;
    }
}

} // verus!
