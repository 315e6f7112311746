//! The FIFO queue that marshals actions into the UI thread.
//!
//! The poller thread enqueues an action for every primary tray click; the
//! UI loop's own iteration dequeues and executes them strictly in
//! submission order, one at a time. The shell shares one queue between
//! the two threads behind a mutex; the queue itself is plain sequential
//! logic.

use vstd::prelude::*;

use crate::events::UiAction;

verus! {

/// A first-in, first-out queue of UI actions.
pub struct ActionQueue {
    items: std::collections::VecDeque<UiAction>,
}

impl View for ActionQueue {
    type V = Seq<UiAction>;

    closed spec fn view(&self) -> Seq<UiAction> {
        self.items@
    }
}

impl ActionQueue {
    /// An empty queue.
    pub fn new() -> (r: ActionQueue)
        ensures
            r@ == Seq::<UiAction>::empty(),
    {
        ActionQueue { items: std::collections::VecDeque::new() }
    }

    /// How many actions are waiting.
    pub fn len(&self) -> (n: usize)
        ensures
            n == self@.len(),
    {
        self.items.len()
    }

    /// Appends one action at the back: nothing already queued is
    /// reordered or dropped.
    pub fn enqueue(&mut self, action: UiAction)
        ensures
            final(self)@ == old(self)@.push(action),
    {
        self.items.push_back(action);
    }

    /// Removes and returns the oldest queued action; on an empty queue
    /// nothing changes and nothing is returned.
    pub fn dequeue(&mut self) -> (r: Option<UiAction>)
        ensures
            old(self)@.len() == 0 ==> r is None && final(self)@ == old(self)@,
            old(self)@.len() > 0 ==> r == Some(old(self)@[0]) && final(self)@ == old(
                self,
            )@.drop_first(),
    {
        let r = self.items.pop_front();
        proof {
            if old(self)@.len() > 0 {
                assert(self@ =~= old(self)@.drop_first());
            }
        }
        r
    }

    /// Removes and returns everything queued, in submission order.
    pub fn drain(&mut self) -> (r: Vec<UiAction>)
        ensures
            r@ == old(self)@,
            final(self)@.len() == 0,
    {
        let mut out: Vec<UiAction> = Vec::new();
        proof {
            assert(out@ + self@ =~= self@);
        }
        loop
            invariant
                out@ + self@ == old(self)@,
            decreases self@.len(),
        {
            let ghost prev_out = out@;
            let ghost prev_q = self@;
            let next = self.dequeue();
            match next {
                Some(a) => {
                    out.push(a);
                    proof {
                        assert(prev_q =~= seq![a] + self@);
                        assert(out@ + self@ =~= prev_out + (seq![a] + self@));
                    }
                },
                None => {
                    proof {
                        assert(out@ + self@ =~= out@);
                    }
                    return out;
                },
            }
        }
    }
}

} // verus!
