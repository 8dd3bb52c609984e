//! The debug overlay: a bounded, insertion-ordered log of short-lived text
//! messages drawn atop the final frame, plus the flag that turns the debug
//! display panel on.
//!
//! Each message carries a time-to-live counted in presented frames: the screen
//! decrements every message's ttl once per ended frame and removes those whose
//! ttl has reached zero, keeping the survivors' relative order.

use vstd::prelude::*;

verus! {

/// The most messages the overlay holds; a message logged while the overlay is
/// full is dropped.
pub const MAX_MESSAGES: usize = 64;

/// One overlay message and the number of presented frames it has left to live.
#[derive(Debug, PartialEq)]
pub struct DebugMessage {
    pub text: String,
    pub ttl: i32,
}

/// The overlay context: the display-panel flag and the live messages, oldest
/// first.
#[derive(Debug)]
pub struct DebugOverlay {
    /// Whether the debug display panel is rendered each frame.
    pub display: bool,
    /// The live messages in insertion order.
    pub messages: Vec<DebugMessage>,
}

/// The messages after one presented frame: every ttl drops by one, and only
/// messages whose ttl is still positive stay, in their original order.
pub open spec fn ticked(msgs: Seq<DebugMessage>) -> Seq<DebugMessage>
    decreases msgs.len(),
{
    if msgs.len() == 0 {
        Seq::empty()
    } else {
        let rest = ticked(msgs.drop_last());
        let m = msgs.last();
        if m.ttl > 1 {
            rest.push(DebugMessage { text: m.text, ttl: (m.ttl - 1) as i32 })
        } else {
            rest
        }
    }
}

/// How many of `msgs` survive one frame, i.e. have ttl above one.
pub open spec fn live_count(msgs: Seq<DebugMessage>) -> int
    decreases msgs.len(),
{
    if msgs.len() == 0 {
        0
    } else {
        live_count(msgs.drop_last()) + if msgs.last().ttl > 1 {
            1int
        } else {
            0int
        }
    }
}

/// What `log` leaves in the overlay: the message appended when there is room,
/// the list unchanged when the overlay is full.
pub open spec fn logged(msgs: Seq<DebugMessage>, text: String, ttl: i32) -> Seq<DebugMessage> {
    if msgs.len() < MAX_MESSAGES {
        msgs.push(DebugMessage { text, ttl })
    } else {
        msgs
    }
}

impl DebugOverlay {
    /// The overlay never exceeds its bound and never holds an expired message
    /// between frames.
    pub open spec fn wf(self) -> bool {
        &&& self.messages@.len() <= MAX_MESSAGES
        &&& forall|i: int| 0 <= i < self.messages@.len() ==> self.messages@[i].ttl >= 1
    }

    /// An empty overlay with the display panel off.
    pub fn new() -> (o: DebugOverlay)
        ensures
            o.wf(),
            !o.display,
            o.messages@ == Seq::<DebugMessage>::empty(),
    {
        DebugOverlay { display: false, messages: Vec::new() }
    }

    /// Flips the debug-display flag; a development aid, not frame state.
    pub fn debug_mode(&mut self)
        ensures
            final(self).display == !old(self).display,
            final(self).messages == old(self).messages,
    {
        self.display = !self.display;
    }

    /// Appends a message that will live for `ttl` presented frames. A message
    /// logged while the overlay is full is dropped.
    pub fn log(&mut self, text: String, ttl: i32)
        requires
            ttl >= 1,
            old(self).wf(),
        ensures
            final(self).wf(),
            final(self).display == old(self).display,
            final(self).messages@ == logged(old(self).messages@, text, ttl),
    {
        if self.messages.len() < MAX_MESSAGES {
            self.messages.push(DebugMessage { text, ttl });
        }
    }
}

/// The messages after `n` presented frames.
pub open spec fn ticked_n(msgs: Seq<DebugMessage>, n: nat) -> Seq<DebugMessage>
    decreases n,
{
    if n == 0 {
        msgs
    } else {
        ticked(ticked_n(msgs, (n - 1) as nat))
    }
}

/// The lifecycle of a single message: inserted with time-to-live `t`, it is
/// still in the overlay after `n` presented frames exactly when `n < t`, with
/// its ttl reduced by `n`; from the `t`-th frame on it is gone.
pub proof fn lemma_message_lifetime(m: DebugMessage, n: nat)
    requires
        m.ttl >= 1,
    ensures
        n < m.ttl ==> ticked_n(seq![m], n) == seq![
            DebugMessage { text: m.text, ttl: (m.ttl - n) as i32 },
        ],
        n >= m.ttl ==> ticked_n(seq![m], n) == Seq::<DebugMessage>::empty(),
    decreases n,
{
    if n == 0 {
        assert(ticked_n(seq![m], 0) =~= seq![DebugMessage { text: m.text, ttl: m.ttl }]);
    } else {
        lemma_message_lifetime(m, (n - 1) as nat);
        assert(ticked(Seq::<DebugMessage>::empty()) =~= Seq::<DebugMessage>::empty());
        if n - 1 < m.ttl {
            let prev = DebugMessage { text: m.text, ttl: (m.ttl - (n - 1)) as i32 };
            assert(seq![prev].drop_last() =~= Seq::<DebugMessage>::empty());
            assert(seq![prev].last() == prev);
            if prev.ttl > 1 {
                assert(ticked(seq![prev]) =~= seq![
                    DebugMessage { text: m.text, ttl: (m.ttl - n) as i32 },
                ]);
            } else {
                assert(ticked(seq![prev]) =~= Seq::<DebugMessage>::empty());
            }
        } else {
            assert(ticked(Seq::<DebugMessage>::empty()) =~= Seq::<DebugMessage>::empty());
        }
    }
}

} // verus!
