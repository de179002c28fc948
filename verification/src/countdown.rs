//! Countdown engine: the single owner of the remaining session time.
//!
//! The engine holds one non-negative counter of seconds and knows two
//! logical states: Idle (`remaining == 0`) and Running (`remaining > 0`).
//! Credit deliveries add seconds, a once-per-second tick removes one, and
//! every observable change is reported through [`Notification`] values that
//! the embedding program forwards to the presentation layer.  Serializing the
//! two writers is structural here: both mutations go through `&mut self`
//! methods of one owned value, so no delivery can race a tick or be lost.

use vstd::prelude::*;

verus! {

/// Seconds of session time granted per credit unit.  A fixed deployment
/// constant of the conversion from paid credit to time.
pub const SECONDS_PER_CREDIT: u64 = 5;

/// One input to the engine: a credit delivery or the one-second tick.
#[derive(Clone, Copy, Debug, PartialEq, Eq, Structural)]
pub enum Event {
    Credit { credits: u8 },
    Tick,
}

/// Outbound report to the presentation layer.  Delivery is fire-and-forget:
/// the engine never learns whether a notification arrived.
#[derive(Clone, Copy, Debug, PartialEq, Eq, Structural)]
pub enum Notification {
    /// A credit delivery was merged into the remaining time.
    CreditAdded { amount: u64 },
    /// The remaining time changed to this many seconds.
    RemainingUpdated { seconds: u64 },
    /// A running session just lapsed; fired only on the edge to Idle.
    SessionEnded,
}

/// Which screen the presentation layer is asked to show after a step.
#[derive(Clone, Copy, Debug, PartialEq, Eq, Structural)]
pub enum Action {
    /// Keep whatever is showing.
    Keep,
    /// Show the small overlay (a session is running).
    ShowSmall,
    /// Show the main screen (the session lapsed).
    ShowMain,
}

/// Seconds granted by one credit delivery.
pub open spec fn credit_seconds(credits: u8) -> nat {
    credits as nat * SECONDS_PER_CREDIT as nat
}

/// The remaining time after one event: credit adds its seconds, a tick
/// removes one second and is a no-op when already Idle.
pub open spec fn next_remaining(r: nat, ev: Event) -> nat {
    match ev {
        Event::Credit { credits } => r + credit_seconds(credits),
        Event::Tick => if r > 0 {
            (r - 1) as nat
        } else {
            0
        },
    }
}

/// The notifications one event emits, given the remaining time before it.
/// A credit reports itself and the new remaining value; a tick that keeps
/// the session running reports the new value; the tick that reaches zero
/// additionally fires the terminal `SessionEnded`, and a tick while already
/// Idle emits nothing at all.
pub open spec fn step_notifications(r: nat, ev: Event) -> Seq<Notification> {
    match ev {
        Event::Credit { credits } => seq![
            Notification::CreditAdded { amount: credits as u64 },
            Notification::RemainingUpdated { seconds: (r + credit_seconds(credits)) as u64 },
        ],
        Event::Tick => if r == 0 {
            Seq::empty()
        } else if r == 1 {
            seq![
                Notification::RemainingUpdated { seconds: 0u64 },
                Notification::SessionEnded,
            ]
        } else {
            seq![Notification::RemainingUpdated { seconds: (r - 1) as u64 }]
        },
    }
}

/// The presentation request one event causes: every credit asks for the
/// small overlay, the terminal tick asks for the main screen.
pub open spec fn step_action(r: nat, ev: Event) -> Action {
    match ev {
        Event::Credit { .. } => Action::ShowSmall,
        Event::Tick => if r == 1 {
            Action::ShowMain
        } else {
            Action::Keep
        },
    }
}

/// The countdown engine.  `remaining` is the only shared mutable value of
/// the controller; it is owned here and written only by [`Engine::step`] and
/// the two handlers it dispatches to.
pub struct Engine {
    pub remaining: u64,
}

impl Engine {
    /// A fresh engine starts Idle with no time on the clock.
    pub fn new() -> (engine: Engine)
        ensures
            engine.remaining == 0,
    {
        Engine { remaining: 0 }
    }

    /// Idle means no session: nothing on the clock.
    pub open spec fn is_idle(self) -> bool {
        self.remaining == 0
    }

    /// Running means a session is under way.
    pub open spec fn is_running(self) -> bool {
        self.remaining > 0
    }

    /// Current remaining seconds, for callers that must test the overflow
    /// bound before delivering credit.
    pub fn remaining_seconds(&self) -> (r: u64)
        ensures
            r == self.remaining,
    {
        self.remaining
    }

    /// Merges one credit delivery into the remaining time: the granted
    /// seconds are added, never dropped and never capped, and the new value
    /// is announced together with the small-overlay request.
    pub fn handle_credit(&mut self, credits: u8) -> (out: (Vec<Notification>, Action))
        requires
            old(self).remaining + credit_seconds(credits) <= u64::MAX,
        ensures
            final(self).remaining as nat == next_remaining(old(self).remaining as nat, Event::Credit { credits }),
            out.0@ == step_notifications(old(self).remaining as nat, Event::Credit { credits }),
            out.1 == step_action(old(self).remaining as nat, Event::Credit { credits }),
    {
        let granted: u64 = (credits as u64) * SECONDS_PER_CREDIT;
        self.remaining = self.remaining + granted;
        let mut notes: Vec<Notification> = Vec::new();
        notes.push(Notification::CreditAdded { amount: credits as u64 });
        notes.push(Notification::RemainingUpdated { seconds: self.remaining });
        proof {
            assert(notes@ =~= step_notifications(old(self).remaining as nat, Event::Credit { credits }));
        }
        (notes, Action::ShowSmall)
    }

    /// Applies the one-second tick.  While Running the clock loses exactly
    /// one second and the new value is announced; the tick that reaches zero
    /// additionally fires the single terminal `SessionEnded` and asks for
    /// the main screen; a tick while already Idle changes nothing and emits
    /// nothing, so residency at zero never repeats the terminal event.
    pub fn handle_tick(&mut self) -> (out: (Vec<Notification>, Action))
        ensures
            final(self).remaining as nat == next_remaining(old(self).remaining as nat, Event::Tick),
            out.0@ == step_notifications(old(self).remaining as nat, Event::Tick),
            out.1 == step_action(old(self).remaining as nat, Event::Tick),
    {
        let mut notes: Vec<Notification> = Vec::new();
        if self.remaining == 0 {
            proof {
                assert(notes@ =~= step_notifications(old(self).remaining as nat, Event::Tick));
            }
            return (notes, Action::Keep);
        }
        self.remaining = self.remaining - 1;
        notes.push(Notification::RemainingUpdated { seconds: self.remaining });
        if self.remaining == 0 {
            notes.push(Notification::SessionEnded);
            proof {
                assert(notes@ =~= step_notifications(old(self).remaining as nat, Event::Tick));
            }
            return (notes, Action::ShowMain);
        }
        proof {
            assert(notes@ =~= step_notifications(old(self).remaining as nat, Event::Tick));
        }
        (notes, Action::Keep)
    }

    /// Applies one event, whichever kind it is.
    pub fn step(&mut self, ev: Event) -> (out: (Vec<Notification>, Action))
        requires
            ev matches Event::Credit { credits } ==> old(self).remaining + credit_seconds(credits)
                <= u64::MAX,
        ensures
            final(self).remaining as nat == next_remaining(old(self).remaining as nat, ev),
            out.0@ == step_notifications(old(self).remaining as nat, ev),
            out.1 == step_action(old(self).remaining as nat, ev),
    {
        match ev {
            Event::Credit { credits } => self.handle_credit(credits),
            Event::Tick => self.handle_tick(),
        }
    }
}

/// Remaining time after a whole sequence of events, applied oldest first.
pub open spec fn run_remaining(r0: nat, evs: Seq<Event>) -> nat
    decreases evs.len(),
{
    if evs.len() == 0 {
        r0
    } else {
        next_remaining(run_remaining(r0, evs.drop_last()), evs.last())
    }
}

/// Every notification a sequence of events emits, in order.
pub open spec fn run_notifications(r0: nat, evs: Seq<Event>) -> Seq<Notification>
    decreases evs.len(),
{
    if evs.len() == 0 {
        Seq::empty()
    } else {
        run_notifications(r0, evs.drop_last()) + step_notifications(
            run_remaining(r0, evs.drop_last()),
            evs.last(),
        )
    }
}

/// Seconds granted by all credit deliveries in a sequence of events.
pub open spec fn total_credit_seconds(evs: Seq<Event>) -> nat
    decreases evs.len(),
{
    if evs.len() == 0 {
        0
    } else {
        total_credit_seconds(evs.drop_last()) + (match evs.last() {
            Event::Credit { credits } => credit_seconds(credits),
            Event::Tick => 0,
        })
    }
}

/// Number of ticks in a sequence of events.
pub open spec fn tick_count(evs: Seq<Event>) -> nat
    decreases evs.len(),
{
    if evs.len() == 0 {
        0
    } else {
        tick_count(evs.drop_last()) + (if evs.last() is Tick {
            1nat
        } else {
            0nat
        })
    }
}

/// Number of terminal notifications in a notification sequence.
pub open spec fn session_ended_count(ns: Seq<Notification>) -> nat
    decreases ns.len(),
{
    if ns.len() == 0 {
        0
    } else {
        session_ended_count(ns.drop_last()) + (if ns.last() is SessionEnded {
            1nat
        } else {
            0nat
        })
    }
}

/// Number of Running-to-Idle transitions a sequence of events causes.
pub open spec fn idle_transition_count(r0: nat, evs: Seq<Event>) -> nat
    decreases evs.len(),
{
    if evs.len() == 0 {
        0
    } else {
        idle_transition_count(r0, evs.drop_last()) + (if run_remaining(r0, evs.drop_last()) > 0
            && next_remaining(run_remaining(r0, evs.drop_last()), evs.last()) == 0 {
            1nat
        } else {
            0nat
        })
    }
}

/// Law: while a session is running, credit merges additively and ticking
/// removes exactly one second per tick.  If every tick in `evs` arrives
/// while the remaining time is positive, the final remaining time is the
/// initial time, plus every granted second, minus the number of ticks — no
/// delivery is lost, none is counted twice, and the balance never goes
/// negative (both sides are `nat`).
pub proof fn lemma_running_accounting(r0: nat, evs: Seq<Event>)
    requires
        forall|i: int|
            0 <= i < evs.len() && (#[trigger] evs[i]) is Tick ==> run_remaining(r0, evs.take(i))
                > 0,
    ensures
        run_remaining(r0, evs) + tick_count(evs) == r0 + total_credit_seconds(evs),
    decreases evs.len(),
{
    if evs.len() > 0 {
        let pre = evs.drop_last();
        assert forall|i: int|
            0 <= i < pre.len() && (#[trigger] pre[i]) is Tick implies run_remaining(
            r0,
            pre.take(i),
        ) > 0 by {
            assert(evs[i] is Tick);
            assert(pre.take(i) =~= evs.take(i));
        }
        lemma_running_accounting(r0, pre);
        if evs.last() is Tick {
            assert(evs[evs.len() - 1] is Tick);
            assert(evs.take(evs.len() - 1) =~= pre);
            assert(run_remaining(r0, pre) > 0);
        }
    }
}

proof fn lemma_session_ended_count_concat(a: Seq<Notification>, b: Seq<Notification>)
    ensures
        session_ended_count(a + b) == session_ended_count(a) + session_ended_count(b),
    decreases b.len(),
{
    if b.len() == 0 {
        assert(a + b =~= a);
    } else {
        lemma_session_ended_count_concat(a, b.drop_last());
        assert((a + b).drop_last() =~= a + b.drop_last());
        assert((a + b).last() == b.last());
    }
}

proof fn lemma_step_session_ended(r: nat, ev: Event)
    ensures
        session_ended_count(step_notifications(r, ev)) == (if r > 0 && next_remaining(r, ev)
            == 0 {
            1nat
        } else {
            0nat
        }),
{
    let ns = step_notifications(r, ev);
    assert(session_ended_count(Seq::<Notification>::empty()) == 0);
    match ev {
        Event::Credit { credits } => {
            let head = Notification::CreditAdded { amount: credits as u64 };
            assert(ns.last() is RemainingUpdated);
            assert(ns.drop_last() =~= seq![head]);
            assert(seq![head].last() == head);
            assert(seq![head].drop_last() =~= Seq::<Notification>::empty());
            assert(session_ended_count(seq![head]) == 0);
            assert(session_ended_count(ns) == 0);
        },
        Event::Tick => {
            if r == 1 {
                let head = Notification::RemainingUpdated { seconds: 0u64 };
                assert(ns.last() is SessionEnded);
                assert(ns.drop_last() =~= seq![head]);
                assert(seq![head].last() == head);
                assert(seq![head].drop_last() =~= Seq::<Notification>::empty());
                assert(session_ended_count(seq![head]) == 0);
                assert(session_ended_count(ns) == 1);
            } else if r > 1 {
                assert(ns.last() is RemainingUpdated);
                assert(ns.drop_last() =~= Seq::<Notification>::empty());
                assert(session_ended_count(ns) == 0);
            }
        },
    }
}

/// Law: exactly one `SessionEnded` notification is emitted per transition
/// from Running to Idle, and none otherwise; in particular a tick that
/// arrives while the engine is already Idle emits nothing, so residency at
/// zero never repeats the terminal event.
pub proof fn lemma_session_ended_once(r0: nat, evs: Seq<Event>)
    ensures
        session_ended_count(run_notifications(r0, evs)) == idle_transition_count(r0, evs),
        step_notifications(0, Event::Tick) == Seq::<Notification>::empty(),
    decreases evs.len(),
{
    if evs.len() > 0 {
        let pre = evs.drop_last();
        let before = run_remaining(r0, pre);
        lemma_session_ended_once(r0, pre);
        lemma_session_ended_count_concat(
            run_notifications(r0, pre),
            step_notifications(before, evs.last()),
        );
        lemma_step_session_ended(before, evs.last());
    }
}

} // verus!
