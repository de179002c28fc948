use kiosk_session::countdown::{Action, Engine, Event, Notification};

#[test]
fn single_credit_runs_a_full_session_down_to_one_session_ended() {
    // Five credits at five seconds each: Idle -> Running with 25 seconds.
    let mut engine = Engine::new();
    assert_eq!(engine.remaining, 0);

    let (notes, action) = engine.handle_credit(5);
    assert_eq!(
        notes,
        vec![
            Notification::CreditAdded { amount: 5 },
            Notification::RemainingUpdated { seconds: 25 },
        ]
    );
    assert_eq!(action, Action::ShowSmall);
    assert_eq!(engine.remaining, 25);

    // 25 ticks count down to zero; every one announces the new value and
    // only the last additionally fires the terminal event.
    let mut updates: Vec<u64> = Vec::new();
    let mut ended: u32 = 0;
    for _ in 0..25 {
        let (notes, action) = engine.handle_tick();
        for note in &notes {
            match note {
                Notification::RemainingUpdated { seconds } => updates.push(*seconds),
                Notification::SessionEnded => ended += 1,
                Notification::CreditAdded { .. } => panic!("tick reported a credit"),
            }
        }
        if engine.remaining == 0 {
            assert_eq!(action, Action::ShowMain);
        } else {
            assert_eq!(action, Action::Keep);
        }
    }
    let expected: Vec<u64> = (0..25).rev().collect();
    assert_eq!(updates, expected);
    assert_eq!(ended, 1);
    assert_eq!(engine.remaining, 0);
}

#[test]
fn ticks_while_idle_emit_nothing_and_never_repeat_the_terminal_event() {
    let mut engine = Engine::new();
    let (notes, action) = engine.handle_tick();
    assert!(notes.is_empty());
    assert_eq!(action, Action::Keep);

    // Run one short session to its end, then keep ticking.
    engine.handle_credit(1);
    for _ in 0..5 {
        engine.handle_tick();
    }
    assert_eq!(engine.remaining, 0);
    for _ in 0..10 {
        let (notes, action) = engine.handle_tick();
        assert!(notes.is_empty());
        assert_eq!(action, Action::Keep);
    }
}

#[test]
fn credits_arriving_before_any_tick_merge_into_one_countdown() {
    // Three credits, then two more before a tick: one Running state with
    // (3 + 2) * 5 seconds, never two countdowns.
    let mut engine = Engine::new();
    engine.handle_credit(3);
    let (notes, action) = engine.handle_credit(2);
    assert_eq!(
        notes,
        vec![
            Notification::CreditAdded { amount: 2 },
            Notification::RemainingUpdated { seconds: 25 },
        ]
    );
    assert_eq!(action, Action::ShowSmall);
    assert_eq!(engine.remaining, 25);

    let (notes, _) = engine.handle_tick();
    assert_eq!(notes, vec![Notification::RemainingUpdated { seconds: 24 }]);
}

#[test]
fn credit_while_running_extends_the_countdown_additively() {
    let mut engine = Engine::new();
    engine.handle_credit(2);
    assert_eq!(engine.remaining, 10);
    engine.handle_tick();
    assert_eq!(engine.remaining, 9);
    let (notes, _) = engine.handle_credit(1);
    assert_eq!(
        notes,
        vec![
            Notification::CreditAdded { amount: 1 },
            Notification::RemainingUpdated { seconds: 14 },
        ]
    );
    assert_eq!(engine.remaining, 14);
}

#[test]
fn remaining_time_balances_credits_against_elapsed_ticks() {
    // While the session keeps running, the clock always reads the initial
    // time, plus five seconds per credit, minus one second per tick.
    let mut engine = Engine::new();
    engine.handle_credit(3); // 15
    engine.handle_tick(); // 14
    engine.handle_tick(); // 13
    engine.handle_credit(2); // 23
    engine.handle_tick(); // 22
    engine.handle_credit(1); // 27
    assert_eq!(engine.remaining, (3 + 2 + 1) * 5 - 3);
}

#[test]
fn each_session_ends_exactly_once() {
    let mut engine = Engine::new();
    let mut ended: u32 = 0;
    let count_ended = |notes: &[Notification]| {
        notes
            .iter()
            .filter(|n| matches!(n, Notification::SessionEnded))
            .count() as u32
    };

    // First session: one credit, ticked past its end.
    engine.handle_credit(1);
    for _ in 0..8 {
        let (notes, _) = engine.handle_tick();
        ended += count_ended(&notes);
    }
    assert_eq!(ended, 1);

    // Second session ends exactly once more.
    engine.handle_credit(2);
    for _ in 0..15 {
        let (notes, _) = engine.handle_tick();
        ended += count_ended(&notes);
    }
    assert_eq!(ended, 2);
}

#[test]
fn step_dispatches_both_event_kinds() {
    let mut engine = Engine::new();
    let (notes, action) = engine.step(Event::Credit { credits: 1 });
    assert_eq!(notes.len(), 2);
    assert_eq!(action, Action::ShowSmall);
    assert_eq!(engine.remaining, 5);
    let (notes, action) = engine.step(Event::Tick);
    assert_eq!(notes, vec![Notification::RemainingUpdated { seconds: 4 }]);
    assert_eq!(action, Action::Keep);
}
