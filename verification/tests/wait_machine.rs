use keywait::event::InputEvent;
use keywait::waiter::Action;
use keywait::waiter::HandleStatus;
use keywait::waiter::Outcome;
use keywait::waiter::WaitError;
use keywait::waiter::WaitState;
use keywait::waiter::finish;
use keywait::waiter::is_console;
use keywait::waiter::scan_events;
use keywait::waiter::start;
use keywait::waiter::step;

const KEY_SHIFT: u16 = 0x10;
const KEY_ENTER: u16 = 0x0d;
const KEY_A: u16 = 0x41;
const KEY_B: u16 = 0x42;

fn key_down(code: u16) -> Outcome {
    Outcome::Delivered { read: 1, event: InputEvent::Key { down: true, code } }
}

fn key_up(code: u16) -> Outcome {
    Outcome::Delivered { read: 1, event: InputEvent::Key { down: false, code } }
}

#[test]
fn invalid_handle_fails_without_prompt_or_read() {
    let s = start(HandleStatus::Invalid, 6, "Press any key . . . ");
    assert_eq!(s, WaitState::Failed { error: WaitError::Os { code: 6 } });
    assert_eq!(s.action(), None);
    assert_eq!(finish(&s), Err(WaitError::Os { code: 6 }));
}

#[test]
fn null_handle_fails_without_prompt_or_read() {
    let s = start(HandleStatus::Null, 9, "Press any key . . . ");
    assert_eq!(s, WaitState::Failed { error: WaitError::Os { code: 9 } });
    assert_eq!(s.action(), None);
    assert_eq!(finish(&s), Err(WaitError::Os { code: 9 }));
}

#[test]
fn character_device_type_is_a_console() {
    assert!(is_console(0x0002));
}

#[test]
fn other_device_types_are_not_consoles() {
    // 0x0001 is a disk file, 0x0003 a pipe, 0x8000 unknown.
    for file_type in [0x0000, 0x0001, 0x0003, 0x8000] {
        assert!(!is_console(file_type), "{file_type:#x} is no console");
    }
}

#[test]
fn non_console_stream_succeeds_immediately() {
    let s = start(HandleStatus::NotConsole, 0, "Press any key . . . ");
    assert_eq!(s, WaitState::Done);
    assert_eq!(s.action(), None);
    assert_eq!(finish(&s), Ok(()));
}

#[test]
fn empty_prompt_goes_straight_to_discard() {
    let s = start(HandleStatus::Console, 0, "");
    assert_eq!(s, WaitState::Flushing);
    assert_eq!(s.action(), Some(Action::DiscardInput));
}

#[test]
fn non_empty_prompt_is_written_first() {
    let s = start(HandleStatus::Console, 0, "Press any key . . . ");
    assert_eq!(s, WaitState::Prompting);
    assert_eq!(s.action(), Some(Action::WritePrompt));
}

#[test]
fn prompt_write_failure_aborts_before_any_read() {
    let s = start(HandleStatus::Console, 0, "Press any key . . . ");
    let s = step(&s, &Outcome::OsError { code: 5 });
    assert_eq!(s, WaitState::Failed { error: WaitError::Os { code: 5 } });
    assert_eq!(s.action(), None);
}

#[test]
fn prompt_then_discard_then_read_in_order() {
    let s = start(HandleStatus::Console, 0, "Press any key . . . ");
    assert_eq!(s.action(), Some(Action::WritePrompt));
    let s = step(&s, &Outcome::Succeeded);
    assert_eq!(s, WaitState::Flushing);
    assert_eq!(s.action(), Some(Action::DiscardInput));
    let s = step(&s, &Outcome::Succeeded);
    assert_eq!(s, WaitState::Reading);
    assert_eq!(s.action(), Some(Action::ReadEvent));
}

#[test]
fn discard_failure_is_fatal() {
    let s = step(&WaitState::Flushing, &Outcome::OsError { code: 3 });
    assert_eq!(s, WaitState::Failed { error: WaitError::Os { code: 3 } });
}

#[test]
fn stale_input_cannot_satisfy_the_wait() {
    // Events queued before the discard: a Shift press, a release of A, a
    // press of A. While the discard is still pending they answer no action
    // and move nothing; the platform throws them away.
    let s = start(HandleStatus::Console, 0, "");
    assert_eq!(s, WaitState::Flushing);
    let s = step(&s, &key_down(KEY_SHIFT));
    assert_eq!(s, WaitState::Flushing);
    let s = step(&s, &key_up(KEY_A));
    assert_eq!(s, WaitState::Flushing);
    let s = step(&s, &key_down(KEY_A));
    assert_eq!(s, WaitState::Flushing);
    // Only after the discard succeeds does reading begin, and a fresh key
    // press is the one that ends the wait.
    let s = step(&s, &Outcome::Succeeded);
    assert_eq!(s, WaitState::Reading);
    let s = step(&s, &key_down(KEY_B));
    assert_eq!(s, WaitState::Done);
    assert_eq!(finish(&s), Ok(()));
}

#[test]
fn shift_press_and_release_do_not_end_the_wait() {
    let queue = vec![key_down(KEY_SHIFT), key_up(KEY_SHIFT), key_down(KEY_ENTER)];
    let (state, consumed) = scan_events(&queue);
    assert_eq!(state, WaitState::Done);
    assert_eq!(consumed, 3);
}

#[test]
fn first_qualifying_key_leaves_the_rest_unread() {
    let queue = vec![key_down(KEY_A), key_down(KEY_B)];
    let (state, consumed) = scan_events(&queue);
    assert_eq!(state, WaitState::Done);
    assert_eq!(consumed, 1);
}

#[test]
fn non_key_records_are_skipped() {
    let queue = vec![
        Outcome::Delivered { read: 1, event: InputEvent::Other },
        Outcome::Delivered { read: 1, event: InputEvent::Other },
        key_down(KEY_ENTER),
    ];
    let (state, consumed) = scan_events(&queue);
    assert_eq!(state, WaitState::Done);
    assert_eq!(consumed, 3);
}

#[test]
fn a_queue_of_non_qualifying_events_keeps_waiting() {
    let queue = vec![
        key_down(KEY_SHIFT),
        key_up(KEY_ENTER),
        Outcome::Delivered { read: 1, event: InputEvent::Other },
    ];
    let (state, consumed) = scan_events(&queue);
    assert_eq!(state, WaitState::Reading);
    assert_eq!(consumed, 3);
}

#[test]
fn read_error_fails_the_wait() {
    let s = step(&WaitState::Reading, &Outcome::OsError { code: 87 });
    assert_eq!(s, WaitState::Failed { error: WaitError::Os { code: 87 } });
    assert_eq!(finish(&s), Err(WaitError::Os { code: 87 }));
}

#[test]
fn read_error_mid_queue_fails_the_wait() {
    let queue = vec![key_up(KEY_A), Outcome::OsError { code: 2 }, key_down(KEY_A)];
    let (state, consumed) = scan_events(&queue);
    assert_eq!(state, WaitState::Failed { error: WaitError::Os { code: 2 } });
    assert_eq!(consumed, 2);
}

#[test]
fn read_count_of_zero_fails_the_wait() {
    let o = Outcome::Delivered { read: 0, event: InputEvent::Other };
    let s = step(&WaitState::Reading, &o);
    assert_eq!(s, WaitState::Failed { error: WaitError::BadReadCount { count: 0 } });
}

#[test]
fn read_count_of_two_fails_the_wait() {
    let o = Outcome::Delivered { read: 2, event: InputEvent::Key { down: true, code: KEY_A } };
    let s = step(&WaitState::Reading, &o);
    assert_eq!(s, WaitState::Failed { error: WaitError::BadReadCount { count: 2 } });
}

#[test]
fn terminal_states_absorb_every_outcome() {
    let done = step(&WaitState::Done, &key_down(KEY_A));
    assert_eq!(done, WaitState::Done);
    let failed = WaitState::Failed { error: WaitError::Os { code: 6 } };
    let still_failed = step(&failed, &Outcome::Succeeded);
    assert_eq!(still_failed, failed);
}
