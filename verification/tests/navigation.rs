use reja::{Converation, Profile, Session};

fn session_after_turns(turns: usize) -> Session {
    let conv = Converation::from_profile(Profile {
        model: "m".to_string(),
        system: Some("sys".to_string()),
    });
    let mut session = Session::new(&conv);
    for _ in 0..turns {
        session.advance_for_new_turn();
        session.finish_send();
    }
    session
}

#[test]
fn second_submit_advances_past_the_displayed_exchange() {
    let mut session = session_after_turns(1);
    assert_eq!(session.cursor, 1);
    session.advance_for_new_turn();
    assert_eq!(session.cursor, 3);
    session.finish_send();
    assert_eq!(session.messages_len, 4);
    assert!(session.go_back());
    assert_eq!(session.cursor, 1);
}

#[test]
fn first_submit_leaves_the_cursor_on_the_first_slot() {
    let mut session = session_after_turns(0);
    assert_eq!(session.cursor, 1);
    session.advance_for_new_turn();
    assert_eq!(session.cursor, 1);
}

#[test]
fn go_forward_at_the_last_exchange_is_a_noop() {
    let mut session = session_after_turns(2);
    // cursor == sysmsgs_len + messages_len - 2: the edge
    assert_eq!(session.cursor, 3);
    assert!(!session.go_forward());
    assert_eq!(session.cursor, 3);
    assert!(session.go_back());
    assert!(session.go_forward());
    assert!(!session.go_forward());
    assert_eq!(session.cursor, 3);
}

#[test]
fn go_back_before_the_first_exchange_is_a_noop() {
    let mut session = session_after_turns(1);
    assert!(!session.go_back());
    assert_eq!(session.cursor, 1);
}

#[test]
fn back_then_forward_returns_to_the_same_exchange() {
    let mut session = session_after_turns(3);
    assert_eq!(session.cursor, 5);
    assert!(session.go_back());
    assert!(session.go_forward());
    assert_eq!(session.cursor, 5);
    assert!(session.go_back());
    assert!(session.go_back());
    assert!(session.go_forward());
    assert_eq!(session.cursor, 3);
}

#[test]
fn without_a_system_prompt_the_cursor_starts_at_zero() {
    let conv = Converation::from_profile(Profile { model: "m".to_string(), system: None });
    let mut session = Session::new(&conv);
    assert_eq!(session.sysmsgs_len, 0);
    assert_eq!(session.cursor, 0);
    session.advance_for_new_turn();
    assert_eq!(session.cursor, 0);
    session.finish_send();
    session.advance_for_new_turn();
    assert_eq!(session.cursor, 2);
    session.finish_send();
    assert!(session.go_back());
    assert_eq!(session.cursor, 0);
    assert!(!session.go_back());
}

#[test]
fn cursor_stays_within_bounds_and_on_exchange_starts() {
    let mut session = session_after_turns(3);
    let moves: [bool; 8] = [true, true, false, true, false, false, true, false];
    for back in moves {
        if back {
            session.go_back();
        } else {
            session.go_forward();
        }
        assert!(session.cursor >= session.sysmsgs_len);
        assert!(session.cursor <= session.sysmsgs_len + session.messages_len - 2);
        assert_eq!((session.cursor - session.sysmsgs_len) % 2, 0);
        assert!(session.check_invariant());
    }
}
