use reja::{pane_height, Converation, KeyEffect, KeyInput, Message, Profile, RenderPlan, Session};

fn fresh_session() -> Session {
    let conv = Converation::from_profile(Profile {
        model: "m".to_string(),
        system: Some("sys".to_string()),
    });
    Session::new(&conv)
}

#[test]
fn quit_keys_set_exit() {
    let mut s = fresh_session();
    assert_eq!(s.handle_key_event(KeyInput::Esc, false, true), KeyEffect::Nothing);
    assert!(s.exit);
    let mut s = fresh_session();
    assert_eq!(s.handle_key_event(KeyInput::CtrlQ, false, true), KeyEffect::Nothing);
    assert!(s.exit);
}

#[test]
fn submit_is_gated_on_the_cancellation_flag() {
    let mut s = fresh_session();
    s.handle_key_event(KeyInput::Enter, true, false);
    assert!(!s.send);
    s.handle_key_event(KeyInput::Enter, false, false);
    assert!(s.send);
}

#[test]
fn ctrl_s_requests_a_stream_stop() {
    let mut s = fresh_session();
    assert_eq!(s.handle_key_event(KeyInput::CtrlS, true, false), KeyEffect::StopStreaming);
}

#[test]
fn ctrl_u_clears_composition_or_scrolls_up() {
    let mut s = fresh_session();
    assert_eq!(s.handle_key_event(KeyInput::CtrlU, false, false), KeyEffect::ClearComposition);
    assert_eq!(s.scroll, 0);
    let mut s = fresh_session();
    s.handle_key_event(KeyInput::CtrlD, false, true);
    assert_eq!(s.scroll, 5);
    s.handle_key_event(KeyInput::Down, false, true);
    assert_eq!(s.scroll, 6);
    assert_eq!(s.handle_key_event(KeyInput::CtrlU, false, true), KeyEffect::Nothing);
    assert_eq!(s.scroll, 1);
}

#[test]
fn scrolling_up_saturates_at_zero() {
    let mut s = fresh_session();
    s.handle_key_event(KeyInput::Up, false, true);
    assert_eq!(s.scroll, 0);
    assert!(s.rerender);
    s.handle_key_event(KeyInput::Down, false, true);
    s.handle_key_event(KeyInput::CtrlU, false, true);
    assert_eq!(s.scroll, 0);
}

#[test]
fn text_keys_insert_only_while_not_receiving() {
    let mut s = fresh_session();
    assert_eq!(s.handle_key_event(KeyInput::Other, false, true), KeyEffect::InsertIntoComposition);
    assert_eq!(s.handle_key_event(KeyInput::Other, true, true), KeyEffect::Nothing);
}

#[test]
fn navigation_keys_mark_dirty_only_when_the_cursor_moves() {
    let mut s = fresh_session();
    s.handle_key_event(KeyInput::Left, false, true);
    assert!(!s.rerender);
    s.advance_for_new_turn();
    s.finish_send();
    s.advance_for_new_turn();
    s.finish_send();
    assert_eq!(s.cursor, 3);
    s.handle_key_event(KeyInput::Left, false, true);
    assert_eq!(s.cursor, 1);
    assert!(s.rerender);
}

#[test]
fn rendering_is_skipped_when_content_and_view_are_unchanged() {
    let mut s = fresh_session();
    let reply = Message::assistant("Hi there".to_string());
    assert_eq!(s.plan_render(Some(&reply)), RenderPlan::Redraw);
    assert_eq!(s.last_rendered, "Hi there");
    assert!(!s.rerender);
    assert_eq!(s.plan_render(Some(&reply)), RenderPlan::Unchanged);
    let grown = Message::assistant("Hi there!".to_string());
    assert_eq!(s.plan_render(Some(&grown)), RenderPlan::Redraw);
    assert_eq!(s.last_rendered, "Hi there!");
}

#[test]
fn a_dirty_view_forces_a_redraw_of_unchanged_content() {
    let mut s = fresh_session();
    let reply = Message::assistant("Hi".to_string());
    assert_eq!(s.plan_render(Some(&reply)), RenderPlan::Redraw);
    s.handle_key_event(KeyInput::Down, false, true);
    assert!(s.rerender);
    assert_eq!(s.plan_render(Some(&reply)), RenderPlan::Redraw);
    assert!(!s.rerender);
}

#[test]
fn with_no_exchange_only_the_composition_is_rendered() {
    let mut s = fresh_session();
    assert_eq!(s.plan_render(None), RenderPlan::ComposingOnly);
}

#[test]
fn pane_height_leaves_room_for_the_composition_pane() {
    // content fits: one row above it
    assert_eq!(pane_height(10, 40), 11);
    // content would crowd out the composition pane: shrink by three rows
    assert_eq!(pane_height(50, 40), 48);
    // degenerate viewport: saturate instead of underflowing
    assert_eq!(pane_height(0, 2), 0);
    assert_eq!(pane_height(u16::MAX, 40), u16::MAX - 3);
}
