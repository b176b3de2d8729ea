use rusty_poke::state::{AppState, StateStack, StateStackError, Transition};

#[test]
fn new_stack_holds_the_initial_state() {
    let s = StateStack::new(AppState::OverWorld);
    assert_eq!(s.len(), 1);
    assert_eq!(s.current(), AppState::OverWorld);
}

#[test]
fn push_pauses_the_old_top_and_enters_the_new() {
    let mut s = StateStack::new(AppState::OverWorld);
    let t = s.push(AppState::Fadeout);
    assert_eq!(s.len(), 2);
    assert_eq!(s.current(), AppState::Fadeout);
    assert_eq!(
        t,
        vec![
            Transition::Pause(AppState::OverWorld),
            Transition::Enter(AppState::Fadeout),
        ]
    );
}

#[test]
fn pop_exits_the_top_and_resumes_the_state_below() {
    let mut s = StateStack::new(AppState::OverWorld);
    s.push(AppState::Combat);
    let t = s.pop().unwrap();
    assert_eq!(s.len(), 1);
    assert_eq!(s.current(), AppState::OverWorld);
    assert_eq!(
        t,
        vec![
            Transition::Exit(AppState::Combat),
            Transition::Resume(AppState::OverWorld),
        ]
    );
}

#[test]
fn popping_the_sole_state_is_a_reported_error() {
    let mut s = StateStack::new(AppState::MainMenu);
    let r = s.pop();
    assert_eq!(r, Err(StateStackError::WouldEmptyStack));
    assert_eq!(s.len(), 1);
    assert_eq!(s.current(), AppState::MainMenu);
}

#[test]
fn set_replaces_the_top_state() {
    let mut s = StateStack::new(AppState::OverWorld);
    s.push(AppState::Fadeout);
    let t = s.set(AppState::Combat);
    assert_eq!(s.len(), 2);
    assert_eq!(s.current(), AppState::Combat);
    assert_eq!(
        t,
        vec![
            Transition::Exit(AppState::Fadeout),
            Transition::Enter(AppState::Combat),
        ]
    );
}

#[test]
fn stack_stays_non_empty_under_mixed_operations() {
    let mut s = StateStack::new(AppState::OverWorld);
    s.push(AppState::Fadeout);
    s.set(AppState::Combat);
    s.pop().unwrap();
    assert!(s.pop().is_err());
    s.push(AppState::Fadeout);
    s.push(AppState::Combat);
    s.pop().unwrap();
    s.pop().unwrap();
    assert!(s.pop().is_err());
    assert_eq!(s.len(), 1);
    assert_eq!(s.current(), AppState::OverWorld);
}
