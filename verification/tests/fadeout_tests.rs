use rusty_poke::fadeout::{
    create_fadeout, fadeout_alpha_permille, update_fadeout, FadeTimer, FadeoutConfigResource,
    FadeoutStatus,
};
use rusty_poke::geometry::Vec2;
use rusty_poke::state::{AppState, StateStack, Transition};

#[test]
fn fade_timer_finishes_exactly_at_its_duration() {
    let mut t = FadeTimer::new(500);
    for _ in 0..4 {
        t.tick(100);
        assert!(!t.finished());
    }
    t.tick(100);
    assert!(t.finished());
}

#[test]
fn fade_timer_percent_ramps_and_clamps() {
    let mut t = FadeTimer::new(500);
    assert_eq!(t.percent_permille(), 0);
    t.tick(100);
    assert_eq!(t.percent_permille(), 200);
    t.tick(150);
    assert_eq!(t.percent_permille(), 500);
    t.tick(1000);
    assert_eq!(t.percent_permille(), 1000);
    assert!(t.finished());
}

#[test]
fn overlay_opacity_ramps_from_its_floor() {
    let mut t = FadeTimer::new(500);
    assert_eq!(fadeout_alpha_permille(&t), 300);
    t.tick(250);
    assert_eq!(fadeout_alpha_permille(&t), 800);
    t.tick(250);
    assert_eq!(fadeout_alpha_permille(&t), 1300);
}

#[test]
fn create_fadeout_consumes_the_one_shot_configuration() {
    let mut config = Some(FadeoutConfigResource {
        fadeout_duration: 500,
        next_state: AppState::Combat,
        position: Vec2 { x: 42, y: -7 },
    });
    let status = create_fadeout(&mut config);
    assert!(config.is_none());
    assert_eq!(status.next_state, AppState::Combat);
    assert_eq!(status.position, Vec2 { x: 42, y: -7 });
    assert!(!status.timer.finished());
}

#[test]
fn fadeout_sets_the_next_state_exactly_once() {
    let mut stack = StateStack::new(AppState::OverWorld);
    stack.push(AppState::Fadeout);
    let mut slot: Option<FadeoutStatus> = Some(create_fadeout(&mut Some(
        FadeoutConfigResource {
            fadeout_duration: 500,
            next_state: AppState::Combat,
            position: Vec2 { x: 0, y: 0 },
        },
    )));

    for _ in 0..4 {
        let t = update_fadeout(&mut slot, &mut stack, 100);
        assert!(t.is_none());
        assert_eq!(stack.current(), AppState::Fadeout);
    }
    let fired = update_fadeout(&mut slot, &mut stack, 100);
    assert_eq!(
        fired.unwrap(),
        vec![
            Transition::Exit(AppState::Fadeout),
            Transition::Enter(AppState::Combat),
        ]
    );
    assert!(slot.is_none());
    assert_eq!(stack.current(), AppState::Combat);
    assert_eq!(stack.len(), 2);

    let after = update_fadeout(&mut slot, &mut stack, 100);
    assert!(after.is_none());
    assert_eq!(stack.current(), AppState::Combat);
}
