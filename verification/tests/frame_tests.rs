use physics_sandbox::frame::{Action, Event, FrameLoop, Stage};
use physics_sandbox::spawner::SpawnRequest;

/// Answers one whole frame as a caller would, and returns the actions asked for.
fn play_frame(driver: &mut FrameLoop, pressed: bool, pointer: (i32, i32)) -> Vec<Action<(i32, i32)>> {
    let mut asked = Vec::new();
    loop {
        let event = if driver.stage() == Stage::Poll {
            Event::Input { pressed, pointer }
        } else {
            Event::Completed
        };
        let action = driver.next(event);
        let frame_over = action == Action::Clear;
        asked.push(action);
        if frame_over {
            return asked;
        }
    }
}

#[test]
fn driver_starts_with_clear_outstanding() {
    let driver = FrameLoop::new();
    assert_eq!(driver.stage(), Stage::Clear);
}

#[test]
fn frame_without_press_runs_six_stages_in_order() {
    let mut driver = FrameLoop::new();
    let asked = play_frame(&mut driver, false, (0, 0));
    assert_eq!(
        asked,
        vec![Action::Poll, Action::Draw, Action::Step, Action::Sync, Action::Present, Action::Clear]
    );
    assert_eq!(driver.stage(), Stage::Clear);
}

#[test]
fn frame_with_press_spawns_between_poll_and_draw() {
    let mut driver = FrameLoop::new();
    let asked = play_frame(&mut driver, true, (400, 100));
    assert_eq!(
        asked,
        vec![
            Action::Poll,
            Action::Spawn(SpawnRequest { position: (400, 100) }),
            Action::Draw,
            Action::Step,
            Action::Sync,
            Action::Present,
            Action::Clear,
        ]
    );
}

#[test]
fn draw_is_asked_after_poll_and_spawn_and_before_step_in_every_frame() {
    let mut driver = FrameLoop::new();
    for frame in 0..50 {
        let asked = play_frame(&mut driver, frame % 3 == 0, (frame, frame));
        let poll = asked.iter().position(|a| *a == Action::Poll).unwrap();
        let draw = asked.iter().position(|a| *a == Action::Draw).unwrap();
        let step = asked.iter().position(|a| *a == Action::Step).unwrap();
        let sync = asked.iter().position(|a| *a == Action::Sync).unwrap();
        assert!(poll < draw);
        if let Some(spawn) = asked.iter().position(|a| matches!(a, Action::Spawn(_))) {
            assert!(poll < spawn);
            assert!(spawn < draw);
        }
        assert!(draw < step);
        assert!(step < sync);
    }
}

#[test]
fn stage_follows_the_action_handed_out() {
    let mut driver = FrameLoop::new();
    assert_eq!(driver.next(Event::<u8>::Completed), Action::Poll);
    assert_eq!(driver.stage(), Stage::Poll);
    assert_eq!(
        driver.next(Event::Input { pressed: true, pointer: 7u8 }),
        Action::Spawn(SpawnRequest { position: 7u8 })
    );
    assert_eq!(driver.stage(), Stage::Spawn);
    assert_eq!(driver.next(Event::<u8>::Completed), Action::Draw);
    assert_eq!(driver.stage(), Stage::Draw);
    assert_eq!(driver.next(Event::<u8>::Completed), Action::Step);
    assert_eq!(driver.stage(), Stage::Step);
    assert_eq!(driver.next(Event::<u8>::Completed), Action::Sync);
    assert_eq!(driver.stage(), Stage::Sync);
    assert_eq!(driver.next(Event::<u8>::Completed), Action::Present);
    assert_eq!(driver.stage(), Stage::Present);
    assert_eq!(driver.next(Event::<u8>::Completed), Action::Clear);
    assert_eq!(driver.stage(), Stage::Clear);
}

#[test]
fn poll_without_a_sample_draws_and_keeps_the_memory() {
    let mut driver = FrameLoop::new();
    // A held button, remembered from the first frame.
    play_frame(&mut driver, true, (1, 1));
    assert_eq!(driver.next(Event::<(i32, i32)>::Completed), Action::Poll);
    assert_eq!(driver.stage(), Stage::Poll);
    assert_eq!(driver.next(Event::<(i32, i32)>::Completed), Action::Draw);
    assert_eq!(driver.next(Event::<(i32, i32)>::Completed), Action::Step);
    assert_eq!(driver.next(Event::<(i32, i32)>::Completed), Action::Sync);
    assert_eq!(driver.next(Event::<(i32, i32)>::Completed), Action::Present);
    assert_eq!(driver.next(Event::<(i32, i32)>::Completed), Action::Clear);
    // Still held: no second spawn.
    let asked = play_frame(&mut driver, true, (2, 2));
    assert!(!asked.iter().any(|a| matches!(a, Action::Spawn(_))));
}

#[test]
fn input_reported_outside_the_poll_is_not_consulted() {
    let mut driver = FrameLoop::new();
    assert_eq!(driver.next(Event::Input { pressed: true, pointer: 1u8 }), Action::Poll);
    // The press is seen for the first time at the poll, and spawns.
    assert_eq!(
        driver.next(Event::Input { pressed: true, pointer: 2u8 }),
        Action::Spawn(SpawnRequest { position: 2u8 })
    );
    // Reports on the later stages carry a released button, which is not looked at.
    assert_eq!(driver.next(Event::Input { pressed: false, pointer: 3u8 }), Action::Draw);
    assert_eq!(driver.next(Event::Input { pressed: false, pointer: 4u8 }), Action::Step);
    assert_eq!(driver.next(Event::Input { pressed: false, pointer: 5u8 }), Action::Sync);
    assert_eq!(driver.next(Event::Input { pressed: false, pointer: 6u8 }), Action::Present);
    assert_eq!(driver.next(Event::Input { pressed: false, pointer: 7u8 }), Action::Clear);
    // The button is still remembered as held: the next poll does not spawn.
    assert_eq!(driver.next(Event::<u8>::Completed), Action::Poll);
    assert_eq!(driver.next(Event::Input { pressed: true, pointer: 8u8 }), Action::Draw);
}

#[test]
fn holding_for_300_frames_asks_for_one_spawn() {
    let mut driver = FrameLoop::new();
    let mut spawns = 0;
    for frame in 0..300 {
        let asked = play_frame(&mut driver, true, (frame, 0));
        spawns += asked.iter().filter(|a| matches!(a, Action::Spawn(_))).count();
    }
    assert_eq!(spawns, 1);
}

#[test]
fn hold_release_hold_asks_for_two_spawns() {
    let mut driver = FrameLoop::new();
    let inputs = [true, true, true, false, true, true];
    let mut spawn_frames = Vec::new();
    for (frame, pressed) in inputs.iter().enumerate() {
        let asked = play_frame(&mut driver, *pressed, (0, 0));
        if asked.iter().any(|a| matches!(a, Action::Spawn(_))) {
            spawn_frames.push(frame);
        }
    }
    assert_eq!(spawn_frames, vec![0, 4]);
}
