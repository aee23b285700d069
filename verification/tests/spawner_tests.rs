use physics_sandbox::spawner::{SpawnRequest, Spawner};

fn count_requests(spawner: &mut Spawner, inputs: &[bool]) -> usize {
    let mut count = 0;
    for (frame, pressed) in inputs.iter().enumerate() {
        if spawner.on_frame(*pressed, frame).is_some() {
            count += 1;
        }
    }
    count
}

#[test]
fn press_emits_one_request_with_the_pointer() {
    let mut spawner = Spawner::new();
    assert_eq!(spawner.on_frame(true, (3, 4)), Some(SpawnRequest { position: (3, 4) }));
}

#[test]
fn held_input_emits_nothing_more() {
    let mut spawner = Spawner::new();
    assert!(spawner.on_frame(true, (3, 4)).is_some());
    assert_eq!(spawner.on_frame(true, (5, 6)), None);
    assert_eq!(spawner.on_frame(true, (7, 8)), None);
}

#[test]
fn released_input_emits_nothing() {
    let mut spawner = Spawner::new();
    assert_eq!(spawner.on_frame(false, 0), None);
    assert_eq!(spawner.on_frame(false, 1), None);
}

#[test]
fn request_comes_on_the_frame_of_the_press() {
    let mut spawner = Spawner::new();
    assert_eq!(spawner.on_frame(false, 10), None);
    assert_eq!(spawner.on_frame(false, 11), None);
    assert_eq!(spawner.on_frame(true, 12), Some(SpawnRequest { position: 12 }));
    assert_eq!(spawner.on_frame(true, 13), None);
    assert_eq!(spawner.on_frame(false, 14), None);
}

#[test]
fn hold_then_release_spawns_once() {
    for n in 1..=20 {
        let mut inputs = vec![true; n];
        inputs.push(false);
        let mut spawner = Spawner::new();
        assert_eq!(count_requests(&mut spawner, &inputs), 1);
    }
}

#[test]
fn each_new_press_spawns_again() {
    let inputs = [true, true, false, true, false, false, true, true, true];
    let mut spawner = Spawner::new();
    assert_eq!(count_requests(&mut spawner, &inputs), 3);
}

#[test]
fn alternating_input_spawns_on_every_press() {
    let inputs = [true, false, true, false, true, false];
    let mut spawner = Spawner::new();
    assert_eq!(count_requests(&mut spawner, &inputs), 3);
}

#[test]
fn empty_input_spawns_nothing() {
    let mut spawner = Spawner::new();
    assert_eq!(count_requests(&mut spawner, &[]), 0);
}
