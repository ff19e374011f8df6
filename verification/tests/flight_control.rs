use rocket_sim::flight::{Flight, SimRun};
use rocket_sim::history::RocketState;
use rocket_sim::vector::Vec3;

fn state(mass: u32) -> RocketState<u32> {
    let z = Vec3::from_xyz(0u32, 0, 0);
    RocketState { ang: z, pos: z, vel: z, acc: z, mass, thrust: 0, time: 0, thrust_vec: z, drag: 0 }
}

fn masses(f: &Flight<u32>) -> Vec<u32> {
    f.history().iter().map(|s| s.mass).collect()
}

#[test]
fn a_new_flight_is_powered_and_empty() {
    let f: Flight<u32> = Flight::new();
    assert!(f.powered());
    assert!(f.history().is_empty());
}

#[test]
fn fuel_burns_while_powered() {
    let mut run = SimRun::start(Flight::new(), 5);
    assert_eq!(run.next_step(false), Some(0));
    assert!(run.awaiting_record());
    assert_eq!(run.record(state(3), false), Some(true));
    assert!(!run.awaiting_record());
    assert!(run.powered());
    assert_eq!(run.finish().history().len(), 1);
}

#[test]
fn engine_stays_off_once_out_of_fuel() {
    let mut run = SimRun::start(Flight::new(), 5);
    run.next_step(false);
    assert_eq!(run.record(state(3), false), Some(true));
    run.next_step(false);
    assert_eq!(run.record(state(2), true), Some(false));
    assert!(!run.powered());
    // a later check that finds fuel does not relight the engine
    run.next_step(false);
    assert_eq!(run.record(state(1), false), Some(false));
    let f = run.finish();
    assert!(!f.powered());
    assert_eq!(masses(&f), vec![3, 2, 1]);
    // nor does a new run
    let mut run = SimRun::start(f, 1);
    run.next_step(false);
    assert_eq!(run.record(state(9), false), Some(false));
}

#[test]
fn record_without_a_step_changes_nothing() {
    let mut run = SimRun::start(Flight::new(), 2);
    assert_eq!(run.record(state(1), false), None);
    assert_eq!(run.next_step(false), Some(0));
    assert_eq!(run.record(state(1), false), Some(true));
    assert_eq!(run.record(state(2), true), None);
    assert!(run.powered());
    assert_eq!(masses(&run.finish()), vec![1]);
}

#[test]
fn no_new_cycle_before_the_record() {
    let mut run = SimRun::start(Flight::new(), 5);
    assert_eq!(run.next_step(false), Some(0));
    assert_eq!(run.next_step(false), None);
    assert_eq!(run.next_step(true), None);
    assert_eq!(run.cycles(), 1);
    run.record(state(0), false);
    assert_eq!(run.next_step(false), Some(1));
    assert_eq!(run.cycles(), 2);
}

#[test]
fn run_takes_every_step_above_ground() {
    let mut run = SimRun::start(Flight::new(), 3);
    for k in 0..3 {
        assert_eq!(run.next_step(false), Some(k));
        run.record(state(k as u32), false);
    }
    assert!(run.is_over());
    assert_eq!(run.next_step(false), None);
    assert_eq!(run.cycles(), 3);
    assert_eq!(masses(&run.finish()), vec![0, 1, 2]);
}

#[test]
fn run_counts_the_cycle_that_finds_the_ground() {
    let mut run = SimRun::start(Flight::new(), 10);
    assert_eq!(run.next_step(false), Some(0));
    run.record(state(0), false);
    assert_eq!(run.next_step(false), Some(1));
    run.record(state(1), false);
    assert!(!run.is_over());
    assert_eq!(run.next_step(true), None);
    assert!(run.is_over());
    assert_eq!(run.cycles(), 3);
    assert_eq!(run.next_step(false), None);
    assert_eq!(run.cycles(), 3);
    assert_eq!(run.finish().history().len(), 2);
}

#[test]
fn run_grounded_at_the_start() {
    let mut run = SimRun::start(Flight::<u32>::new(), 5);
    assert_eq!(run.next_step(true), None);
    assert_eq!(run.cycles(), 1);
    assert!(run.finish().history().is_empty());
}

#[test]
fn run_without_steps() {
    for dur in [0, -1, i32::MIN] {
        let mut run = SimRun::start(Flight::<u32>::new(), dur);
        assert!(run.is_over());
        assert_eq!(run.next_step(true), None);
        assert_eq!(run.next_step(false), None);
        assert_eq!(run.cycles(), 0);
    }
}

#[test]
fn a_second_run_appends_to_the_log() {
    let mut run = SimRun::start(Flight::new(), 2);
    while let Some(i) = run.next_step(false) {
        run.record(state(i as u32), false);
    }
    assert_eq!(run.cycles(), 2);
    let mut run = SimRun::start(run.finish(), 2);
    while let Some(i) = run.next_step(false) {
        run.record(state(10 + i as u32), false);
    }
    assert_eq!(run.cycles(), 2);
    assert_eq!(masses(&run.finish()), vec![0, 1, 10, 11]);
}

#[test]
fn a_whole_run_with_the_log() {
    // heights at the start of each cycle: the rocket goes under at the fourth
    let heights: [i32; 5] = [0, 5, 2, -1, 4];
    let mut run = SimRun::start(Flight::new(), 5);
    let mut k = 0;
    while let Some(i) = run.next_step(heights[k] < 0) {
        assert_eq!(i as usize, k);
        run.record(state(i as u32), i == 1);
        k += 1;
    }
    assert_eq!(run.cycles(), 4);
    let f = run.finish();
    assert_eq!(f.history().len(), 3);
    assert!(!f.powered());
}
