use jumpy_session::core_session::{CoreSession, CoreSessionInfo};
use jumpy_session::session::{LocalSessionRunner, ShouldRun, STEP_MICROS};

fn new_runner() -> LocalSessionRunner {
    LocalSessionRunner::new(CoreSession::new(CoreSessionInfo { spawner_meta: vec![] }))
}

#[test]
fn one_step_lasts_a_sixtieth_of_a_second() {
    assert_eq!(jumpy_session::session::FPS, 60);
    assert_eq!(STEP_MICROS, 1_000_000 / 60);
    assert_eq!(STEP_MICROS, 16_666);
}

#[test]
fn steps_across_frames_match_the_time_paid_in() {
    // Deltas of half a step, half a step, and one step: two steps in all,
    // which is the total time divided by one step.
    let mut r = new_runner();
    let mut steps = 0;
    for delta in [STEP_MICROS / 2, STEP_MICROS - STEP_MICROS / 2, STEP_MICROS] {
        loop {
            match r.run_criteria(delta, 50) {
                ShouldRun::YesAndCheckAgain => steps += 1,
                ShouldRun::No => break,
                ShouldRun::Yes => unreachable!(),
            }
        }
    }
    assert_eq!(steps, 2);
    assert_eq!(r.accumulator_micros, 0);
}

#[test]
fn no_step_before_one_step_of_debt() {
    let mut r = new_runner();
    assert_eq!(r.run_criteria(STEP_MICROS - 1, 0), ShouldRun::No);
    assert_eq!(r.accumulator_micros, STEP_MICROS - 1);
    assert!(r.loop_start_micros.is_none());
}

#[test]
fn one_frame_of_debt_fires_exactly_one_step() {
    let mut r = new_runner();
    assert_eq!(r.run_criteria(STEP_MICROS, 0), ShouldRun::YesAndCheckAgain);
    assert_eq!(r.accumulator_micros, 0);
    assert_eq!(r.loop_start_micros, Some(0));
    // The driver asks again within the same frame: no debt is left.
    assert_eq!(r.run_criteria(STEP_MICROS, 1), ShouldRun::No);
    assert_eq!(r.accumulator_micros, 0);
    assert!(r.loop_start_micros.is_none());
}

#[test]
fn slow_frame_catches_up_with_floor_of_debt_steps() {
    // Three steps' worth of time passed in one frame: exactly three steps
    // fire, then the scheduler yields.
    let mut r = new_runner();
    let delta = 3 * STEP_MICROS + 7;
    let mut steps = 0;
    loop {
        match r.run_criteria(delta, 10) {
            ShouldRun::YesAndCheckAgain => steps += 1,
            ShouldRun::No => break,
            ShouldRun::Yes => unreachable!(),
        }
        assert!(steps <= 3);
    }
    assert_eq!(steps, 3);
    assert_eq!(r.accumulator_micros, 7);
    assert_eq!(r.overrun_count, 0);
}

#[test]
fn overlong_burst_aborts_and_zeroes_the_debt() {
    let mut r = new_runner();
    let delta = 10 * STEP_MICROS;
    // First call starts the burst at wall-clock 0.
    assert_eq!(r.run_criteria(delta, 0), ShouldRun::YesAndCheckAgain);
    // The next call arrives more than one step of wall time later: the
    // burst is cut off, all remaining debt is discarded.
    assert_eq!(r.run_criteria(delta, STEP_MICROS + 1), ShouldRun::No);
    assert_eq!(r.accumulator_micros, 0);
    assert!(r.loop_start_micros.is_none());
    assert_eq!(r.overrun_count, 1);
    // The scheduler recovers on the next ordinary frame.
    assert_eq!(
        r.run_criteria(STEP_MICROS, 2 * STEP_MICROS),
        ShouldRun::YesAndCheckAgain
    );
}

#[test]
fn burst_within_one_step_of_wall_time_is_not_aborted() {
    let mut r = new_runner();
    let delta = 2 * STEP_MICROS;
    assert_eq!(r.run_criteria(delta, 100), ShouldRun::YesAndCheckAgain);
    // Wall clock has moved, but by no more than one step: keep going.
    assert_eq!(
        r.run_criteria(delta, 100 + STEP_MICROS),
        ShouldRun::YesAndCheckAgain
    );
    assert_eq!(r.run_criteria(delta, 100 + STEP_MICROS), ShouldRun::No);
    assert_eq!(r.overrun_count, 0);
}
