use jumpy_session::core_session::{CoreSession, CoreSessionInfo};
use jumpy_session::session::{
    LocalSessionRunner, NetworkedSessionRunner, SessionError, SessionRunner, TransportFrame,
};

fn empty_info() -> CoreSessionInfo {
    CoreSessionInfo { spawner_meta: vec![] }
}

#[test]
fn local_advance_steps_exactly_once_and_never_fails() {
    let mut runner =
        SessionRunner::Local(LocalSessionRunner::new(CoreSession::new(empty_info())));
    let r = runner.advance(&TransportFrame::Authorized { steps: 0 });
    assert!(r.is_ok());
    match &runner {
        SessionRunner::Local(l) => assert_eq!(l.core.world.tick, 1),
        SessionRunner::Networked(_) => unreachable!(),
    }
}

#[test]
fn networked_advance_steps_what_the_transport_authorized() {
    let mut runner = SessionRunner::Networked(NetworkedSessionRunner {
        core: CoreSession::new(empty_info()),
        local_player_idx: 1,
    });
    assert!(runner.advance(&TransportFrame::Authorized { steps: 0 }).is_ok());
    assert!(runner.advance(&TransportFrame::Authorized { steps: 3 }).is_ok());
    match &runner {
        SessionRunner::Networked(n) => assert_eq!(n.core.world.tick, 3),
        SessionRunner::Local(_) => unreachable!(),
    }
}

#[test]
fn networked_disconnect_is_reported_and_leaves_the_world_alone() {
    let mut runner = SessionRunner::Networked(NetworkedSessionRunner {
        core: CoreSession::new(empty_info()),
        local_player_idx: 0,
    });
    assert!(runner.advance(&TransportFrame::Authorized { steps: 2 }).is_ok());
    let r = runner.advance(&TransportFrame::Disconnected);
    assert!(matches!(r, Err(SessionError::Disconnected)));
    match &runner {
        SessionRunner::Networked(n) => assert_eq!(n.core.world.tick, 2),
        SessionRunner::Local(_) => unreachable!(),
    }
}

#[test]
fn network_player_idx_is_none_exactly_for_local_runners() {
    let local = SessionRunner::Local(LocalSessionRunner::new(CoreSession::new(empty_info())));
    assert_eq!(local.network_player_idx(), None);
    let networked = SessionRunner::Networked(NetworkedSessionRunner {
        core: CoreSession::new(empty_info()),
        local_player_idx: 2,
    });
    assert_eq!(networked.network_player_idx(), Some(2));
}

#[test]
fn runner_restart_resets_the_core_but_keeps_the_timing_state() {
    let mut runner =
        SessionRunner::Local(LocalSessionRunner::new(CoreSession::new(empty_info())));
    // Build up some timing state and some simulation progress.
    let _ = runner.run_criteria(5_000, 0);
    let _ = runner.advance(&TransportFrame::Authorized { steps: 0 });
    match &runner {
        SessionRunner::Local(l) => {
            assert_eq!(l.accumulator_micros, 5_000);
            assert_eq!(l.core.world.tick, 1);
        },
        SessionRunner::Networked(_) => unreachable!(),
    }
    runner.restart();
    match &runner {
        SessionRunner::Local(l) => {
            // Same runner, same accumulated timing state ...
            assert_eq!(l.accumulator_micros, 5_000);
            // ... but the simulation is back at its initial state.
            assert_eq!(l.core.world.tick, 0);
        },
        SessionRunner::Networked(_) => unreachable!(),
    }
}
