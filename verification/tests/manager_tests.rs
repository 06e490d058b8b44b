use jumpy_session::core_session::CoreSessionInfo;
use jumpy_session::input::{EditorInput, RawPlayerInput};
use jumpy_session::manager::{
    collect_local_input, ensure_2_players, play_sounds, update_game, update_session, CoreMeta,
    EngineState, InGameState, MenuPage, SessionManager,
};
use jumpy_session::session::{NetworkRunnerInfo, SessionRunner, TransportFrame};

fn new_manager() -> SessionManager {
    SessionManager {
        session: None,
        menu_camera_active: true,
        menu_page: MenuPage::Home,
        engine_state: EngineState::MainMenu,
        in_game_state: InGameState::Playing,
        core_meta: CoreMeta {
            players: vec![101, 102, 103, 104],
        },
    }
}

fn empty_info() -> CoreSessionInfo {
    CoreSessionInfo { spawner_meta: vec![] }
}

fn raw_jump() -> RawPlayerInput {
    RawPlayerInput {
        jump: true,
        grab: false,
        shoot: false,
        move_x: 0,
        move_y: 0,
    }
}

#[test]
fn start_local_owns_a_session_and_hides_the_menu_camera() {
    let mut mgr = new_manager();
    mgr.start_local(empty_info());
    assert!(mgr.session.is_some());
    assert!(!mgr.menu_camera_active);
    assert!(matches!(
        mgr.session.as_ref().unwrap().0,
        SessionRunner::Local(_)
    ));
}

#[test]
fn start_network_forces_the_playing_state() {
    let mut mgr = new_manager();
    mgr.start_network(empty_info(), NetworkRunnerInfo { local_player_idx: 2 });
    assert!(mgr.session.is_some());
    assert!(!mgr.menu_camera_active);
    assert_eq!(mgr.engine_state, EngineState::InGame);
    assert_eq!(mgr.in_game_state, InGameState::Playing);
    assert_eq!(
        mgr.session.as_ref().unwrap().0.network_player_idx(),
        Some(2)
    );
}

#[test]
fn stop_drops_the_session_and_restores_the_menu_camera() {
    let mut mgr = new_manager();
    mgr.start_local(empty_info());
    mgr.stop();
    assert!(mgr.session.is_none());
    assert!(mgr.menu_camera_active);
}

#[test]
fn two_player_floor_activates_slots_zero_and_one_only() {
    let mut mgr = new_manager();
    mgr.start_local(empty_info());
    let meta = mgr.core_meta.clone();
    let session = mgr.session.as_mut().unwrap();
    ensure_2_players(session, &meta);
    let players = match &session.0 {
        SessionRunner::Local(l) => &l.core.world.players,
        SessionRunner::Networked(_) => unreachable!(),
    };
    assert!(players[0].active && players[1].active);
    assert_eq!(players[0].selected_player, 101);
    assert_eq!(players[1].selected_player, 102);
    assert!(!players[2].active && !players[3].active);
    // With players already active, a second pass changes nothing.
    let before_2 = players[2].active;
    ensure_2_players(session, &meta);
    let players = match &session.0 {
        SessionRunner::Local(l) => &l.core.world.players,
        SessionRunner::Networked(_) => unreachable!(),
    };
    assert_eq!(players[2].active, before_2);
    assert_eq!(players[0].selected_player, 101);
}

#[test]
fn network_input_for_slot_zero_lands_in_the_network_slot() {
    let mut mgr = new_manager();
    mgr.start_network(empty_info(), NetworkRunnerInfo { local_player_idx: 2 });
    let session = mgr.session.as_mut().unwrap();
    let collectors = vec![(0usize, raw_jump()), (1usize, raw_jump())];
    let mut editor = Some(EditorInput { command: 9 });
    collect_local_input(session, &collectors, &mut editor);
    let players = match &session.0 {
        SessionRunner::Networked(n) => &n.core.world.players,
        SessionRunner::Local(_) => unreachable!(),
    };
    // UI slot 0's input landed in network slot 2 ...
    assert!(players[2].control.jump_pressed);
    assert!(players[2].control.jump_just_pressed);
    // ... no other slot was touched (slot 1's entry was skipped) ...
    assert!(!players[0].control.jump_pressed);
    assert!(!players[1].control.jump_pressed);
    assert!(!players[3].control.jump_pressed);
    // ... and the editor override is not consumed in a network game.
    assert_eq!(editor, Some(EditorInput { command: 9 }));
    assert_eq!(players[0].editor_input, None);
}

#[test]
fn local_input_collection_merges_the_editor_override() {
    let mut mgr = new_manager();
    mgr.start_local(empty_info());
    let session = mgr.session.as_mut().unwrap();
    let collectors = vec![(0usize, raw_jump())];
    let mut editor = Some(EditorInput { command: 7 });
    collect_local_input(session, &collectors, &mut editor);
    let players = match &session.0 {
        SessionRunner::Local(l) => &l.core.world.players,
        SessionRunner::Networked(_) => unreachable!(),
    };
    assert!(players[0].control.jump_pressed);
    assert_eq!(players[0].editor_input, Some(EditorInput { command: 7 }));
    assert_eq!(editor, None);
}

#[test]
fn ai_slots_are_skipped_by_input_collection() {
    let mut mgr = new_manager();
    mgr.start_local(empty_info());
    let session = mgr.session.as_mut().unwrap();
    match &mut session.0 {
        SessionRunner::Local(l) => l.core.world.players[1].is_ai = true,
        SessionRunner::Networked(_) => unreachable!(),
    }
    let collectors = vec![(1usize, raw_jump())];
    let mut editor = None;
    collect_local_input(session, &collectors, &mut editor);
    let players = match &session.0 {
        SessionRunner::Local(l) => &l.core.world.players,
        SessionRunner::Networked(_) => unreachable!(),
    };
    assert!(!players[1].control.jump_pressed);
}

#[test]
fn successful_advance_hands_the_session_back() {
    let mut mgr = new_manager();
    mgr.start_local(empty_info());
    update_game(&mut mgr, &TransportFrame::Authorized { steps: 0 });
    assert!(mgr.session.is_some());
    assert!(!mgr.menu_camera_active);
    match &mgr.session.as_ref().unwrap().0 {
        SessionRunner::Local(l) => assert_eq!(l.core.world.tick, 1),
        SessionRunner::Networked(_) => unreachable!(),
    }
}

#[test]
fn disconnect_tears_the_session_down_to_the_main_menu() {
    let mut mgr = new_manager();
    mgr.start_network(empty_info(), NetworkRunnerInfo { local_player_idx: 0 });
    update_game(&mut mgr, &TransportFrame::Disconnected);
    // The session no longer exists; no further advance can happen without a
    // new start.
    assert!(mgr.session.is_none());
    assert!(mgr.menu_camera_active);
    assert_eq!(mgr.menu_page, MenuPage::Home);
    assert_eq!(mgr.engine_state, EngineState::MainMenu);
    assert_eq!(mgr.in_game_state, InGameState::Playing);
}

#[test]
fn manager_restart_keeps_the_same_runner_and_resets_the_world() {
    let mut mgr = new_manager();
    mgr.start_local(empty_info());
    update_game(&mut mgr, &TransportFrame::Authorized { steps: 0 });
    mgr.restart();
    assert!(mgr.session.is_some());
    match &mgr.session.as_ref().unwrap().0 {
        SessionRunner::Local(l) => assert_eq!(l.core.world.tick, 0),
        SessionRunner::Networked(_) => unreachable!(),
    }
    // Restarting without a session is a no-op.
    mgr.stop();
    mgr.restart();
    assert!(mgr.session.is_none());
}

#[test]
fn play_sounds_drains_the_queue_exactly_once() {
    let mut mgr = new_manager();
    mgr.start_local(empty_info());
    let session = mgr.session.as_mut().unwrap();
    match &mut session.0 {
        SessionRunner::Local(l) => l
            .core
            .world
            .audio_events
            .push(jumpy_session::world::AudioEvent::PlaySound {
                sound: 3,
                volume: 50,
            }),
        SessionRunner::Networked(_) => unreachable!(),
    }
    let events = play_sounds(session);
    assert_eq!(events.len(), 1);
    assert_eq!(play_sounds(session).len(), 0);
}

#[test]
fn update_session_runs_one_whole_frame_in_order() {
    let mut mgr = new_manager();
    mgr.start_local(empty_info());
    let collectors = vec![(0usize, raw_jump())];
    let mut editor = None;
    let events = update_session(
        &mut mgr,
        &collectors,
        &mut editor,
        &TransportFrame::Authorized { steps: 0 },
    );
    assert_eq!(events.len(), 0);
    let players = match &mgr.session.as_ref().unwrap().0 {
        SessionRunner::Local(l) => {
            assert_eq!(l.core.world.tick, 1);
            &l.core.world.players
        },
        SessionRunner::Networked(_) => unreachable!(),
    };
    // The two-player floor ran before input collection and stepping.
    assert!(players[0].active && players[1].active);
    assert!(players[0].control.jump_pressed);
}

#[test]
fn update_session_tears_down_on_disconnect_and_returns_no_sounds() {
    let mut mgr = new_manager();
    mgr.start_network(empty_info(), NetworkRunnerInfo { local_player_idx: 1 });
    let collectors = vec![];
    let mut editor = None;
    let events = update_session(
        &mut mgr,
        &collectors,
        &mut editor,
        &TransportFrame::Disconnected,
    );
    assert_eq!(events.len(), 0);
    assert!(mgr.session.is_none());
    assert!(mgr.menu_camera_active);
    assert_eq!(mgr.engine_state, EngineState::MainMenu);
}
