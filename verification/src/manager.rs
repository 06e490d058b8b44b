//! The session manager and the per-frame driver.
//!
//! A [`SessionManager`] is the process-scoped owner of at most one
//! [`Session`] plus the slice of presentation state the session lifecycle
//! touches: whether the menu camera is active, which menu page and
//! engine/game states are current.  The driver work of one real frame runs
//! in fixed order — [`ensure_2_players`], [`collect_local_input`],
//! [`update_game`], [`play_sounds`] — and [`update_session`] performs that
//! whole pass.  On a disconnect the session is not put back: it is dropped,
//! and the presentation state is forced back to the main menu.

use vstd::prelude::*;

use crate::core_session::CoreSessionInfo;
use crate::input::{
    apply_raw_input, control_after, EditorInput, PlayerInput, RawPlayerInput, MAX_PLAYERS,
};
use crate::session::{
    step_n_spec, LocalSessionRunner, NetworkRunnerInfo, NetworkedSessionRunner, Session,
    SessionError, SessionRunner, TransportFrame,
};
use crate::world::{AudioEvent, WorldModel};

verus! {

/// Which top-level screen the engine is on.
#[derive(Clone, Copy, Debug, PartialEq, Eq, Structural)]
pub enum EngineState {
    MainMenu,
    InGame,
}

/// What an in-progress game is doing.
#[derive(Clone, Copy, Debug, PartialEq, Eq, Structural)]
pub enum InGameState {
    Playing,
    Paused,
}

/// Which page the main menu shows.
#[derive(Clone, Copy, Debug, PartialEq, Eq, Structural)]
pub enum MenuPage {
    Home,
    Settings,
}

/// The game's core metadata: the selectable characters, as handles.
#[derive(Clone, Debug)]
pub struct CoreMeta {
    pub players: Vec<u64>,
}

/// The process-scoped owner of the session and of the presentation state the
/// session lifecycle touches.
pub struct SessionManager {
    /// The in-progress match; `None` exactly while no match is playing.
    pub session: Option<Session>,
    /// Whether the menu-level camera is active; false while a match runs.
    pub menu_camera_active: bool,
    pub menu_page: MenuPage,
    pub engine_state: EngineState,
    pub in_game_state: InGameState,
    pub core_meta: CoreMeta,
}

/// Whether no slot of the input table takes part in the match.
pub open spec fn all_inactive(players: Seq<PlayerInput>) -> bool {
    forall|i: int| 0 <= i < players.len() ==> !(#[trigger] players[i]).active
}

/// What the two-player floor does: when no slot at all is active, slots 0
/// and 1 become active with the first two selectable characters; otherwise
/// nothing changes.
pub open spec fn ensure_2_spec(players: Seq<PlayerInput>, meta: Seq<u64>) -> Seq<PlayerInput> {
    if players.len() >= 2 && all_inactive(players) {
        let p0 = players[0];
        let p1 = players[1];
        players.update(
            0,
            PlayerInput {
                active: true,
                is_ai: p0.is_ai,
                selected_player: meta[0],
                control: p0.control,
                editor_input: p0.editor_input,
            },
        ).update(
            1,
            PlayerInput {
                active: true,
                is_ai: p1.is_ai,
                selected_player: meta[1],
                control: p1.control,
                editor_input: p1.editor_input,
            },
        )
    } else {
        players
    }
}

/// Make sure two players are on the board whenever the match is playing but
/// no slot is active — a defensive floor for entry points (the editor) that
/// skip the player-selection flow.
pub fn ensure_2_players(session: &mut Session, core_meta: &CoreMeta)
    requires
        old(session).0.wf(),
        core_meta.players@.len() >= 2,
    ensures
        final(session).0.core_of().world@ == old(session).0.core_of().world@.with_players(
            ensure_2_spec(old(session).0.core_of().world@.players, core_meta.players@),
        ),
        final(session).0 == old(session).0.with_core(final(session).0.core_of()),
        final(session).0.core_of().info == old(session).0.core_of().info,
        final(session).0.core_of().stages == old(session).0.core_of().stages,
        final(session).0.wf(),
{
    let ghost w0 = session.0.core_of().world@;
    let n = session.0.player_count();
    let mut any_active = false;
    let mut j: usize = 0;
    while j < n
        invariant
            j <= n,
            *session == *old(session),
            n == session.0.core_of().world@.players.len(),
            session.0.wf(),
            !any_active <==> forall|t: int|
                0 <= t < j ==> !(#[trigger] session.0.core_of().world@.players[t]).active,
        decreases n - j,
    {
        if session.0.read_player(j).active {
            any_active = true;
        }
        j += 1;
    }
    if !any_active {
        let p0 = session.0.read_player(0);
        session.0.write_player(
            0,
            PlayerInput {
                active: true,
                is_ai: p0.is_ai,
                selected_player: core_meta.players[0],
                control: p0.control,
                editor_input: p0.editor_input,
            },
        );
        let p1 = session.0.read_player(1);
        session.0.write_player(
            1,
            PlayerInput {
                active: true,
                is_ai: p1.is_ai,
                selected_player: core_meta.players[1],
                control: p1.control,
                editor_input: p1.editor_input,
            },
        );
        proof {
            assert(session.0.core_of().world@.players =~= ensure_2_spec(
                w0.players,
                core_meta.players@,
            ));
            assert(session.0.core_of().world@ == w0.with_players(
                ensure_2_spec(w0.players, core_meta.players@),
            ));
        }
    } else {
        proof {
            assert(session.0.core_of().world@ == w0.with_players(
                ensure_2_spec(w0.players, core_meta.players@),
            ));
        }
    }
}

/// What collecting one raw input entry does to the input table.  An entry is
/// skipped when its slot is AI-controlled, or when a network game is running
/// and the entry is not for UI slot 0 (only one local participant exists).
/// Otherwise the edge-triggered control is recomputed from the slot's
/// previous record and written to the network slot when one is present,
/// else to the entry's own slot.
pub open spec fn collect_one(
    players: Seq<PlayerInput>,
    entry: (usize, RawPlayerInput),
    net_idx: Option<usize>,
) -> Seq<PlayerInput> {
    let idx = entry.0 as int;
    if (entry.0 != 0 && net_idx is Some) || players[idx].is_ai {
        players
    } else {
        let target = (match net_idx {
            Some(k) => k,
            None => entry.0,
        }) as int;
        let c = control_after(players[idx].control, entry.1);
        players.update(
            target,
            PlayerInput {
                active: players[target].active,
                is_ai: players[target].is_ai,
                selected_player: players[target].selected_player,
                control: c,
                editor_input: players[target].editor_input,
            },
        )
    }
}

/// The input table after the first `n` raw entries have been collected.
pub open spec fn collect_upto(
    players: Seq<PlayerInput>,
    entries: Seq<(usize, RawPlayerInput)>,
    net_idx: Option<usize>,
    n: int,
) -> Seq<PlayerInput>
    decreases n,
{
    if n <= 0 {
        players
    } else {
        collect_one(collect_upto(players, entries, net_idx, n - 1), entries[n - 1], net_idx)
    }
}

/// Slot 0 with the pending editor override attached.
pub open spec fn with_editor(
    players: Seq<PlayerInput>,
    editor: Option<EditorInput>,
) -> Seq<PlayerInput> {
    players.update(
        0,
        PlayerInput {
            active: players[0].active,
            is_ai: players[0].is_ai,
            selected_player: players[0].selected_player,
            control: players[0].control,
            editor_input: editor,
        },
    )
}

/// The whole input-collection pass: for a local session the editor override
/// is merged into slot 0 first, then every raw entry is collected in order.
pub open spec fn collect_input_spec(
    players: Seq<PlayerInput>,
    entries: Seq<(usize, RawPlayerInput)>,
    net_idx: Option<usize>,
    is_local: bool,
    editor: Option<EditorInput>,
) -> Seq<PlayerInput> {
    let base = if is_local {
        with_editor(players, editor)
    } else {
        players
    };
    collect_upto(base, entries, net_idx, entries.len() as int)
}

/// Slot-index remapping: in a network game whose local participant owns
/// slot `k`, the input-collection pass writes only slot `k` — every other
/// slot keeps exactly its old record — and input gathered for UI slot 0
/// lands in slot `k`.
pub proof fn lemma_network_input_remap(
    players: Seq<PlayerInput>,
    entries: Seq<(usize, RawPlayerInput)>,
    k: usize,
    editor: Option<EditorInput>,
)
    requires
        players.len() == MAX_PLAYERS,
        k < MAX_PLAYERS,
        forall|i: int| 0 <= i < entries.len() ==> (#[trigger] entries[i]).0 < MAX_PLAYERS,
    ensures
        collect_input_spec(players, entries, Some(k), false, editor).len() == players.len(),
        forall|j: int|
            0 <= j < players.len() && j != k ==> collect_input_spec(
                players,
                entries,
                Some(k),
                false,
                editor,
            )[j] == players[j],
        entries.len() == 1 && entries[0].0 == 0 && !players[0].is_ai ==> collect_input_spec(
            players,
            entries,
            Some(k),
            false,
            editor,
        )[k as int].control == control_after(players[0].control, entries[0].1),
{
    lemma_collect_untouched(players, entries, k, entries.len() as int);
    if entries.len() == 1 && entries[0].0 == 0 && !players[0].is_ai {
        assert(collect_upto(players, entries, Some(k), 0) == players);
        assert(collect_upto(players, entries, Some(k), 1) == collect_one(
            players,
            entries[0],
            Some(k),
        ));
    }
}

/// Helper for the remapping law: collection under a network slot `k` leaves
/// every slot other than `k` untouched, prefix by prefix.
proof fn lemma_collect_untouched(
    players: Seq<PlayerInput>,
    entries: Seq<(usize, RawPlayerInput)>,
    k: usize,
    n: int,
)
    requires
        0 <= n <= entries.len(),
        k < players.len(),
        forall|i: int| 0 <= i < entries.len() ==> (#[trigger] entries[i]).0 < players.len(),
    ensures
        collect_upto(players, entries, Some(k), n).len() == players.len(),
        forall|j: int|
            0 <= j < players.len() && j != k ==> collect_upto(players, entries, Some(k), n)[j]
                == players[j],
    decreases n,
{
    if n > 0 {
        lemma_collect_untouched(players, entries, k, n - 1);
    }
}

/// Collect this frame's local input into the session's input table, once per
/// real frame, before stepping: merge the pending editor override into slot 0
/// (local sessions only), then recompute each collected slot's edge-triggered
/// control from its previous record, writing the result to the network slot
/// when one is present.
pub fn collect_local_input(
    session: &mut Session,
    collectors: &Vec<(usize, RawPlayerInput)>,
    current_editor_input: &mut Option<EditorInput>,
)
    requires
        old(session).0.wf(),
        forall|i: int| 0 <= i < collectors@.len() ==> (#[trigger] collectors@[i]).0 < MAX_PLAYERS,
    ensures
        final(session).0.core_of().world@ == old(session).0.core_of().world@.with_players(
            collect_input_spec(
                old(session).0.core_of().world@.players,
                collectors@,
                old(session).0.net_idx_of(),
                (*old(session)).0 is Local,
                *old(current_editor_input),
            ),
        ),
        final(session).0 == old(session).0.with_core(final(session).0.core_of()),
        final(session).0.core_of().info == old(session).0.core_of().info,
        final(session).0.core_of().stages == old(session).0.core_of().stages,
        final(session).0.wf(),
        *final(current_editor_input) == if (*old(session)).0 is Local {
            None
        } else {
            *old(current_editor_input)
        },
{
    let ghost w0 = session.0.core_of().world@;
    let net_idx = session.0.network_player_idx();
    let is_local = match &session.0 {
        SessionRunner::Local(_) => true,
        SessionRunner::Networked(_) => false,
    };
    if is_local {
        let editor = current_editor_input.take();
        session.0.set_editor_input(editor);
    }
    let ghost base = if is_local {
        with_editor(w0.players, *old(current_editor_input))
    } else {
        w0.players
    };
    let n = collectors.len();
    let mut i: usize = 0;
    while i < n
        invariant
            i <= n,
            n == collectors@.len(),
            forall|t: int| 0 <= t < n ==> (#[trigger] collectors@[t]).0 < MAX_PLAYERS,
            session.0.wf(),
            base.len() == MAX_PLAYERS,
            net_idx == old(session).0.net_idx_of(),
            session.0.core_of().world@ == old(session).0.core_of().world@.with_players(
                collect_upto(base, collectors@, net_idx, i as int),
            ),
            session.0 == old(session).0.with_core(session.0.core_of()),
            session.0.core_of().info == old(session).0.core_of().info,
            session.0.core_of().stages == old(session).0.core_of().stages,
        decreases n - i,
    {
        let idx = collectors[i].0;
        let raw = collectors[i].1;
        let is_ai = session.0.read_player(idx).is_ai;
        if (idx != 0 && net_idx.is_some()) || is_ai {
            // AI slots produce their own input inside the simulation, and a
            // network match has exactly one local participant.
        } else {
            let prev = session.0.get_player_input(idx);
            let c = apply_raw_input(prev, raw);
            let target = match net_idx {
                Some(k) => k,
                None => idx,
            };
            session.0.set_player_input(target, c);
        }
        i += 1;
    }
}

/// How many logical steps `advance` performs this frame: one for a local
/// session; for a networked session, whatever the transport authorized.
pub open spec fn frame_steps(runner: SessionRunner, frame: TransportFrame) -> int {
    match runner {
        SessionRunner::Local(_) => 1,
        SessionRunner::Networked(_) => match frame {
            TransportFrame::Authorized { steps } => steps as int,
            TransportFrame::Disconnected => 0,
        },
    }
}

/// Advance the game session for this real frame.  The session is taken out
/// of the manager while stepping; on success it is always handed back
/// intact.  On `Disconnected` it is not put back — the match is over — and
/// the presentation state is forced to the main menu with the menu camera
/// reactivated.
pub fn update_game(mgr: &mut SessionManager, net_frame: &TransportFrame)
    requires
        old(mgr).session matches Some(s) && s.0.wf() && ((s.0 is Local)
            ==> s.0.core_of().world@.tick < u64::MAX) && ((s.0 is Networked) ==> (
        *net_frame matches TransportFrame::Authorized { steps }
            ==> s.0.core_of().world@.tick + steps <= u64::MAX)),
    ensures
        old(mgr).session matches Some(s) ==> if s.0 is Networked && *net_frame is Disconnected {
            &&& final(mgr).session is None
            &&& final(mgr).menu_camera_active == true
            &&& final(mgr).menu_page == MenuPage::Home
            &&& final(mgr).engine_state == EngineState::MainMenu
            &&& final(mgr).in_game_state == InGameState::Playing
            &&& final(mgr).core_meta == old(mgr).core_meta
        } else {
            &&& final(mgr).session matches Some(s2)
            &&& s2.0 == s.0.with_core(s2.0.core_of())
            &&& s2.0.core_of().info == s.0.core_of().info
            &&& s2.0.core_of().stages == s.0.core_of().stages
            &&& s2.0.core_of().world@ == step_n_spec(
                s.0.core_of().world@,
                s.0.core_of().stages@,
                frame_steps(s.0, *net_frame),
            )
            &&& s2.0.wf()
            &&& final(mgr).menu_camera_active == old(mgr).menu_camera_active
            &&& final(mgr).menu_page == old(mgr).menu_page
            &&& final(mgr).engine_state == old(mgr).engine_state
            &&& final(mgr).in_game_state == old(mgr).in_game_state
            &&& final(mgr).core_meta == old(mgr).core_meta
        },
{
    let ghost s0 = old(mgr).session.unwrap().0;
    let session_opt = mgr.session.take();
    let mut session = session_opt.unwrap();
    let result = session.0.advance(net_frame);
    match result {
        Ok(_) => {
            proof {
                if s0 is Local {
                    assert(step_n_spec(s0.core_of().world@, s0.core_of().stages@, 0)
                        == s0.core_of().world@);
                }
            }
            mgr.session = Some(session);
        },
        Err(e) => {
            match e {
                SessionError::Disconnected => {
                    // The session is dropped, not put back: a disconnected
                    // match cannot be resumed at this layer.
                    mgr.menu_camera_active = true;
                    mgr.menu_page = MenuPage::Home;
                    mgr.engine_state = EngineState::MainMenu;
                    mgr.in_game_state = InGameState::Playing;
                },
            }
        },
    }
}

/// Drain the session's queued sounds for the presentation layer to play.
/// Each event is handed out exactly once, in the order it was emitted.
pub fn play_sounds(session: &mut Session) -> (events: Vec<AudioEvent>)
    ensures
        events@ == old(session).0.core_of().world@.audio_events,
        final(session).0.core_of().world@ == old(session).0.core_of().world@.with_audio(
            Seq::empty(),
        ),
        final(session).0 == old(session).0.with_core(final(session).0.core_of()),
        final(session).0.core_of().info == old(session).0.core_of().info,
        final(session).0.core_of().stages == old(session).0.core_of().stages,
        old(session).0.wf() ==> final(session).0.wf(),
{
    session.0.drain_audio_events()
}

/// The input table after one whole frame's pre-step work: the two-player
/// floor, then the input-collection pass.
pub open spec fn frame_players_spec(
    runner: SessionRunner,
    meta: Seq<u64>,
    entries: Seq<(usize, RawPlayerInput)>,
    editor: Option<EditorInput>,
) -> Seq<PlayerInput> {
    collect_input_spec(
        ensure_2_spec(runner.core_of().world@.players, meta),
        entries,
        runner.net_idx_of(),
        runner is Local,
        editor,
    )
}

/// The world after one whole frame of driver work (before the audio queue
/// is drained): the pre-step input work, then the frame's logical steps.
pub open spec fn frame_world_spec(
    runner: SessionRunner,
    meta: Seq<u64>,
    entries: Seq<(usize, RawPlayerInput)>,
    editor: Option<EditorInput>,
    frame: TransportFrame,
) -> WorldModel {
    step_n_spec(
        runner.core_of().world@.with_players(frame_players_spec(runner, meta, entries, editor)),
        runner.core_of().stages@,
        frame_steps(runner, frame),
    )
}

/// Run one real frame of session work, in fixed order: ensure two players,
/// collect local input, advance the simulation, and drain the queued sounds
/// for the caller to play.  On a disconnect the session is gone afterwards,
/// the presentation state is forced to the main menu, and no sounds are
/// returned.
pub fn update_session(
    mgr: &mut SessionManager,
    collectors: &Vec<(usize, RawPlayerInput)>,
    current_editor_input: &mut Option<EditorInput>,
    net_frame: &TransportFrame,
) -> (events: Vec<AudioEvent>)
    requires
        old(mgr).session matches Some(s) && s.0.wf() && ((s.0 is Local)
            ==> s.0.core_of().world@.tick < u64::MAX) && ((s.0 is Networked) ==> (
        *net_frame matches TransportFrame::Authorized { steps }
            ==> s.0.core_of().world@.tick + steps <= u64::MAX)),
        old(mgr).core_meta.players@.len() >= 2,
        forall|i: int| 0 <= i < collectors@.len() ==> (#[trigger] collectors@[i]).0 < MAX_PLAYERS,
    ensures
        old(mgr).session matches Some(s) ==> {
            let w_frame = frame_world_spec(
                s.0,
                old(mgr).core_meta.players@,
                collectors@,
                *old(current_editor_input),
                *net_frame,
            );
            &&& *final(current_editor_input) == if s.0 is Local {
                None
            } else {
                *old(current_editor_input)
            }
            &&& if s.0 is Networked && *net_frame is Disconnected {
                &&& final(mgr).session is None
                &&& final(mgr).menu_camera_active == true
                &&& final(mgr).menu_page == MenuPage::Home
                &&& final(mgr).engine_state == EngineState::MainMenu
                &&& final(mgr).in_game_state == InGameState::Playing
                &&& final(mgr).core_meta == old(mgr).core_meta
                &&& events@ == Seq::<AudioEvent>::empty()
            } else {
                &&& final(mgr).session matches Some(s2)
                &&& s2.0 == s.0.with_core(s2.0.core_of())
                &&& s2.0.core_of().info == s.0.core_of().info
                &&& s2.0.core_of().stages == s.0.core_of().stages
                &&& s2.0.core_of().world@ == w_frame.with_audio(Seq::empty())
                &&& events@ == w_frame.audio_events
                &&& s2.0.wf()
                &&& final(mgr).menu_camera_active == old(mgr).menu_camera_active
                &&& final(mgr).menu_page == old(mgr).menu_page
                &&& final(mgr).engine_state == old(mgr).engine_state
                &&& final(mgr).in_game_state == old(mgr).in_game_state
                &&& final(mgr).core_meta == old(mgr).core_meta
            }
        },
{
    match &mut mgr.session {
        Some(s) => {
            ensure_2_players(s, &mgr.core_meta);
            collect_local_input(s, collectors, current_editor_input);
        },
        None => {},
    }
    update_game(mgr, net_frame);
    let events = match &mut mgr.session {
        Some(s) => play_sounds(s),
        None => Vec::new(),
    };
    events
}

impl SessionManager {
    /// Start a local game session: a fresh simulation behind a local runner
    /// with no time debt, and the menu camera switched off.
    pub fn start_local(&mut self, info: CoreSessionInfo)
        ensures
            final(self).session matches Some(s) && (s.0 matches SessionRunner::Local(l)
                && l.core.info == info && l.core.stages@ == crate::core_session::default_stages()
                && l.core.world@ == crate::world::initial_world(info.spawner_meta@)
                && l.accumulator_micros == 0 && l.loop_start_micros is None && l.overrun_count == 0
                && s.0.wf()),
            final(self).menu_camera_active == false,
            final(self).menu_page == old(self).menu_page,
            final(self).engine_state == old(self).engine_state,
            final(self).in_game_state == old(self).in_game_state,
            final(self).core_meta == old(self).core_meta,
    {
        let core = crate::core_session::CoreSession::new(info);
        self.session = Some(Session(SessionRunner::Local(LocalSessionRunner::new(core))));
        self.menu_camera_active = false;
    }

    /// Start a network game session: a fresh simulation behind a networked
    /// runner bound to the transport-assigned local slot, the menu camera
    /// switched off, and the engine forced into the playing state.
    pub fn start_network(&mut self, core_info: CoreSessionInfo, net_info: NetworkRunnerInfo)
        requires
            net_info.local_player_idx < MAX_PLAYERS,
        ensures
            final(self).session matches Some(s) && (s.0 matches SessionRunner::Networked(n)
                && n.core.info == core_info && n.core.stages@
                == crate::core_session::default_stages() && n.core.world@
                == crate::world::initial_world(core_info.spawner_meta@) && n.local_player_idx
                == net_info.local_player_idx && s.0.wf()),
            final(self).menu_camera_active == false,
            final(self).engine_state == EngineState::InGame,
            final(self).in_game_state == InGameState::Playing,
            final(self).menu_page == old(self).menu_page,
            final(self).core_meta == old(self).core_meta,
    {
        let core = crate::core_session::CoreSession::new(core_info);
        self.session = Some(
            Session(
                SessionRunner::Networked(
                    NetworkedSessionRunner {
                        core,
                        local_player_idx: net_info.local_player_idx,
                    },
                ),
            ),
        );
        self.menu_camera_active = false;
        self.in_game_state = InGameState::Playing;
        self.engine_state = EngineState::InGame;
    }

    /// Restart the in-progress session without changing any settings: the
    /// same runner stays in place — its variant, timing state and network
    /// slot untouched — while its simulation is reset to the initial
    /// configured state.  Without a session this does nothing.
    pub fn restart(&mut self)
        ensures
            old(self).session is None ==> *final(self) == *old(self),
            old(self).session matches Some(s) ==> (final(self).session matches Some(s2)
                && s2.0 == s.0.with_core(s2.0.core_of()) && s2.0.core_of().world@
                == crate::world::initial_world(s.0.core_of().info.spawner_meta@)
                && s2.0.core_of().info == s.0.core_of().info && s2.0.core_of().stages
                == s.0.core_of().stages && (s.0.wf() ==> s2.0.wf())),
            final(self).menu_camera_active == old(self).menu_camera_active,
            final(self).menu_page == old(self).menu_page,
            final(self).engine_state == old(self).engine_state,
            final(self).in_game_state == old(self).in_game_state,
            final(self).core_meta == old(self).core_meta,
    {
        match &mut self.session {
            Some(s) => s.0.restart(),
            None => {},
        }
    }

    /// Stop the in-progress session, if any, and reactivate the menu camera
    /// unconditionally.
    pub fn stop(&mut self)
        ensures
            final(self).session is None,
            final(self).menu_camera_active == true,
            final(self).menu_page == old(self).menu_page,
            final(self).engine_state == old(self).engine_state,
            final(self).in_game_state == old(self).in_game_state,
            final(self).core_meta == old(self).core_meta,
    {
        self.session = None;
        self.menu_camera_active = true;
    }
}

} // verus!
