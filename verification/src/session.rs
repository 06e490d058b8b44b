//! Session runners: how the simulation is advanced each real frame.
//!
//! A [`Session`] owns one [`SessionRunner`], which owns one
//! [`crate::core_session::CoreSession`] and decides whether, and how many
//! times, the simulation steps during a real frame.  The
//! [`LocalSessionRunner`] follows the fixed-step accumulator policy whose
//! mathematical model lives in [`crate::sched`]; the
//! [`NetworkedSessionRunner`] lets an external lockstep transport dictate the
//! cadence and reports a mid-game disconnection as
//! [`SessionError::Disconnected`].

use vstd::prelude::*;

use crate::core_session::{core_step_spec, CoreSession, StagesModel};
use crate::input::{EditorInput, PlayerControl, PlayerInput, MAX_PLAYERS};
use crate::sched::{sched_decision, sched_next, SchedulerState};
use crate::world::{AudioEvent, WorldModel};

verus! {

/// The fixed logical rate of the simulation, in steps per second.
pub const FPS: u64 = 60;

/// The duration of one logical step, in microseconds.
pub const STEP_MICROS: u64 = 1_000_000 / FPS;

/// Whether the simulation should advance right now.
///
/// `YesAndCheckAgain` asks the driver to run one step and immediately ask
/// again, which is how a local session catches up after a slow frame.
#[derive(Clone, Copy, Debug, Eq, PartialEq, Structural)]
pub enum ShouldRun {
    Yes,
    No,
    YesAndCheckAgain,
}

/// The errors a session runner can surface from `advance`.
#[derive(Clone, Copy, Debug, Eq, PartialEq, Structural)]
pub enum SessionError {
    /// The networked transport reported the peer connection as lost.
    Disconnected,
}

/// What the external lockstep transport reports for one real frame.
///
/// The transport itself lives in the host application; each frame it either
/// authorizes a number of logical steps (possibly zero, to absorb jitter and
/// rollback) or reports that the connection is irrecoverably lost.
#[derive(Clone, Copy, Debug, Eq, PartialEq, Structural)]
pub enum TransportFrame {
    /// The transport authorizes this many logical steps this frame.
    Authorized { steps: u32 },
    /// The peer connection is irrecoverably lost.
    Disconnected,
}

/// Runs the simulation locally at the fixed step rate, with a catch-up
/// accumulator measured in microseconds.
pub struct LocalSessionRunner {
    /// The owned simulation.
    pub core: CoreSession,
    /// Simulated time not yet paid off by a logical step, in microseconds.
    pub accumulator_micros: u64,
    /// The wall-clock reading at which the current catch-up burst began.
    pub loop_start_micros: Option<u64>,
    /// How many catch-up bursts were aborted for taking longer than one step.
    pub overrun_count: u64,
}

impl LocalSessionRunner {
    /// The scheduler state this runner's timing fields denote.
    pub open spec fn sched(&self) -> SchedulerState {
        SchedulerState {
            accumulator: self.accumulator_micros as int,
            loop_start: match self.loop_start_micros {
                Some(st) => Some(st as int),
                None => None,
            },
        }
    }

    /// Wrap a freshly created simulation in a local runner with no time debt.
    pub fn new(core: CoreSession) -> (r: LocalSessionRunner)
        ensures
            r.core == core,
            r.accumulator_micros == 0,
            r.loop_start_micros is None,
            r.overrun_count == 0,
    {
        LocalSessionRunner { core, accumulator_micros: 0, loop_start_micros: None, overrun_count: 0 }
    }

    /// Decide whether the simulation should step, following the fixed-step
    /// accumulator policy: pay one step of time debt and ask to be called
    /// again while debt remains, but abort the burst (discarding all debt)
    /// when the burst itself has already consumed more wall-clock time than
    /// one step.
    ///
    /// `delta_micros` is the real time elapsed since the previous frame; it
    /// is added to the debt only when no burst is in progress, so the driver
    /// may call this repeatedly within one frame with the same delta.
    /// `now_micros` is a monotonic wall-clock reading supplied by the caller.
    pub fn run_criteria(&mut self, delta_micros: u64, now_micros: u64) -> (r: ShouldRun)
        requires
            old(self).accumulator_micros + delta_micros <= u64::MAX,
        ensures
            r == sched_decision(old(self).sched(), delta_micros as int, now_micros as int),
            final(self).sched() == sched_next(
                old(self).sched(),
                delta_micros as int,
                now_micros as int,
            ),
            final(self).core == old(self).core,
            r == ShouldRun::No || r == ShouldRun::YesAndCheckAgain,
            final(self).overrun_count == if crate::sched::sched_is_abort(
                old(self).sched(),
                delta_micros as int,
                now_micros as int,
            ) && old(self).overrun_count < u64::MAX {
                old(self).overrun_count + 1
            } else {
                old(self).overrun_count as int
            },
    {
        if self.loop_start_micros.is_none() {
            self.accumulator_micros = self.accumulator_micros + delta_micros;
        }
        if self.accumulator_micros >= STEP_MICROS {
            let start: u64 = match self.loop_start_micros {
                Some(st) => st,
                None => {
                    self.loop_start_micros = Some(now_micros);
                    now_micros
                },
            };
            let elapsed: u64 = if now_micros >= start {
                now_micros - start
            } else {
                0
            };
            if elapsed > STEP_MICROS {
                // The catch-up burst itself cannot keep pace: drop the debt
                // and skip this frame instead of spiralling.  The host may
                // surface `overrun_count` as a performance warning.
                self.accumulator_micros = 0;
                self.loop_start_micros = None;
                if self.overrun_count < u64::MAX {
                    self.overrun_count = self.overrun_count + 1;
                }
                ShouldRun::No
            } else {
                self.accumulator_micros = self.accumulator_micros - STEP_MICROS;
                ShouldRun::YesAndCheckAgain
            }
        } else {
            self.loop_start_micros = None;
            ShouldRun::No
        }
    }
}

/// What a networked runner needs to start: the stable input-table slot the
/// external transport assigned to the local participant for this match.
#[derive(Clone, Copy, Debug, PartialEq, Eq, Structural)]
pub struct NetworkRunnerInfo {
    pub local_player_idx: usize,
}

/// Runs the simulation in lockstep with remote peers.  The external
/// transport decides the stepping cadence each frame and reports a lost
/// connection; both arrive here as a plain [`TransportFrame`] value.
pub struct NetworkedSessionRunner {
    /// The owned simulation.
    pub core: CoreSession,
    /// The input-table slot of the local participant, fixed for the match.
    pub local_player_idx: usize,
}

/// The world after `n` whole deterministic steps.
pub open spec fn step_n_spec(w: WorldModel, stages: StagesModel, n: int) -> WorldModel
    decreases n,
{
    if n <= 0 {
        w
    } else {
        core_step_spec(step_n_spec(w, stages, n - 1), stages)
    }
}

/// Repeated stepping preserves well-formedness and advances the tick count
/// by exactly the number of steps.
pub proof fn lemma_step_n_frame(w: WorldModel, stages: StagesModel, n: int)
    requires
        w.wf(),
        0 <= n,
    ensures
        step_n_spec(w, stages, n).wf(),
        step_n_spec(w, stages, n).tick == w.tick + n,
    decreases n,
{
    if n > 0 {
        lemma_step_n_frame(w, stages, n - 1);
        crate::core_session::lemma_core_step_frame(step_n_spec(w, stages, n - 1), stages);
    }
}

impl NetworkedSessionRunner {
    /// Advance the simulation by the number of steps the transport
    /// authorized for this frame.
    pub fn advance_steps(&mut self, steps: u32)
        requires
            old(self).core.world@.wf(),
            old(self).core.world@.tick + steps <= u64::MAX,
        ensures
            final(self).core.world@ == step_n_spec(
                old(self).core.world@,
                old(self).core.stages@,
                steps as int,
            ),
            final(self).core.world@.wf(),
            final(self).core.info == old(self).core.info,
            final(self).core.stages == old(self).core.stages,
            final(self).local_player_idx == old(self).local_player_idx,
    {
        let ghost w0 = self.core.world@;
        let ghost st0 = self.core.stages@;
        let mut k: u32 = 0;
        while k < steps
            invariant
                k <= steps,
                w0.wf(),
                w0.tick + steps <= u64::MAX,
                self.core.world@ == step_n_spec(w0, st0, k as int),
                self.core.world@.wf(),
                self.core.stages@ == st0,
                self.core.info == old(self).core.info,
                self.core.stages == old(self).core.stages,
                self.local_player_idx == old(self).local_player_idx,
            decreases steps - k,
        {
            proof {
                lemma_step_n_frame(w0, st0, k as int);
            }
            self.core.advance();
            k += 1;
        }
    }
}

/// The two execution strategies a session can run under, behind one
/// interface.  Local-only behaviour (the editor override) is reached by
/// matching on the variant.
pub enum SessionRunner {
    Local(LocalSessionRunner),
    Networked(NetworkedSessionRunner),
}

impl SessionRunner {
    /// The simulation this runner owns.
    pub open spec fn core_of(self) -> CoreSession {
        match self {
            SessionRunner::Local(r) => r.core,
            SessionRunner::Networked(r) => r.core,
        }
    }

    /// This runner with its simulation replaced and every other field kept.
    pub open spec fn with_core(self, core: CoreSession) -> SessionRunner {
        match self {
            SessionRunner::Local(r) => SessionRunner::Local(
                LocalSessionRunner {
                    core,
                    accumulator_micros: r.accumulator_micros,
                    loop_start_micros: r.loop_start_micros,
                    overrun_count: r.overrun_count,
                },
            ),
            SessionRunner::Networked(r) => SessionRunner::Networked(
                NetworkedSessionRunner { core, local_player_idx: r.local_player_idx },
            ),
        }
    }

    /// The local participant's authoritative slot: `None` for a local game.
    pub open spec fn net_idx_of(self) -> Option<usize> {
        match self {
            SessionRunner::Local(_) => None,
            SessionRunner::Networked(r) => Some(r.local_player_idx),
        }
    }

    /// The scheduler state of a local runner.
    pub open spec fn local_sched(self) -> SchedulerState {
        match self {
            SessionRunner::Local(r) => r.sched(),
            SessionRunner::Networked(_) => SchedulerState::init(),
        }
    }

    /// The abort counter of a local runner.
    pub open spec fn local_overruns(self) -> int {
        match self {
            SessionRunner::Local(r) => r.overrun_count as int,
            SessionRunner::Networked(_) => 0,
        }
    }

    /// Well-formedness: the owned world is well-formed, and a networked
    /// runner's slot index points into the input table.
    pub open spec fn wf(self) -> bool {
        &&& self.core_of().world@.wf()
        &&& match self {
            SessionRunner::Local(_) => true,
            SessionRunner::Networked(r) => r.local_player_idx < MAX_PLAYERS,
        }
    }

    /// Mutable access to the owned simulation.
    pub fn core_session(&mut self) -> (core: &mut CoreSession)
        ensures
            *core == old(self).core_of(),
            *final(self) == old(self).with_core(*final(core)),
    {
        match self {
            SessionRunner::Local(r) => &mut r.core,
            SessionRunner::Networked(r) => &mut r.core,
        }
    }

    /// Reset the owned simulation to its initial configured state; the
    /// runner itself — its variant, timing state and network slot — stays
    /// exactly as it was.
    pub fn restart(&mut self)
        ensures
            final(self).core_of().world@ == crate::world::initial_world(
                old(self).core_of().info.spawner_meta@,
            ),
            final(self).core_of().info == old(self).core_of().info,
            final(self).core_of().stages == old(self).core_of().stages,
            *final(self) == old(self).with_core(final(self).core_of()),
            old(self).wf() ==> final(self).wf(),
    {
        match self {
            SessionRunner::Local(r) => r.core.restart(),
            SessionRunner::Networked(r) => r.core.restart(),
        }
    }

    /// How many slots the owned input table has.
    pub fn player_count(&self) -> (n: usize)
        ensures
            n == self.core_of().world@.players.len(),
    {
        match self {
            SessionRunner::Local(r) => r.core.world.players.len(),
            SessionRunner::Networked(r) => r.core.world.players.len(),
        }
    }

    /// Read one whole slot of the per-player input table.
    pub fn read_player(&self, player_idx: usize) -> (p: PlayerInput)
        requires
            player_idx < self.core_of().world@.players.len(),
        ensures
            p == self.core_of().world@.players[player_idx as int],
    {
        match self {
            SessionRunner::Local(r) => r.core.world.players[player_idx],
            SessionRunner::Networked(r) => r.core.world.players[player_idx],
        }
    }

    /// Overwrite one whole slot of the per-player input table.
    pub fn write_player(&mut self, player_idx: usize, record: PlayerInput)
        requires
            player_idx < old(self).core_of().world@.players.len(),
        ensures
            final(self).core_of().world@ == old(self).core_of().world@.with_players(
                old(self).core_of().world@.players.update(player_idx as int, record),
            ),
            final(self).core_of().info == old(self).core_of().info,
            final(self).core_of().stages == old(self).core_of().stages,
            *final(self) == old(self).with_core(final(self).core_of()),
    {
        match self {
            SessionRunner::Local(r) => r.core.write_player(player_idx, record),
            SessionRunner::Networked(r) => r.core.write_player(player_idx, record),
        }
    }

    /// Read one slot of the per-player input table.
    pub fn get_player_input(&self, player_idx: usize) -> (c: PlayerControl)
        requires
            player_idx < self.core_of().world@.players.len(),
        ensures
            c == self.core_of().world@.players[player_idx as int].control,
    {
        match self {
            SessionRunner::Local(r) => r.core.get_control(player_idx),
            SessionRunner::Networked(r) => r.core.get_control(player_idx),
        }
    }

    /// Write one slot of the per-player input table.
    pub fn set_player_input(&mut self, player_idx: usize, control: PlayerControl)
        requires
            player_idx < old(self).core_of().world@.players.len(),
        ensures
            final(self).core_of().world@ == old(self).core_of().world@.with_players(
                old(self).core_of().world@.players.update(
                    player_idx as int,
                    PlayerInput {
                        active: old(self).core_of().world@.players[player_idx as int].active,
                        is_ai: old(self).core_of().world@.players[player_idx as int].is_ai,
                        selected_player: old(self).core_of().world@.players[
                            player_idx as int
                        ].selected_player,
                        control,
                        editor_input: old(self).core_of().world@.players[
                            player_idx as int
                        ].editor_input,
                    },
                ),
            ),
            final(self).core_of().info == old(self).core_of().info,
            final(self).core_of().stages == old(self).core_of().stages,
            *final(self) == old(self).with_core(final(self).core_of()),
    {
        match self {
            SessionRunner::Local(r) => r.core.set_control(player_idx, control),
            SessionRunner::Networked(r) => r.core.set_control(player_idx, control),
        }
    }

    /// Attach a pending editor override to slot 0 of the input table.
    pub fn set_editor_input(&mut self, editor: Option<EditorInput>)
        requires
            old(self).core_of().world@.players.len() > 0,
        ensures
            final(self).core_of().world@ == old(self).core_of().world@.with_players(
                old(self).core_of().world@.players.update(
                    0,
                    PlayerInput {
                        active: old(self).core_of().world@.players[0].active,
                        is_ai: old(self).core_of().world@.players[0].is_ai,
                        selected_player: old(self).core_of().world@.players[0].selected_player,
                        control: old(self).core_of().world@.players[0].control,
                        editor_input: editor,
                    },
                ),
            ),
            final(self).core_of().info == old(self).core_of().info,
            final(self).core_of().stages == old(self).core_of().stages,
            *final(self) == old(self).with_core(final(self).core_of()),
    {
        match self {
            SessionRunner::Local(r) => r.core.set_editor_input(editor),
            SessionRunner::Networked(r) => r.core.set_editor_input(editor),
        }
    }

    /// Take every queued audio event out of the owned world, in order.
    pub fn drain_audio_events(&mut self) -> (events: Vec<AudioEvent>)
        ensures
            events@ == old(self).core_of().world@.audio_events,
            final(self).core_of().world@ == old(self).core_of().world@.with_audio(Seq::empty()),
            final(self).core_of().info == old(self).core_of().info,
            final(self).core_of().stages == old(self).core_of().stages,
            *final(self) == old(self).with_core(final(self).core_of()),
    {
        match self {
            SessionRunner::Local(r) => r.core.drain_audio_events(),
            SessionRunner::Networked(r) => r.core.drain_audio_events(),
        }
    }

    /// The local participant's authoritative slot index, present exactly for
    /// a network game.  Local input for UI slot 0 must be written to this
    /// slot instead.
    pub fn network_player_idx(&self) -> (r: Option<usize>)
        ensures
            r == self.net_idx_of(),
    {
        match self {
            SessionRunner::Local(_) => None,
            SessionRunner::Networked(r) => Some(r.local_player_idx),
        }
    }

    /// Decide whether the simulation should step right now.  A local runner
    /// follows the fixed-step accumulator policy; a networked runner always
    /// answers `Yes`, because its cadence is decided inside `advance` by the
    /// transport.
    pub fn run_criteria(&mut self, delta_micros: u64, now_micros: u64) -> (r: ShouldRun)
        requires
            (*old(self)) matches SessionRunner::Local(l) ==> l.accumulator_micros + delta_micros
                <= u64::MAX,
        ensures
            final(self).core_of() == old(self).core_of(),
            final(self).net_idx_of() == old(self).net_idx_of(),
            (*old(self)) is Networked ==> *final(self) == *old(self) && r == ShouldRun::Yes,
            (*old(self)) is Local ==> (*final(self)) is Local && r == sched_decision(
                old(self).local_sched(),
                delta_micros as int,
                now_micros as int,
            ) && final(self).local_sched() == sched_next(
                old(self).local_sched(),
                delta_micros as int,
                now_micros as int,
            ),
            old(self).wf() ==> final(self).wf(),
    {
        match self {
            SessionRunner::Local(r) => r.run_criteria(delta_micros, now_micros),
            SessionRunner::Networked(_) => ShouldRun::Yes,
        }
    }

    /// Advance the simulation for this real frame.
    ///
    /// A local runner performs exactly one deterministic step and never
    /// fails.  A networked runner performs exactly the steps the transport
    /// authorized this frame, and turns the transport's disconnection report
    /// into `Err(SessionError::Disconnected)` without touching the world.
    pub fn advance(&mut self, net_frame: &TransportFrame) -> (r: Result<(), SessionError>)
        requires
            old(self).core_of().world@.wf(),
            (*old(self)) is Local ==> old(self).core_of().world@.tick < u64::MAX,
            (*old(self)) is Networked ==> (*net_frame matches TransportFrame::Authorized { steps }
                ==> old(self).core_of().world@.tick + steps <= u64::MAX),
        ensures
            final(self).core_of().info == old(self).core_of().info,
            final(self).core_of().stages == old(self).core_of().stages,
            *final(self) == old(self).with_core(final(self).core_of()),
            final(self).core_of().world@.wf(),
            (*old(self)) is Local ==> r is Ok && final(self).core_of().world@ == core_step_spec(
                old(self).core_of().world@,
                old(self).core_of().stages@,
            ),
            (*old(self)) is Networked ==> match *net_frame {
                TransportFrame::Authorized { steps } => r is Ok && final(self).core_of().world@
                    == step_n_spec(
                    old(self).core_of().world@,
                    old(self).core_of().stages@,
                    steps as int,
                ),
                TransportFrame::Disconnected => r == Result::<(), SessionError>::Err(
                    SessionError::Disconnected,
                ) && *final(self) == *old(self),
            },
            r is Err <==> (*old(self)) is Networked && *net_frame is Disconnected,
            old(self).wf() ==> final(self).wf(),
    {
        match self {
            SessionRunner::Local(r) => {
                r.core.advance();
                Ok(())
            },
            SessionRunner::Networked(r) => {
                match net_frame {
                    TransportFrame::Authorized { steps } => {
                        r.advance_steps(*steps);
                        Ok(())
                    },
                    TransportFrame::Disconnected => Err(SessionError::Disconnected),
                }
            },
        }
    }
}

/// The in-progress game match: one exclusively owned session runner.
pub struct Session(pub SessionRunner);

/// The stage label under which the per-frame session work runs in the host's
/// schedule.
#[derive(Clone, Copy, Debug, Hash, PartialEq, Eq, Structural)]
pub enum SessionStage {
    /// Update the game session.
    Update,
}

/// The session subsystem as a pluggable unit: the host application wires the
/// per-frame driver ([`crate::manager::update_session`]) into its own frame
/// loop under [`SessionStage::Update`], feeding it the clock, the raw input
/// and the transport report, and performing the audio events it returns.
pub struct JumpySessionPlugin;

} // verus!
