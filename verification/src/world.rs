//! The simulation's world state, as plain data.
//!
//! [`World`] holds everything one deterministic step reads and writes: the
//! per-player input table, the grenade spawners and grenades, the queues of
//! presentation side effects (audio, camera trauma) and the queue of deferred
//! commands.  [`WorldModel`] is its mathematical view; every system and the
//! step function itself are specified as transformations of that model.

use vstd::prelude::*;

use crate::grenade::{GrenadeMeta, GrenadeSlot, GrenadeSpawner, GrenadeState, LitGrenade};
use crate::input::{PlayerInput, MAX_PLAYERS};

verus! {

/// A presentation side effect emitted by the simulation, consumed exactly
/// once by the driver after the frame's stepping.
#[derive(Clone, Copy, Debug, PartialEq, Eq, Structural)]
pub enum AudioEvent {
    PlaySound { sound: u64, volume: u32 },
}

/// A deferred mutation queued by a system while the grenade list is being
/// walked, applied by the simulation once the stage has finished.
#[derive(Clone, Copy, Debug, PartialEq, Eq, Structural)]
pub enum DeferredCommand {
    /// Turn an idle grenade into a lit one with a fresh fuse.
    LightGrenade { grenade: usize },
    /// Despawn an exploded grenade.
    ExplodeGrenade { grenade: usize },
}

/// The grenade index a deferred command acts on.
pub open spec fn command_target(c: DeferredCommand) -> int {
    match c {
        DeferredCommand::LightGrenade { grenade } => grenade as int,
        DeferredCommand::ExplodeGrenade { grenade } => grenade as int,
    }
}

/// The mutable world one deterministic step works on.
pub struct World {
    pub players: Vec<PlayerInput>,
    pub audio_events: Vec<AudioEvent>,
    /// Camera-shake amounts queued for the presentation layer.
    pub trauma_events: Vec<u32>,
    pub spawners: Vec<GrenadeSpawner>,
    pub grenades: Vec<GrenadeSlot>,
    pub commands: Vec<DeferredCommand>,
    /// How many logical steps this world has taken since its initial state.
    pub tick: u64,
}

/// The mathematical view of a [`World`].
pub ghost struct WorldModel {
    pub players: Seq<PlayerInput>,
    pub audio_events: Seq<AudioEvent>,
    pub trauma_events: Seq<u32>,
    pub spawners: Seq<GrenadeSpawner>,
    pub grenades: Seq<GrenadeSlot>,
    pub commands: Seq<DeferredCommand>,
    pub tick: int,
}

impl View for World {
    type V = WorldModel;

    open spec fn view(&self) -> WorldModel {
        WorldModel {
            players: self.players@,
            audio_events: self.audio_events@,
            trauma_events: self.trauma_events@,
            spawners: self.spawners@,
            grenades: self.grenades@,
            commands: self.commands@,
            tick: self.tick as int,
        }
    }
}

impl WorldModel {
    /// Well-formedness: the input table always has one record per supported
    /// player, every grenade points at an existing spawner, and every queued
    /// command points at an existing grenade.
    pub open spec fn wf(self) -> bool {
        &&& self.players.len() == MAX_PLAYERS
        &&& forall|i: int|
            0 <= i < self.grenades.len() ==> (#[trigger] self.grenades[i]).spawner
                < self.spawners.len()
        &&& forall|i: int|
            0 <= i < self.commands.len() ==> command_target(#[trigger] self.commands[i])
                < self.grenades.len()
    }

    /// This world with another input table.
    pub open spec fn with_players(self, players: Seq<PlayerInput>) -> WorldModel {
        WorldModel {
            players,
            audio_events: self.audio_events,
            trauma_events: self.trauma_events,
            spawners: self.spawners,
            grenades: self.grenades,
            commands: self.commands,
            tick: self.tick,
        }
    }

    /// This world with another spawner list.
    pub open spec fn with_spawners(self, spawners: Seq<GrenadeSpawner>) -> WorldModel {
        WorldModel {
            players: self.players,
            audio_events: self.audio_events,
            trauma_events: self.trauma_events,
            spawners,
            grenades: self.grenades,
            commands: self.commands,
            tick: self.tick,
        }
    }

    /// This world with another grenade list.
    pub open spec fn with_grenades(self, grenades: Seq<GrenadeSlot>) -> WorldModel {
        WorldModel {
            players: self.players,
            audio_events: self.audio_events,
            trauma_events: self.trauma_events,
            spawners: self.spawners,
            grenades,
            commands: self.commands,
            tick: self.tick,
        }
    }

    /// This world with another command queue.
    pub open spec fn with_commands(self, commands: Seq<DeferredCommand>) -> WorldModel {
        WorldModel {
            players: self.players,
            audio_events: self.audio_events,
            trauma_events: self.trauma_events,
            spawners: self.spawners,
            grenades: self.grenades,
            commands,
            tick: self.tick,
        }
    }

    /// This world with another audio queue.
    pub open spec fn with_audio(self, audio_events: Seq<AudioEvent>) -> WorldModel {
        WorldModel {
            players: self.players,
            audio_events,
            trauma_events: self.trauma_events,
            spawners: self.spawners,
            grenades: self.grenades,
            commands: self.commands,
            tick: self.tick,
        }
    }

    /// This world with another tick count.
    pub open spec fn with_tick(self, tick: int) -> WorldModel {
        WorldModel {
            players: self.players,
            audio_events: self.audio_events,
            trauma_events: self.trauma_events,
            spawners: self.spawners,
            grenades: self.grenades,
            commands: self.commands,
            tick,
        }
    }

    /// This world with one more queued audio event.
    pub open spec fn push_audio(self, e: AudioEvent) -> WorldModel {
        self.with_audio(self.audio_events.push(e))
    }

    /// This world with one more queued camera-trauma amount.
    pub open spec fn push_trauma(self, t: u32) -> WorldModel {
        WorldModel {
            players: self.players,
            audio_events: self.audio_events,
            trauma_events: self.trauma_events.push(t),
            spawners: self.spawners,
            grenades: self.grenades,
            commands: self.commands,
            tick: self.tick,
        }
    }

    /// This world with one more queued deferred command.
    pub open spec fn push_command(self, c: DeferredCommand) -> WorldModel {
        self.with_commands(self.commands.push(c))
    }
}

/// The world a freshly configured simulation starts in: one inactive input
/// record per slot, one un-hydrated spawner per metadata entry, everything
/// else empty.
pub open spec fn initial_world(spawner_meta: Seq<Option<GrenadeMeta>>) -> WorldModel {
    WorldModel {
        players: Seq::new(MAX_PLAYERS as nat, |i: int| PlayerInput::initial_spec()),
        audio_events: Seq::empty(),
        trauma_events: Seq::empty(),
        spawners: Seq::new(
            spawner_meta.len(),
            |i: int| GrenadeSpawner { hydrated: false, meta: spawner_meta[i] },
        ),
        grenades: Seq::empty(),
        commands: Seq::empty(),
        tick: 0,
    }
}

/// What one deferred command does to the world.
pub open spec fn apply_command(w: WorldModel, c: DeferredCommand) -> WorldModel {
    match c {
        DeferredCommand::LightGrenade { grenade } => {
            if (grenade as int) < w.grenades.len() {
                let g = w.grenades[grenade as int];
                w.with_grenades(
                    w.grenades.update(
                        grenade as int,
                        GrenadeSlot {
                            alive: g.alive,
                            spawner: g.spawner,
                            state: GrenadeState::Lit(LitGrenade { age_ticks: 0 }),
                            held_by: g.held_by,
                            used: g.used,
                        },
                    ),
                )
            } else {
                w
            }
        },
        DeferredCommand::ExplodeGrenade { grenade } => {
            if (grenade as int) < w.grenades.len() {
                let g = w.grenades[grenade as int];
                w.with_grenades(
                    w.grenades.update(
                        grenade as int,
                        GrenadeSlot {
                            alive: false,
                            spawner: g.spawner,
                            state: g.state,
                            held_by: g.held_by,
                            used: g.used,
                        },
                    ),
                )
            } else {
                w
            }
        },
    }
}

/// The world after the first `n` commands of `cmds` have been applied in order.
pub open spec fn apply_cmds_upto(w: WorldModel, cmds: Seq<DeferredCommand>, n: int) -> WorldModel
    decreases n,
{
    if n <= 0 {
        w
    } else {
        apply_command(apply_cmds_upto(w, cmds, n - 1), cmds[n - 1])
    }
}

/// The world after its whole command queue has been applied and cleared.
pub open spec fn apply_all_commands(w: WorldModel) -> WorldModel {
    apply_cmds_upto(w, w.commands, w.commands.len() as int).with_commands(Seq::empty())
}

/// Applying commands only rewrites grenades in place: every other field, the
/// grenade count, and well-formedness are preserved.
pub proof fn lemma_apply_upto_frame(w: WorldModel, cmds: Seq<DeferredCommand>, n: int)
    requires
        0 <= n <= cmds.len(),
    ensures
        apply_cmds_upto(w, cmds, n).grenades.len() == w.grenades.len(),
        apply_cmds_upto(w, cmds, n).players == w.players,
        apply_cmds_upto(w, cmds, n).audio_events == w.audio_events,
        apply_cmds_upto(w, cmds, n).trauma_events == w.trauma_events,
        apply_cmds_upto(w, cmds, n).spawners == w.spawners,
        apply_cmds_upto(w, cmds, n).commands == w.commands,
        apply_cmds_upto(w, cmds, n).tick == w.tick,
        w.wf() ==> apply_cmds_upto(w, cmds, n).wf(),
    decreases n,
{
    if n > 0 {
        lemma_apply_upto_frame(w, cmds, n - 1);
    }
}

impl World {
    /// Build the initial world for the given spawner metadata.
    pub fn from_spawner_meta(spawner_meta: &Vec<Option<GrenadeMeta>>) -> (w: World)
        ensures
            w@ == initial_world(spawner_meta@),
            w@.wf(),
    {
        let mut players: Vec<PlayerInput> = Vec::new();
        let mut i: usize = 0;
        while i < MAX_PLAYERS
            invariant
                i <= MAX_PLAYERS,
                players@.len() == i,
                forall|j: int| 0 <= j < i ==> players@[j] == PlayerInput::initial_spec(),
            decreases MAX_PLAYERS - i,
        {
            players.push(PlayerInput::initial());
            i += 1;
        }
        let mut spawners: Vec<GrenadeSpawner> = Vec::new();
        let mut k: usize = 0;
        while k < spawner_meta.len()
            invariant
                k <= spawner_meta.len(),
                spawners@.len() == k,
                forall|j: int|
                    0 <= j < k ==> spawners@[j] == (GrenadeSpawner {
                        hydrated: false,
                        meta: spawner_meta@[j],
                    }),
            decreases spawner_meta.len() - k,
        {
            let m = spawner_meta[k];
            spawners.push(GrenadeSpawner { hydrated: false, meta: m });
            k += 1;
        }
        let w = World {
            players,
            audio_events: Vec::new(),
            trauma_events: Vec::new(),
            spawners,
            grenades: Vec::new(),
            commands: Vec::new(),
            tick: 0,
        };
        proof {
            assert(w@.players =~= initial_world(spawner_meta@).players);
            assert(w@.spawners =~= initial_world(spawner_meta@).spawners);
            assert(w@.audio_events =~= initial_world(spawner_meta@).audio_events);
            assert(w@.trauma_events =~= initial_world(spawner_meta@).trauma_events);
            assert(w@.grenades =~= initial_world(spawner_meta@).grenades);
            assert(w@.commands =~= initial_world(spawner_meta@).commands);
        }
        w
    }

    /// Apply and clear the queue of deferred commands, in order.
    pub fn apply_pending_commands(&mut self)
        requires
            old(self)@.wf(),
        ensures
            final(self)@ == apply_all_commands(old(self)@),
            final(self)@.wf(),
    {
        let ghost w0 = self@;
        let n = self.commands.len();
        let mut i: usize = 0;
        while i < n
            invariant
                i <= n,
                n == w0.commands.len(),
                w0.wf(),
                self@ == apply_cmds_upto(w0, w0.commands, i as int),
            decreases n - i,
        {
            proof {
                lemma_apply_upto_frame(w0, w0.commands, i as int);
            }
            let cmd = self.commands[i];
            match cmd {
                DeferredCommand::LightGrenade { grenade } => {
                    if grenade < self.grenades.len() {
                        let g = self.grenades[grenade];
                        self.grenades[grenade] = GrenadeSlot {
                            alive: g.alive,
                            spawner: g.spawner,
                            state: GrenadeState::Lit(LitGrenade { age_ticks: 0 }),
                            held_by: g.held_by,
                            used: g.used,
                        };
                    }
                },
                DeferredCommand::ExplodeGrenade { grenade } => {
                    if grenade < self.grenades.len() {
                        let g = self.grenades[grenade];
                        self.grenades[grenade] = GrenadeSlot {
                            alive: false,
                            spawner: g.spawner,
                            state: g.state,
                            held_by: g.held_by,
                            used: g.used,
                        };
                    }
                },
            }
            i += 1;
        }
        self.commands.clear();
        proof {
            lemma_apply_upto_frame(w0, w0.commands, n as int);
        }
    }
}

} // verus!
