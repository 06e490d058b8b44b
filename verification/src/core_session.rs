//! The deterministic simulation core.
//!
//! A [`CoreSession`] owns one [`World`], the configuration it was created
//! from (kept so [`CoreSession::restart`] can rebuild the initial state), and
//! the staged list of systems one logical step runs.  [`CoreSession::advance`]
//! performs exactly one deterministic step: every system of every stage in
//! order, then the queued deferred commands, then the tick count.

use vstd::prelude::*;

use crate::grenade::{
    hydrate, hydrate_spec, idle_spec, lit_spec, update_idle_grenades, update_lit_grenades,
    GrenadeMeta,
};
use crate::input::{EditorInput, PlayerControl, PlayerInput};
use crate::world::{apply_all_commands, initial_world, AudioEvent, World, WorldModel};

verus! {

/// The three phases of one logical step, run in declaration order.
#[derive(Clone, Copy, Debug, PartialEq, Eq, Structural)]
pub enum CoreStage {
    PreUpdate,
    Update,
    PostUpdate,
}

/// A system the simulation can run during a step.
#[derive(Clone, Copy, Debug, PartialEq, Eq, Structural)]
pub enum SystemId {
    GrenadeHydrate,
    GrenadeUpdateIdle,
    GrenadeUpdateLit,
}

/// The systems registered on each stage.
pub struct Stages {
    pub pre_update: Vec<SystemId>,
    pub update: Vec<SystemId>,
    pub post_update: Vec<SystemId>,
}

/// The mathematical view of [`Stages`].
pub ghost struct StagesModel {
    pub pre_update: Seq<SystemId>,
    pub update: Seq<SystemId>,
    pub post_update: Seq<SystemId>,
}

impl View for Stages {
    type V = StagesModel;

    open spec fn view(&self) -> StagesModel {
        StagesModel {
            pre_update: self.pre_update@,
            update: self.update@,
            post_update: self.post_update@,
        }
    }
}

/// The stage lists with nothing registered.
pub open spec fn empty_stages() -> StagesModel {
    StagesModel { pre_update: Seq::empty(), update: Seq::empty(), post_update: Seq::empty() }
}

/// `stages` with `system` appended to the given stage.
pub open spec fn stage_added(stages: StagesModel, stage: CoreStage, system: SystemId) -> StagesModel {
    match stage {
        CoreStage::PreUpdate => StagesModel {
            pre_update: stages.pre_update.push(system),
            update: stages.update,
            post_update: stages.post_update,
        },
        CoreStage::Update => StagesModel {
            pre_update: stages.pre_update,
            update: stages.update.push(system),
            post_update: stages.post_update,
        },
        CoreStage::PostUpdate => StagesModel {
            pre_update: stages.pre_update,
            update: stages.update,
            post_update: stages.post_update.push(system),
        },
    }
}

/// The stages every fresh simulation starts with: grenade hydration before
/// the step's main work, the two grenade update systems after it.
pub open spec fn default_stages() -> StagesModel {
    StagesModel {
        pre_update: seq![SystemId::GrenadeHydrate],
        update: Seq::empty(),
        post_update: seq![SystemId::GrenadeUpdateLit, SystemId::GrenadeUpdateIdle],
    }
}

impl Stages {
    /// Empty stage lists.
    pub fn new() -> (s: Stages)
        ensures
            s@ == empty_stages(),
    {
        let s = Stages { pre_update: Vec::new(), update: Vec::new(), post_update: Vec::new() };
        proof {
            assert(s@.pre_update =~= empty_stages().pre_update);
            assert(s@.update =~= empty_stages().update);
            assert(s@.post_update =~= empty_stages().post_update);
        }
        s
    }

    /// Register one more system at the end of a stage.
    pub fn add_system_to_stage(&mut self, stage: CoreStage, system: SystemId)
        ensures
            final(self)@ == stage_added(old(self)@, stage, system),
    {
        match stage {
            CoreStage::PreUpdate => self.pre_update.push(system),
            CoreStage::Update => self.update.push(system),
            CoreStage::PostUpdate => self.post_update.push(system),
        }
    }
}

/// The configuration a simulation is created from; kept by the session so a
/// restart can rebuild the same initial state.
#[derive(Clone, Debug)]
pub struct CoreSessionInfo {
    /// The grenade spawner metadata of the selected map, one entry per
    /// spawner; `None` while the asset has not loaded yet.
    pub spawner_meta: Vec<Option<GrenadeMeta>>,
}

/// The deterministic simulation: a world, its configuration, and the staged
/// systems one logical step runs.
pub struct CoreSession {
    pub info: CoreSessionInfo,
    pub stages: Stages,
    pub world: World,
}

/// What one system does to the world.
pub open spec fn run_system_spec(w: WorldModel, system: SystemId) -> WorldModel {
    match system {
        SystemId::GrenadeHydrate => hydrate_spec(w),
        SystemId::GrenadeUpdateIdle => idle_spec(w),
        SystemId::GrenadeUpdateLit => lit_spec(w),
    }
}

/// The world after the first `n` systems of a stage have run in order.
pub open spec fn run_systems_upto(w: WorldModel, systems: Seq<SystemId>, n: int) -> WorldModel
    decreases n,
{
    if n <= 0 {
        w
    } else {
        run_system_spec(run_systems_upto(w, systems, n - 1), systems[n - 1])
    }
}

/// The world after a whole stage has run.
pub open spec fn run_stage_spec(w: WorldModel, systems: Seq<SystemId>) -> WorldModel {
    run_systems_upto(w, systems, systems.len() as int)
}

/// One whole deterministic step: the three stages in order, then the queued
/// deferred commands, then the tick count.
pub open spec fn core_step_spec(w: WorldModel, stages: StagesModel) -> WorldModel {
    let w1 = run_stage_spec(w, stages.pre_update);
    let w2 = run_stage_spec(w1, stages.update);
    let w3 = run_stage_spec(w2, stages.post_update);
    apply_all_commands(w3).with_tick(w3.tick + 1)
}

/// Every system preserves well-formedness and the tick count.
pub proof fn lemma_run_system_frame(w: WorldModel, system: SystemId)
    requires
        w.wf(),
    ensures
        run_system_spec(w, system).wf(),
        run_system_spec(w, system).tick == w.tick,
{
    match system {
        SystemId::GrenadeHydrate => crate::grenade::lemma_hydrate_upto_frame(
            w,
            w.spawners.len() as int,
        ),
        SystemId::GrenadeUpdateIdle => crate::grenade::lemma_idle_upto_frame(
            w,
            w.grenades.len() as int,
        ),
        SystemId::GrenadeUpdateLit => crate::grenade::lemma_lit_upto_frame(
            w,
            w.grenades.len() as int,
        ),
    }
}

/// A whole stage preserves well-formedness and the tick count.
pub proof fn lemma_run_systems_upto_frame(w: WorldModel, systems: Seq<SystemId>, n: int)
    requires
        w.wf(),
        0 <= n <= systems.len(),
    ensures
        run_systems_upto(w, systems, n).wf(),
        run_systems_upto(w, systems, n).tick == w.tick,
    decreases n,
{
    if n > 0 {
        lemma_run_systems_upto_frame(w, systems, n - 1);
        lemma_run_system_frame(run_systems_upto(w, systems, n - 1), systems[n - 1]);
    }
}

/// One whole step preserves well-formedness and advances the tick count by
/// exactly one.
pub proof fn lemma_core_step_frame(w: WorldModel, stages: StagesModel)
    requires
        w.wf(),
    ensures
        core_step_spec(w, stages).wf(),
        core_step_spec(w, stages).tick == w.tick + 1,
{
    lemma_run_systems_upto_frame(w, stages.pre_update, stages.pre_update.len() as int);
    let w1 = run_stage_spec(w, stages.pre_update);
    lemma_run_systems_upto_frame(w1, stages.update, stages.update.len() as int);
    let w2 = run_stage_spec(w1, stages.update);
    lemma_run_systems_upto_frame(w2, stages.post_update, stages.post_update.len() as int);
    let w3 = run_stage_spec(w2, stages.post_update);
    crate::world::lemma_apply_upto_frame(w3, w3.commands, w3.commands.len() as int);
}

/// Run a whole stage on the world.
pub fn run_stage(world: &mut World, systems: &Vec<SystemId>)
    requires
        old(world)@.wf(),
    ensures
        final(world)@ == run_stage_spec(old(world)@, systems@),
        final(world)@.wf(),
        final(world)@.tick == old(world)@.tick,
{
    let ghost w0 = world@;
    let n = systems.len();
    let mut i: usize = 0;
    while i < n
        invariant
            i <= n,
            n == systems@.len(),
            w0.wf(),
            world@ == run_systems_upto(w0, systems@, i as int),
            world@.wf(),
        decreases n - i,
    {
        match systems[i] {
            SystemId::GrenadeHydrate => hydrate(world),
            SystemId::GrenadeUpdateIdle => update_idle_grenades(world),
            SystemId::GrenadeUpdateLit => update_lit_grenades(world),
        }
        i += 1;
    }
    proof {
        lemma_run_systems_upto_frame(w0, systems@, n as int);
    }
}

impl CoreSession {
    /// Create a simulation from its configuration, with the default stages
    /// installed and the world in its initial state.
    pub fn new(info: CoreSessionInfo) -> (s: CoreSession)
        ensures
            s.info == info,
            s.stages@ == default_stages(),
            s.world@ == initial_world(info.spawner_meta@),
            s.world@.wf(),
    {
        let world = World::from_spawner_meta(&info.spawner_meta);
        let mut s = CoreSession { info, stages: Stages::new(), world };
        crate::grenade::install(&mut s);
        proof {
            assert(s.stages@.pre_update =~= default_stages().pre_update);
            assert(s.stages@.update =~= default_stages().update);
            assert(s.stages@.post_update =~= default_stages().post_update);
        }
        s
    }

    /// Reset the world to its initial configured state, keeping the
    /// configuration and the registered stages.
    pub fn restart(&mut self)
        ensures
            final(self).world@ == initial_world(old(self).info.spawner_meta@),
            final(self).world@.wf(),
            final(self).info == old(self).info,
            final(self).stages == old(self).stages,
    {
        let world = World::from_spawner_meta(&self.info.spawner_meta);
        self.world = world;
    }

    /// Advance the simulation by exactly one deterministic step.
    pub fn advance(&mut self)
        requires
            old(self).world@.wf(),
            old(self).world@.tick < u64::MAX,
        ensures
            final(self).world@ == core_step_spec(old(self).world@, old(self).stages@),
            final(self).world@.wf(),
            final(self).info == old(self).info,
            final(self).stages == old(self).stages,
    {
        run_stage(&mut self.world, &self.stages.pre_update);
        run_stage(&mut self.world, &self.stages.update);
        run_stage(&mut self.world, &self.stages.post_update);
        let ghost w3 = self.world@;
        self.world.apply_pending_commands();
        proof {
            crate::world::lemma_apply_upto_frame(w3, w3.commands, w3.commands.len() as int);
        }
        self.world.tick = self.world.tick + 1;
    }

    /// Read one slot's control record from the input table.
    pub fn get_control(&self, player_idx: usize) -> (c: PlayerControl)
        requires
            player_idx < self.world@.players.len(),
        ensures
            c == self.world@.players[player_idx as int].control,
    {
        self.world.players[player_idx].control
    }

    /// Write one slot's control record in the input table.
    pub fn set_control(&mut self, player_idx: usize, control: PlayerControl)
        requires
            player_idx < old(self).world@.players.len(),
        ensures
            final(self).world@ == old(self).world@.with_players(
                old(self).world@.players.update(
                    player_idx as int,
                    PlayerInput {
                        active: old(self).world@.players[player_idx as int].active,
                        is_ai: old(self).world@.players[player_idx as int].is_ai,
                        selected_player: old(self).world@.players[
                            player_idx as int
                        ].selected_player,
                        control,
                        editor_input: old(self).world@.players[player_idx as int].editor_input,
                    },
                ),
            ),
            final(self).info == old(self).info,
            final(self).stages == old(self).stages,
    {
        let p = self.world.players[player_idx];
        self.world.players[player_idx] = PlayerInput {
            active: p.active,
            is_ai: p.is_ai,
            selected_player: p.selected_player,
            control,
            editor_input: p.editor_input,
        };
    }

    /// Overwrite one whole record of the input table.
    pub fn write_player(&mut self, player_idx: usize, record: PlayerInput)
        requires
            player_idx < old(self).world@.players.len(),
        ensures
            final(self).world@ == old(self).world@.with_players(
                old(self).world@.players.update(player_idx as int, record),
            ),
            final(self).info == old(self).info,
            final(self).stages == old(self).stages,
    {
        self.world.players[player_idx] = record;
    }

    /// Attach a pending editor override to slot 0 of the input table.
    pub fn set_editor_input(&mut self, editor: Option<EditorInput>)
        requires
            old(self).world@.players.len() > 0,
        ensures
            final(self).world@ == old(self).world@.with_players(
                old(self).world@.players.update(
                    0,
                    PlayerInput {
                        active: old(self).world@.players[0].active,
                        is_ai: old(self).world@.players[0].is_ai,
                        selected_player: old(self).world@.players[0].selected_player,
                        control: old(self).world@.players[0].control,
                        editor_input: editor,
                    },
                ),
            ),
            final(self).info == old(self).info,
            final(self).stages == old(self).stages,
    {
        let p = self.world.players[0];
        self.world.players[0] = PlayerInput {
            active: p.active,
            is_ai: p.is_ai,
            selected_player: p.selected_player,
            control: p.control,
            editor_input: editor,
        };
    }

    /// Take every queued audio event out of the world, in order.
    pub fn drain_audio_events(&mut self) -> (events: Vec<AudioEvent>)
        ensures
            events@ == old(self).world@.audio_events,
            final(self).world@ == old(self).world@.with_audio(Seq::empty()),
            final(self).info == old(self).info,
            final(self).stages == old(self).stages,
    {
        let n = self.world.audio_events.len();
        let mut events: Vec<AudioEvent> = Vec::new();
        let mut i: usize = 0;
        while i < n
            invariant
                i <= n,
                n == self.world.audio_events.len(),
                self == old(self),
                events@ =~= self.world.audio_events@.take(i as int),
            decreases n - i,
        {
            events.push(self.world.audio_events[i]);
            i += 1;
        }
        self.world.audio_events.clear();
        proof {
            assert(events@ =~= old(self).world@.audio_events);
        }
        events
    }
}

} // verus!
