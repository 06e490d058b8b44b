//! The grenade map element: the one gameplay element this simulation ships.
//!
//! A map holds grenade spawners.  [`hydrate`] turns every spawner that has
//! metadata and no live item yet into an idle grenade; [`update_idle_grenades`]
//! lights a held grenade when its player uses it; [`update_lit_grenades`] ages
//! lit grenades and explodes them when their fuse runs out.  State
//! transitions that would alias the grenade list while it is being walked
//! (lighting, exploding) are queued as deferred commands and applied by the
//! simulation after the stage has run.

use vstd::prelude::*;

use crate::core_session::{CoreSession, CoreStage, SystemId};
use crate::world::{AudioEvent, DeferredCommand, World, WorldModel};

verus! {

/// A grenade that is waiting on the map or in a player's hands.
#[derive(Clone, Copy, Debug, PartialEq, Eq, Structural)]
pub struct IdleGrenade;

/// A grenade whose fuse is burning.
#[derive(Clone, Copy, Debug, PartialEq, Eq, Structural)]
pub struct LitGrenade {
    /// How many logical ticks the grenade has been lit.
    pub age_ticks: u32,
}

/// The element metadata a grenade spawner carries, in plain values: fuse
/// length in logical ticks, and the sound handles and volumes to play.
#[derive(Clone, Copy, Debug, PartialEq, Eq, Structural)]
pub struct GrenadeMeta {
    pub fuse_time_ticks: u32,
    pub fuse_sound: u64,
    pub fuse_sound_volume: u32,
    pub explosion_sound: u64,
    pub explosion_volume: u32,
}

/// A map spawner for a grenade element.  Metadata may still be missing while
/// assets load; such a spawner is skipped, never an error.
#[derive(Clone, Copy, Debug, PartialEq, Eq, Structural)]
pub struct GrenadeSpawner {
    /// Whether this spawner currently has a live item on the map.
    pub hydrated: bool,
    pub meta: Option<GrenadeMeta>,
}

/// Which phase of its life a grenade is in.
#[derive(Clone, Copy, Debug, PartialEq, Eq, Structural)]
pub enum GrenadeState {
    Idle(IdleGrenade),
    Lit(LitGrenade),
}

/// One grenade entity.
#[derive(Clone, Copy, Debug, PartialEq, Eq, Structural)]
pub struct GrenadeSlot {
    /// Whether the entity still exists; exploded grenades are dead.
    pub alive: bool,
    /// The index of the spawner this grenade respawns from.
    pub spawner: usize,
    pub state: GrenadeState,
    /// The player slot holding this grenade, when it is in an inventory.
    pub held_by: Option<usize>,
    /// Whether the holding player used the item this frame.
    pub used: bool,
}

/// Register the grenade systems on a simulation's stages, in the order the
/// simulation runs them: hydration before the step's main work, the two
/// update systems after it.
pub fn install(session: &mut CoreSession)
    ensures
        final(session).stages@.pre_update == old(session).stages@.pre_update.push(
            SystemId::GrenadeHydrate,
        ),
        final(session).stages@.update == old(session).stages@.update,
        final(session).stages@.post_update == old(session).stages@.post_update.push(
            SystemId::GrenadeUpdateLit,
        ).push(SystemId::GrenadeUpdateIdle),
        final(session).world == old(session).world,
        final(session).info == old(session).info,
{
    session.stages.add_system_to_stage(CoreStage::PreUpdate, SystemId::GrenadeHydrate);
    session.stages.add_system_to_stage(CoreStage::PostUpdate, SystemId::GrenadeUpdateLit);
    session.stages.add_system_to_stage(CoreStage::PostUpdate, SystemId::GrenadeUpdateIdle);
}

/// What hydration does at spawner `i`: a spawner with metadata and no live
/// item gets marked hydrated, and a fresh idle grenade tied to it is created.
pub open spec fn hydrate_one(w: WorldModel, i: int) -> WorldModel {
    let sp = w.spawners[i];
    if !sp.hydrated && sp.meta is Some {
        w.with_spawners(w.spawners.update(i, GrenadeSpawner { hydrated: true, meta: sp.meta }))
            .with_grenades(
            w.grenades.push(
                GrenadeSlot {
                    alive: true,
                    spawner: i as usize,
                    state: GrenadeState::Idle(IdleGrenade),
                    held_by: None,
                    used: false,
                },
            ),
        )
    } else {
        w
    }
}

/// The world after hydration has processed the first `n` spawners.
pub open spec fn hydrate_upto(w: WorldModel, n: int) -> WorldModel
    decreases n,
{
    if n <= 0 {
        w
    } else {
        hydrate_one(hydrate_upto(w, n - 1), n - 1)
    }
}

/// The world after the hydration system has run.
pub open spec fn hydrate_spec(w: WorldModel) -> WorldModel {
    hydrate_upto(w, w.spawners.len() as int)
}

/// Hydration leaves every field but the spawner flags and the grenade list
/// alone, never touches a spawner it has not reached yet, only appends
/// grenades, and preserves well-formedness.
pub proof fn lemma_hydrate_upto_frame(w: WorldModel, n: int)
    requires
        0 <= n <= w.spawners.len(),
    ensures
        hydrate_upto(w, n).spawners.len() == w.spawners.len(),
        forall|j: int|
            n <= j < w.spawners.len() ==> hydrate_upto(w, n).spawners[j] == w.spawners[j],
        hydrate_upto(w, n).players == w.players,
        hydrate_upto(w, n).audio_events == w.audio_events,
        hydrate_upto(w, n).trauma_events == w.trauma_events,
        hydrate_upto(w, n).commands == w.commands,
        hydrate_upto(w, n).tick == w.tick,
        hydrate_upto(w, n).grenades.len() >= w.grenades.len(),
        forall|j: int| 0 <= j < w.grenades.len() ==> hydrate_upto(w, n).grenades[j] == w.grenades[j],
        w.wf() ==> hydrate_upto(w, n).wf(),
    decreases n,
{
    if n > 0 {
        lemma_hydrate_upto_frame(w, n - 1);
    }
}

/// Run the hydration system.
pub fn hydrate(world: &mut World)
    requires
        old(world)@.wf(),
    ensures
        final(world)@ == hydrate_spec(old(world)@),
        final(world)@.wf(),
{
    let ghost w0 = world@;
    let n = world.spawners.len();
    let mut i: usize = 0;
    while i < n
        invariant
            i <= n,
            n == w0.spawners.len(),
            w0.wf(),
            world@ == hydrate_upto(w0, i as int),
        decreases n - i,
    {
        proof {
            lemma_hydrate_upto_frame(w0, i as int);
        }
        let sp = world.spawners[i];
        if !sp.hydrated && sp.meta.is_some() {
            world.spawners[i] = GrenadeSpawner { hydrated: true, meta: sp.meta };
            world.grenades.push(
                GrenadeSlot {
                    alive: true,
                    spawner: i,
                    state: GrenadeState::Idle(IdleGrenade),
                    held_by: None,
                    used: false,
                },
            );
        }
        i += 1;
    }
    proof {
        lemma_hydrate_upto_frame(w0, n as int);
    }
}

/// What the idle-grenade system does at grenade `i`: a live idle grenade
/// whose spawner has metadata, held by a player who used it, plays its fuse
/// sound, clears the used flag and queues the transition to lit.
pub open spec fn idle_one(w: WorldModel, i: int) -> WorldModel {
    let g = w.grenades[i];
    if g.spawner < w.spawners.len() {
        match w.spawners[g.spawner as int].meta {
            None => w,
            Some(m) => {
                if g.alive && g.state is Idle && g.held_by is Some && g.used {
                    w.push_audio(
                        AudioEvent::PlaySound { sound: m.fuse_sound, volume: m.fuse_sound_volume },
                    ).with_grenades(
                        w.grenades.update(
                            i,
                            GrenadeSlot {
                                alive: g.alive,
                                spawner: g.spawner,
                                state: g.state,
                                held_by: g.held_by,
                                used: false,
                            },
                        ),
                    ).push_command(DeferredCommand::LightGrenade { grenade: i as usize })
                } else {
                    w
                }
            },
        }
    } else {
        w
    }
}

/// The world after the idle-grenade system has processed the first `n` grenades.
pub open spec fn idle_upto(w: WorldModel, n: int) -> WorldModel
    decreases n,
{
    if n <= 0 {
        w
    } else {
        idle_one(idle_upto(w, n - 1), n - 1)
    }
}

/// The world after the idle-grenade system has run.
pub open spec fn idle_spec(w: WorldModel) -> WorldModel {
    idle_upto(w, w.grenades.len() as int)
}

/// The idle-grenade system only touches the grenade it is looking at and the
/// audio and command queues, and preserves well-formedness.
pub proof fn lemma_idle_upto_frame(w: WorldModel, n: int)
    requires
        0 <= n <= w.grenades.len(),
    ensures
        idle_upto(w, n).grenades.len() == w.grenades.len(),
        forall|j: int| n <= j < w.grenades.len() ==> idle_upto(w, n).grenades[j] == w.grenades[j],
        idle_upto(w, n).players == w.players,
        idle_upto(w, n).spawners == w.spawners,
        idle_upto(w, n).trauma_events == w.trauma_events,
        idle_upto(w, n).tick == w.tick,
        w.wf() ==> idle_upto(w, n).wf(),
    decreases n,
{
    if n > 0 {
        lemma_idle_upto_frame(w, n - 1);
    }
}

/// Run the idle-grenade system.
pub fn update_idle_grenades(world: &mut World)
    requires
        old(world)@.wf(),
    ensures
        final(world)@ == idle_spec(old(world)@),
        final(world)@.wf(),
{
    let ghost w0 = world@;
    let n = world.grenades.len();
    let mut i: usize = 0;
    while i < n
        invariant
            i <= n,
            n == w0.grenades.len(),
            w0.wf(),
            world@ == idle_upto(w0, i as int),
        decreases n - i,
    {
        proof {
            lemma_idle_upto_frame(w0, i as int);
        }
        let g = world.grenades[i];
        if g.spawner < world.spawners.len() {
            if let Some(m) = world.spawners[g.spawner].meta {
                let is_idle = match g.state {
                    GrenadeState::Idle(_) => true,
                    GrenadeState::Lit(_) => false,
                };
                if g.alive && is_idle && g.held_by.is_some() && g.used {
                    world.audio_events.push(
                        AudioEvent::PlaySound { sound: m.fuse_sound, volume: m.fuse_sound_volume },
                    );
                    world.grenades[i] = GrenadeSlot {
                        alive: g.alive,
                        spawner: g.spawner,
                        state: g.state,
                        held_by: g.held_by,
                        used: false,
                    };
                    world.commands.push(DeferredCommand::LightGrenade { grenade: i });
                }
            }
        }
        i += 1;
    }
    proof {
        lemma_idle_upto_frame(w0, n as int);
    }
}

/// What the lit-grenade system does at grenade `i`: a live lit grenade whose
/// spawner has metadata ages by one tick; when its age reaches the fuse time
/// it plays the explosion sound, shakes the camera, un-hydrates its spawner
/// (so the item respawns) and queues its own despawn.
pub open spec fn lit_one(w: WorldModel, i: int) -> WorldModel {
    let g = w.grenades[i];
    if g.spawner < w.spawners.len() {
        match w.spawners[g.spawner as int].meta {
            None => w,
            Some(m) => {
                match g.state {
                    GrenadeState::Idle(_) => w,
                    GrenadeState::Lit(lit) => {
                        if g.alive {
                            let new_age: u32 = if lit.age_ticks >= m.fuse_time_ticks {
                                lit.age_ticks
                            } else {
                                (lit.age_ticks + 1) as u32
                            };
                            let w1 = w.with_grenades(
                                w.grenades.update(
                                    i,
                                    GrenadeSlot {
                                        alive: g.alive,
                                        spawner: g.spawner,
                                        state: GrenadeState::Lit(LitGrenade { age_ticks: new_age }),
                                        held_by: g.held_by,
                                        used: g.used,
                                    },
                                ),
                            );
                            if new_age >= m.fuse_time_ticks {
                                w1.push_audio(
                                    AudioEvent::PlaySound {
                                        sound: m.explosion_sound,
                                        volume: m.explosion_volume,
                                    },
                                ).push_trauma(5).with_spawners(
                                    w1.spawners.update(
                                        g.spawner as int,
                                        GrenadeSpawner { hydrated: false, meta: Some(m) },
                                    ),
                                ).push_command(DeferredCommand::ExplodeGrenade { grenade: i as usize })
                            } else {
                                w1
                            }
                        } else {
                            w
                        }
                    },
                }
            },
        }
    } else {
        w
    }
}

/// The world after the lit-grenade system has processed the first `n` grenades.
pub open spec fn lit_upto(w: WorldModel, n: int) -> WorldModel
    decreases n,
{
    if n <= 0 {
        w
    } else {
        lit_one(lit_upto(w, n - 1), n - 1)
    }
}

/// The world after the lit-grenade system has run.
pub open spec fn lit_spec(w: WorldModel) -> WorldModel {
    lit_upto(w, w.grenades.len() as int)
}

/// The lit-grenade system only touches the grenade it is looking at, spawner
/// hydration flags, and the audio, trauma and command queues, and preserves
/// well-formedness.
pub proof fn lemma_lit_upto_frame(w: WorldModel, n: int)
    requires
        0 <= n <= w.grenades.len(),
    ensures
        lit_upto(w, n).grenades.len() == w.grenades.len(),
        forall|j: int| n <= j < w.grenades.len() ==> lit_upto(w, n).grenades[j] == w.grenades[j],
        lit_upto(w, n).players == w.players,
        lit_upto(w, n).spawners.len() == w.spawners.len(),
        lit_upto(w, n).tick == w.tick,
        w.wf() ==> lit_upto(w, n).wf(),
    decreases n,
{
    if n > 0 {
        lemma_lit_upto_frame(w, n - 1);
    }
}

/// Run the lit-grenade system.
pub fn update_lit_grenades(world: &mut World)
    requires
        old(world)@.wf(),
    ensures
        final(world)@ == lit_spec(old(world)@),
        final(world)@.wf(),
{
    let ghost w0 = world@;
    let n = world.grenades.len();
    let mut i: usize = 0;
    while i < n
        invariant
            i <= n,
            n == w0.grenades.len(),
            w0.wf(),
            world@ == lit_upto(w0, i as int),
        decreases n - i,
    {
        proof {
            lemma_lit_upto_frame(w0, i as int);
        }
        let g = world.grenades[i];
        if g.spawner < world.spawners.len() {
            if let Some(m) = world.spawners[g.spawner].meta {
                if let GrenadeState::Lit(lit) = g.state {
                    if g.alive {
                        let new_age: u32 = if lit.age_ticks >= m.fuse_time_ticks {
                            lit.age_ticks
                        } else {
                            lit.age_ticks + 1
                        };
                        world.grenades[i] = GrenadeSlot {
                            alive: g.alive,
                            spawner: g.spawner,
                            state: GrenadeState::Lit(LitGrenade { age_ticks: new_age }),
                            held_by: g.held_by,
                            used: g.used,
                        };
                        if new_age >= m.fuse_time_ticks {
                            world.audio_events.push(
                                AudioEvent::PlaySound {
                                    sound: m.explosion_sound,
                                    volume: m.explosion_volume,
                                },
                            );
                            world.trauma_events.push(5);
                            world.spawners[g.spawner] = GrenadeSpawner {
                                hydrated: false,
                                meta: Some(m),
                            };
                            world.commands.push(DeferredCommand::ExplodeGrenade { grenade: i });
                        }
                    }
                }
            }
        }
        i += 1;
    }
    proof {
        lemma_lit_upto_frame(w0, n as int);
    }
}

} // verus!
