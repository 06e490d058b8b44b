//! Per-player particle-effect controllers.
//!
//! Weapon effects attach a particle controller to a player; the controllers
//! are kept in one table keyed by the pair of player id and effect id.  The
//! scene graph that owns the player nodes lives in the host application, so
//! each pass receives the result of those lookups as plain values: whether
//! the owning node still exists, and where its weapon effect sits.  The
//! table logic — update an existing controller, spawn a missing one, drop
//! controllers whose owner is gone — is what this module verifies.

use vstd::prelude::*;

verus! {

/// A position in the scene, in the host's fixed-point coordinates.
#[derive(Clone, Copy, Debug, PartialEq, Eq, Structural)]
pub struct EffectPosition {
    pub x: i64,
    pub y: i64,
}

/// The configuration of one particle effect.
#[derive(Clone, Copy, Debug, PartialEq, Eq, Structural)]
pub struct ParticleParams {
    /// The effect's identity within its owning player.
    pub id: u64,
}

/// The state of one running particle effect.
///
/// The particle simulation itself is presentation work done by the host;
/// this controller tracks the effect's bookkeeping and the most recent
/// emission request for the host to consume.
#[derive(Clone, Copy, Debug, PartialEq, Eq, Structural)]
pub struct ParticleController {
    pub params: ParticleParams,
    pub timer_ticks: u32,
    pub particles_emitted: u32,
    pub is_emitting_started: bool,
    pub is_waiting_for_reset: bool,
    /// Where the effect was last asked to emit, if it ever was.
    pub last_position: Option<EffectPosition>,
    /// Whether the last emission request was a one-shot burst.
    pub one_shot: bool,
}

impl ParticleController {
    /// A freshly spawned controller for the given effect configuration.
    pub open spec fn fresh_spec(params: ParticleParams) -> ParticleController {
        ParticleController {
            params,
            timer_ticks: 0,
            particles_emitted: 0,
            is_emitting_started: false,
            is_waiting_for_reset: false,
            last_position: None,
            one_shot: false,
        }
    }

    /// This controller after an emission request at `position`.
    pub open spec fn updated_spec(self, position: EffectPosition, one_shot: bool) -> ParticleController {
        ParticleController {
            params: self.params,
            timer_ticks: self.timer_ticks,
            particles_emitted: self.particles_emitted,
            is_emitting_started: true,
            is_waiting_for_reset: self.is_waiting_for_reset,
            last_position: Some(position),
            one_shot,
        }
    }

    /// Record an emission request at `position`.
    pub fn update(&mut self, position: EffectPosition, one_shot: bool)
        ensures
            *final(self) == old(self).updated_spec(position, one_shot),
    {
        self.is_emitting_started = true;
        self.last_position = Some(position);
        self.one_shot = one_shot;
    }
}

/// One particle controller together with the handle of the player node that
/// owns it.
#[derive(Clone, Copy, Debug, PartialEq, Eq, Structural)]
pub struct PlayerParticleController {
    /// The host's handle for the owning player node.
    pub handler: u64,
    pub particle: ParticleController,
}

/// What the host's scene lookup reports about a player node: its identity
/// and, when the player currently shows a weapon effect, where that effect
/// sits.
#[derive(Clone, Copy, Debug, PartialEq, Eq, Structural)]
pub struct PlayerNodeReport {
    pub id: u64,
    pub effect_position: Option<EffectPosition>,
}

/// The key a controller is filed under: the owning player's id and the
/// effect's id.
#[derive(Clone, Copy, Debug, PartialEq, Eq, Structural)]
pub struct EffectKey {
    pub player_id: u64,
    pub effect_id: u64,
}

/// The table of running per-player particle effects.
pub struct ParticleControllers {
    /// The running controllers, each filed under its effect key.
    pub active: Vec<(EffectKey, PlayerParticleController)>,
}

/// Whether some entry of the table carries the given key.
pub open spec fn has_key(entries: Seq<(EffectKey, PlayerParticleController)>, k: EffectKey) -> bool {
    exists|i: int| 0 <= i < entries.len() && (#[trigger] entries[i]).0 == k
}

/// The table after one upkeep pass over the first `n` entries: entries whose
/// owner reported a weapon-effect position are kept with the effect updated
/// there; entries whose owner is gone, or shows no effect, are dropped.
pub open spec fn network_update_upto(
    entries: Seq<(EffectKey, PlayerParticleController)>,
    reports: Seq<Option<EffectPosition>>,
    n: int,
) -> Seq<(EffectKey, PlayerParticleController)>
    decreases n,
{
    if n <= 0 {
        Seq::empty()
    } else {
        let prefix = network_update_upto(entries, reports, n - 1);
        let e = entries[n - 1];
        match reports[n - 1] {
            Some(p) => prefix.push(
                (
                    e.0,
                    PlayerParticleController {
                        handler: e.1.handler,
                        particle: e.1.particle.updated_spec(p, false),
                    },
                ),
            ),
            None => prefix,
        }
    }
}

impl ParticleControllers {
    /// The keys of the table are pairwise distinct.
    pub open spec fn wf(self) -> bool {
        forall|i: int, j: int|
            0 <= i < j < self.active@.len() ==> (#[trigger] self.active@[i]).0 != (
            #[trigger] self.active@[j]).0
    }

    /// An empty table.
    pub fn new() -> (r: ParticleControllers)
        ensures
            r.active@ == Seq::<(EffectKey, PlayerParticleController)>::empty(),
            r.wf(),
    {
        let r = ParticleControllers { active: Vec::new() };
        proof {
            assert(r.active@ =~= Seq::<(EffectKey, PlayerParticleController)>::empty());
        }
        r
    }

    /// File this frame's weapon effect of one player: when the owning node
    /// exists and its controller is already in the table, forward the
    /// effect position to it (if the player shows one); when the node
    /// exists but no controller does, spawn a fresh one; when the node is
    /// gone, change nothing.
    pub fn spawn_or_update(
        &mut self,
        owner: u64,
        player: Option<PlayerNodeReport>,
        params: &ParticleParams,
    )
        requires
            old(self).wf(),
        ensures
            final(self).wf(),
            player is None ==> *final(self) == *old(self),
            player matches Some(report) ==> {
                let k = (EffectKey { player_id: report.id, effect_id: params.id });
                if has_key(old(self).active@, k) {
                    match report.effect_position {
                        Some(p) => exists|i: int|
                            0 <= i < old(self).active@.len() && (#[trigger] old(
                                self,
                            ).active@[i]).0 == k && final(self).active@ == old(
                                self,
                            ).active@.update(
                                i,
                                (
                                    (
                                        k,
                                        PlayerParticleController {
                                            handler: old(self).active@[i].1.handler,
                                            particle: old(
                                                self,
                                            ).active@[i].1.particle.updated_spec(p, true),
                                        },
                                    )
                                ),
                            ),
                        None => *final(self) == *old(self),
                    }
                } else {
                    final(self).active@ == old(self).active@.push(
                        (
                            k,
                            PlayerParticleController {
                                handler: owner,
                                particle: ParticleController::fresh_spec(*params),
                            },
                        ),
                    )
                }
            },
    {
        let report = match player {
            Some(r) => r,
            None => {
                return ;
            },
        };
        let k = EffectKey { player_id: report.id, effect_id: params.id };
        let n = self.active.len();
        let mut found: Option<usize> = None;
        let mut i: usize = 0;
        while i < n && found.is_none()
            invariant
                i <= n,
                n == self.active@.len(),
                *self == *old(self),
                match found {
                    None => forall|t: int| 0 <= t < i ==> (#[trigger] self.active@[t]).0 != k,
                    Some(fi) => fi < n && self.active@[fi as int].0 == k,
                },
            decreases (match found {
                None => 1int,
                Some(_) => 0int,
            }), n - i,
        {
            if self.active[i].0 == k {
                found = Some(i);
            } else {
                i += 1;
            }
        }
        match found {
            Some(fi) => {
                let entry = self.active[fi];
                proof {
                    assert(old(self).active@[fi as int].0 == k);
                    assert(has_key(old(self).active@, k));
                }
                match report.effect_position {
                    Some(p) => {
                        let mut particle = entry.1.particle;
                        particle.update(p, true);
                        self.active[fi] = (
                            entry.0,
                            PlayerParticleController { handler: entry.1.handler, particle },
                        );
                        proof {
                            assert(0 <= (fi as int) && (fi as int) < old(self).active@.len()
                                && old(self).active@[fi as int].0 == k && self.active@ == old(
                                self,
                            ).active@.update(
                                fi as int,
                                (
                                    (
                                        k,
                                        PlayerParticleController {
                                            handler: old(self).active@[fi as int].1.handler,
                                            particle: old(
                                                self,
                                            ).active@[fi as int].1.particle.updated_spec(p, true),
                                        },
                                    )
                                ),
                            ));
                            assert forall|a: int, b: int|
                                0 <= a < b < self.active@.len() implies (
                            #[trigger] self.active@[a]).0 != (#[trigger] self.active@[b]).0 by {
                                assert(self.active@[a].0 == old(self).active@[a].0);
                                assert(self.active@[b].0 == old(self).active@[b].0);
                            }
                        }
                    },
                    None => {},
                }
                return ;
            },
            None => {},
        }
        proof {
            assert(!has_key(old(self).active@, k));
        }
        self.active.push(
            (k, PlayerParticleController { handler: owner, particle: ParticleController::fresh(params) }),
        );
        proof {
            assert forall|a: int, b: int|
                0 <= a < b < self.active@.len() implies (#[trigger] self.active@[a]).0 != (
            #[trigger] self.active@[b]).0 by {
                if b == self.active@.len() - 1 {
                    assert(old(self).active@[a].0 != k);
                } else {
                    assert(self.active@[a].0 == old(self).active@[a].0);
                    assert(self.active@[b].0 == old(self).active@[b].0);
                }
            }
        }
    }

    /// One upkeep pass over the whole table, with `reports[i]` the host's
    /// scene lookup for entry `i`: controllers whose owner still shows a
    /// weapon effect are updated at its position and kept; all others are
    /// removed.
    pub fn network_update(&mut self, reports: &Vec<Option<EffectPosition>>)
        requires
            old(self).wf(),
            reports@.len() == old(self).active@.len(),
        ensures
            final(self).active@ == network_update_upto(
                old(self).active@,
                reports@,
                old(self).active@.len() as int,
            ),
            final(self).wf(),
    {
        let ghost entries0 = self.active@;
        let n = self.active.len();
        let mut kept: Vec<(EffectKey, PlayerParticleController)> = Vec::new();
        let mut i: usize = 0;
        while i < n
            invariant
                i <= n,
                n == self.active@.len(),
                *self == *old(self),
                reports@.len() == n,
                kept@ == network_update_upto(entries0, reports@, i as int),
                entries0 == self.active@,
            decreases n - i,
        {
            let entry = self.active[i];
            match reports[i] {
                Some(p) => {
                    let mut particle = entry.1.particle;
                    particle.update(p, false);
                    kept.push(
                        (entry.0, PlayerParticleController { handler: entry.1.handler, particle }),
                    );
                },
                None => {},
            }
            i += 1;
        }
        self.active = kept;
        proof {
            lemma_network_update_keys(entries0, reports@, n as int);
        }
    }
}

impl ParticleController {
    /// A freshly spawned controller for the given effect configuration.
    pub fn fresh(params: &ParticleParams) -> (r: ParticleController)
        ensures
            r == ParticleController::fresh_spec(*params),
    {
        ParticleController {
            params: *params,
            timer_ticks: 0,
            particles_emitted: 0,
            is_emitting_started: false,
            is_waiting_for_reset: false,
            last_position: None,
            one_shot: false,
        }
    }
}

/// Every key of an upkeep pass's result comes from the corresponding prefix
/// of the old table, and when the old keys were pairwise distinct, so are
/// the result's.
proof fn lemma_network_update_keys(
    entries: Seq<(EffectKey, PlayerParticleController)>,
    reports: Seq<Option<EffectPosition>>,
    n: int,
)
    requires
        0 <= n <= entries.len(),
        reports.len() == entries.len(),
        forall|i: int, j: int|
            0 <= i < j < entries.len() ==> (#[trigger] entries[i]).0 != (#[trigger] entries[j]).0,
    ensures
        forall|j: int|
            0 <= j < network_update_upto(entries, reports, n).len() ==> exists|i: int|
                0 <= i < n && (#[trigger] entries[i]).0 == (#[trigger] network_update_upto(
                    entries,
                    reports,
                    n,
                )[j]).0,
        forall|i: int, j: int|
            0 <= i < j < network_update_upto(entries, reports, n).len() ==> (
            #[trigger] network_update_upto(entries, reports, n)[i]).0 != (
            #[trigger] network_update_upto(entries, reports, n)[j]).0,
    decreases n,
{
    if n > 0 {
        lemma_network_update_keys(entries, reports, n - 1);
        let prefix = network_update_upto(entries, reports, n - 1);
        let res = network_update_upto(entries, reports, n);
        assert forall|j: int| 0 <= j < res.len() implies exists|i: int|
            0 <= i < n && (#[trigger] entries[i]).0 == (#[trigger] res[j]).0 by {
            if j < prefix.len() {
                let i = choose|i: int|
                    0 <= i < n - 1 && (#[trigger] entries[i]).0 == (#[trigger] prefix[j]).0;
                assert(res[j] == prefix[j]);
                assert(0 <= i < n && entries[i].0 == res[j].0);
            } else {
                assert(reports[n - 1] is Some);
                assert(entries[n - 1].0 == res[j].0);
            }
        }
        assert forall|i: int, j: int| 0 <= i < j < res.len() implies (#[trigger] res[i]).0 != (
        #[trigger] res[j]).0 by {
            if j < prefix.len() {
                assert(res[i] == prefix[i] && res[j] == prefix[j]);
            } else {
                assert(reports[n - 1] is Some);
                assert(res[j].0 == entries[n - 1].0);
                assert(res[i] == prefix[i]);
                let t = choose|t: int|
                    0 <= t < n - 1 && (#[trigger] entries[t]).0 == (#[trigger] prefix[i]).0;
                assert(entries[t].0 != entries[n - 1].0);
            }
        }
    }
}

} // verus!

