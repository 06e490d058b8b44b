use jumpy_session::core_session::{CoreSession, CoreSessionInfo};
use jumpy_session::grenade::{GrenadeMeta, GrenadeState};
use jumpy_session::world::AudioEvent;

fn meta(fuse_ticks: u32) -> GrenadeMeta {
    GrenadeMeta {
        fuse_time_ticks: fuse_ticks,
        fuse_sound: 11,
        fuse_sound_volume: 80,
        explosion_sound: 22,
        explosion_volume: 100,
    }
}

#[test]
fn hydrate_spawns_one_grenade_per_ready_spawner() {
    let info = CoreSessionInfo {
        spawner_meta: vec![Some(meta(5)), None, Some(meta(5))],
    };
    let mut core = CoreSession::new(info);
    assert_eq!(core.world.grenades.len(), 0);
    core.advance();
    // Spawners 0 and 2 have metadata; spawner 1 is still loading.
    assert_eq!(core.world.grenades.len(), 2);
    assert!(core.world.spawners[0].hydrated);
    assert!(!core.world.spawners[1].hydrated);
    assert!(core.world.spawners[2].hydrated);
    assert_eq!(core.world.grenades[0].spawner, 0);
    assert_eq!(core.world.grenades[1].spawner, 2);
    assert!(matches!(core.world.grenades[0].state, GrenadeState::Idle(_)));
    // A second step must not duplicate the grenades.
    core.advance();
    assert_eq!(core.world.grenades.len(), 2);
}

#[test]
fn used_grenade_lights_with_fuse_sound() {
    let info = CoreSessionInfo {
        spawner_meta: vec![Some(meta(3))],
    };
    let mut core = CoreSession::new(info);
    core.advance();
    // A player picks the grenade up and uses it.
    core.world.grenades[0].held_by = Some(0);
    core.world.grenades[0].used = true;
    core.advance();
    assert!(matches!(
        core.world.grenades[0].state,
        GrenadeState::Lit(l) if l.age_ticks == 0
    ));
    assert!(!core.world.grenades[0].used);
    let events = core.drain_audio_events();
    assert_eq!(
        events,
        vec![AudioEvent::PlaySound {
            sound: 11,
            volume: 80
        }]
    );
    // The queue is drained exactly once.
    assert_eq!(core.drain_audio_events(), vec![]);
}

#[test]
fn lit_grenade_explodes_when_the_fuse_runs_out() {
    let info = CoreSessionInfo {
        spawner_meta: vec![Some(meta(2))],
    };
    let mut core = CoreSession::new(info);
    core.advance();
    core.world.grenades[0].held_by = Some(1);
    core.world.grenades[0].used = true;
    core.advance(); // lights the grenade
    core.drain_audio_events();
    core.advance(); // age 1 of 2
    assert!(core.world.grenades[0].alive);
    assert_eq!(core.drain_audio_events(), vec![]);
    core.advance(); // age 2: the fuse runs out
    assert!(!core.world.grenades[0].alive);
    assert!(!core.world.spawners[0].hydrated);
    assert_eq!(
        core.drain_audio_events(),
        vec![AudioEvent::PlaySound {
            sound: 22,
            volume: 100
        }]
    );
    assert_eq!(core.world.trauma_events, vec![5]);
    // The un-hydrated spawner respawns a fresh idle grenade next step.
    core.advance();
    assert_eq!(core.world.grenades.len(), 2);
    assert!(core.world.grenades[1].alive);
    assert!(matches!(core.world.grenades[1].state, GrenadeState::Idle(_)));
}

#[test]
fn restart_rebuilds_the_initial_world() {
    let info = CoreSessionInfo {
        spawner_meta: vec![Some(meta(2))],
    };
    let mut core = CoreSession::new(info);
    core.advance();
    core.advance();
    assert_eq!(core.world.tick, 2);
    assert_eq!(core.world.grenades.len(), 1);
    core.restart();
    assert_eq!(core.world.tick, 0);
    assert_eq!(core.world.grenades.len(), 0);
    assert!(!core.world.spawners[0].hydrated);
}
