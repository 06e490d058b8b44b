use jumpy_session::particles::{
    EffectPosition, ParticleControllers, ParticleParams, PlayerNodeReport,
};

fn pos(x: i64, y: i64) -> EffectPosition {
    EffectPosition { x, y }
}

#[test]
fn spawn_creates_a_fresh_controller_for_a_new_effect() {
    let mut table = ParticleControllers::new();
    let params = ParticleParams { id: 5 };
    table.spawn_or_update(
        900,
        Some(PlayerNodeReport {
            id: 1,
            effect_position: Some(pos(10, 20)),
        }),
        &params,
    );
    assert_eq!(table.active.len(), 1);
    let (key, entry) = &table.active[0];
    assert_eq!((key.player_id, key.effect_id), (1, 5));
    assert_eq!(entry.handler, 900);
    assert!(!entry.particle.is_emitting_started);
    assert_eq!(entry.particle.particles_emitted, 0);
    assert_eq!(entry.particle.last_position, None);
}

#[test]
fn update_forwards_the_effect_position_to_the_existing_controller() {
    let mut table = ParticleControllers::new();
    let params = ParticleParams { id: 5 };
    let report = |p| {
        Some(PlayerNodeReport {
            id: 1,
            effect_position: p,
        })
    };
    table.spawn_or_update(900, report(Some(pos(10, 20))), &params);
    table.spawn_or_update(900, report(Some(pos(30, 40))), &params);
    assert_eq!(table.active.len(), 1);
    let entry = &table.active[0].1;
    assert!(entry.particle.is_emitting_started);
    assert_eq!(entry.particle.last_position, Some(pos(30, 40)));
    assert!(entry.particle.one_shot);
    // A player without a visible weapon effect leaves the entry alone.
    table.spawn_or_update(900, report(None), &params);
    assert_eq!(table.active[0].1.particle.last_position, Some(pos(30, 40)));
}

#[test]
fn a_missing_player_node_changes_nothing() {
    let mut table = ParticleControllers::new();
    let params = ParticleParams { id: 5 };
    table.spawn_or_update(900, None, &params);
    assert_eq!(table.active.len(), 0);
}

#[test]
fn distinct_players_and_effects_get_distinct_entries() {
    let mut table = ParticleControllers::new();
    let report = |id| {
        Some(PlayerNodeReport {
            id,
            effect_position: Some(pos(0, 0)),
        })
    };
    table.spawn_or_update(900, report(1), &ParticleParams { id: 5 });
    table.spawn_or_update(900, report(1), &ParticleParams { id: 6 });
    table.spawn_or_update(901, report(2), &ParticleParams { id: 5 });
    assert_eq!(table.active.len(), 3);
}

#[test]
fn network_update_drops_controllers_whose_owner_is_gone() {
    let mut table = ParticleControllers::new();
    let report = |id| {
        Some(PlayerNodeReport {
            id,
            effect_position: Some(pos(0, 0)),
        })
    };
    table.spawn_or_update(900, report(1), &ParticleParams { id: 5 });
    table.spawn_or_update(901, report(2), &ParticleParams { id: 5 });
    table.spawn_or_update(902, report(3), &ParticleParams { id: 5 });
    // Player 2's node is gone; player 1 and 3 still show effects.
    let reports = vec![Some(pos(1, 1)), None, Some(pos(3, 3))];
    table.network_update(&reports);
    assert_eq!(table.active.len(), 2);
    assert_eq!(table.active[0].0.player_id, 1);
    assert_eq!(table.active[0].1.particle.last_position, Some(pos(1, 1)));
    assert!(!table.active[0].1.particle.one_shot);
    assert_eq!(table.active[1].0.player_id, 3);
    assert_eq!(table.active[1].1.particle.last_position, Some(pos(3, 3)));
}
