use roids::level::{
    init_level, CurrentLevelIndex, LevelData, Levels, SpawnType, SpawnerAction, WaveData,
    WaveSpawner,
};
use roids::roid::{destroy_roid, spawn_roids, Roid, RoidSize, ROID_FRAGMENTS};

fn wave(t: SpawnType, cycles: u32, must: Option<bool>) -> WaveData {
    WaveData { must_complete: must, wave_type: t, cycles, wave_size: 4 }
}

fn levels() -> Levels {
    Levels(vec![
        LevelData { name: "one".to_string(), waves: vec![wave(SpawnType::Roid, 2, Some(true))] },
        LevelData {
            name: "two".to_string(),
            waves: vec![wave(SpawnType::Ufo, 1, None), wave(SpawnType::Missile, 3, Some(false))],
        },
    ])
}

#[test]
fn levels_come_round_in_order() {
    let ls = levels();
    let mut index = CurrentLevelIndex::new_game();
    let mut slots = Vec::new();
    for _ in 0..5 {
        slots.push(init_level(&index, &ls).slot);
        index.level_end();
    }
    assert_eq!(slots, vec![0, 1, 0, 1, 0]);
    assert_eq!(index, CurrentLevelIndex(5));
}

#[test]
fn one_spawner_per_wave() {
    let s = init_level(&CurrentLevelIndex(1), &levels());
    assert_eq!(s.slot, 1);
    assert_eq!(
        s.spawners,
        vec![
            WaveSpawner {
                spawn_type: SpawnType::Ufo,
                wave_count: 1,
                wave_data: wave(SpawnType::Ufo, 1, None),
            },
            WaveSpawner {
                spawn_type: SpawnType::Missile,
                wave_count: 3,
                wave_data: wave(SpawnType::Missile, 3, Some(false)),
            },
        ]
    );
}

#[test]
fn only_waves_that_must_complete_are_targets() {
    assert!(wave(SpawnType::Roid, 1, Some(true)).is_level_target());
    assert!(!wave(SpawnType::Roid, 1, Some(false)).is_level_target());
    assert!(!wave(SpawnType::Roid, 1, None).is_level_target());
}

#[test]
fn spawner_spawns_each_cycle_then_goes() {
    let mut s = WaveSpawner {
        spawn_type: SpawnType::Roid,
        wave_count: 3,
        wave_data: wave(SpawnType::Roid, 3, None),
    };
    assert_eq!(s.update_spawner(false, false), SpawnerAction::Wait);
    assert_eq!(s.wave_count, 3);
    assert_eq!(s.update_spawner(true, false), SpawnerAction::Spawn);
    assert_eq!(s.update_spawner(false, false), SpawnerAction::Wait);
    assert_eq!(s.update_spawner(false, true), SpawnerAction::Spawn);
    assert_eq!(s.update_spawner(true, true), SpawnerAction::SpawnLast);
    assert_eq!(s.wave_count, 0);
}

#[test]
fn destroying_roids() {
    let d = destroy_roid(&Roid(RoidSize::Large));
    assert_eq!(d.score.score, 50);
    assert_eq!(d.fragments, vec![Roid(RoidSize::Medium), Roid(RoidSize::Medium)]);
    let d = destroy_roid(&Roid(RoidSize::Medium));
    assert_eq!(d.score.score, 20);
    assert_eq!(d.fragments, vec![Roid(RoidSize::Small), Roid(RoidSize::Small)]);
    let d = destroy_roid(&Roid(RoidSize::Small));
    assert_eq!(d.score.score, 10);
    assert!(d.fragments.is_empty());
    assert_eq!(ROID_FRAGMENTS, 2);
    assert_eq!(RoidSize::default(), RoidSize::Large);
}

#[test]
fn clearing_a_large_roid_scores_130_over_seven_roids() {
    let mut pending = vec![Roid(RoidSize::Large)];
    let mut total = 0u32;
    let mut count = 0;
    while let Some(r) = pending.pop() {
        let d = destroy_roid(&r);
        total += d.score.score;
        count += 1;
        pending.extend(d.fragments);
    }
    assert_eq!(total, 130);
    assert_eq!(count, 7);
}

#[test]
fn every_roid_spawn_is_a_large_roid() {
    assert_eq!(spawn_roids(SpawnType::Roid), Some(Roid(RoidSize::Large)));
    assert_eq!(spawn_roids(SpawnType::RoidMedium), Some(Roid(RoidSize::Large)));
    assert_eq!(spawn_roids(SpawnType::RoidSmall), Some(Roid(RoidSize::Large)));
    assert_eq!(spawn_roids(SpawnType::Ufo), None);
    assert_eq!(spawn_roids(SpawnType::Missile), None);
}
