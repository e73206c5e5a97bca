use vstd::prelude::*;

verus! {

/// What a wave spawns.
#[derive(Clone, Copy, Debug, PartialEq, Eq, Structural)]
pub enum SpawnType {
    Roid,
    RoidSmall,
    RoidMedium,
    Ufo,
    Missile,
}

/// The part of a wave's description that the level rules read: whether the
/// level waits for it, what it spawns, how many times and how many at once.
/// Its timing, speeds and spawn area are real numbers that the application
/// keeps beside it.
#[derive(Clone, Copy, Debug, PartialEq, Eq, Structural)]
pub struct WaveData {
    pub must_complete: Option<bool>,
    pub wave_type: SpawnType,
    pub cycles: u32,
    pub wave_size: u32,
}

/// The part of a level's description that the level rules read: its name
/// and its waves.
pub struct LevelData {
    pub name: String,
    pub waves: Vec<WaveData>,
}

/// The levels, in play order.
pub struct Levels(pub Vec<LevelData>);

/// The number of levels finished in this game.
#[derive(Clone, Copy, Debug, PartialEq, Eq, Structural)]
pub struct CurrentLevelIndex(pub usize);

/// A wave spawner of a level in play: what it spawns, how many waves are
/// left, and the wave it comes from.
#[derive(Clone, Copy, Debug, PartialEq, Eq, Structural)]
pub struct WaveSpawner {
    pub spawn_type: SpawnType,
    pub wave_count: u32,
    pub wave_data: WaveData,
}

impl WaveData {
    /// Whether the level waits for this wave's spawner to be done.
    pub open spec fn spec_is_level_target(self) -> bool {
        self.must_complete == Some(true)
    }

    /// Whether the level waits for this wave's spawner to be done.
    pub fn is_level_target(&self) -> (b: bool)
        ensures
            b == self.spec_is_level_target(),
    {
        match self.must_complete {
            Some(m) => m,
            None => false,
        }
    }
}

/// The spawner that a wave starts: it spawns the wave's type, `cycles`
/// times.
pub open spec fn spawner_of(w: WaveData) -> WaveSpawner {
    WaveSpawner { spawn_type: w.wave_type, wave_count: w.cycles, wave_data: w }
}

impl CurrentLevelIndex {
    /// A new game starts at the first level.
    pub fn new_game() -> (i: Self)
        ensures
            i.0 == 0,
    {
        CurrentLevelIndex(0)
    }

    /// The end of a level moves on to the next one.
    pub fn level_end(&mut self)
        requires
            old(self).0 < usize::MAX,
        ensures
            final(self).0 == old(self).0 + 1,
    {
        self.0 = self.0 + 1;
    }
}

/// The level played after `index` levels were finished: the levels are played
/// in order, over and over.
pub open spec fn level_slot(index: int, count: int) -> int {
    index % count
}

/// A level being set up: which of the levels it is, and the spawners of its
/// waves, in the order of the waves.
pub struct LevelStart {
    pub slot: usize,
    pub spawners: Vec<WaveSpawner>,
}

/// Sets up the level for `index`: picks it among the levels, and starts one
/// spawner per wave.
pub fn init_level(index: &CurrentLevelIndex, levels: &Levels) -> (s: LevelStart)
    requires
        levels.0@.len() > 0,
    ensures
        s.slot == level_slot(index.0 as int, levels.0@.len() as int),
        s.spawners@.len() == levels.0@[s.slot as int].waves@.len(),
        forall|i: int|
            0 <= i < s.spawners@.len() ==> #[trigger] s.spawners@[i] == spawner_of(
                levels.0@[s.slot as int].waves@[i],
            ),
{
    let slot = index.0 % levels.0.len();
    let waves = &levels.0[slot].waves;
    let mut spawners: Vec<WaveSpawner> = Vec::new();
    let mut i: usize = 0;
    while i < waves.len()
        invariant
            i <= waves@.len(),
            spawners@.len() == i,
            forall|j: int| 0 <= j < i ==> #[trigger] spawners@[j] == spawner_of(waves@[j]),
        decreases waves@.len() - i,
    {
        let w = waves[i];
        spawners.push(WaveSpawner { spawn_type: w.wave_type, wave_count: w.cycles, wave_data: w });
        i = i + 1;
    }
    LevelStart { slot, spawners }
}

/// What a wave spawner does in a frame.
#[derive(Clone, Copy, Debug, PartialEq, Eq, Structural)]
pub enum SpawnerAction {
    /// Nothing yet.
    Wait,
    /// Spawn a wave.
    Spawn,
    /// Spawn the last wave and remove the spawner.
    SpawnLast,
}

/// A wave going off: one wave fewer is left, and the wave is the last one
/// when none is left after it.
pub open spec fn fire(s: WaveSpawner) -> (WaveSpawner, SpawnerAction) {
    let next = WaveSpawner { wave_count: (s.wave_count - 1) as u32, ..s };
    (next, if next.wave_count == 0 {
        SpawnerAction::SpawnLast
    } else {
        SpawnerAction::Spawn
    })
}

impl WaveSpawner {
    /// Called once the spawner's start timer has run out: a wave goes when
    /// the start timer has just run out or the cycle timer has just fired,
    /// and the spawner is removed after its last wave.
    pub fn update_spawner(&mut self, start_just_finished: bool, cycle_just_finished: bool) -> (a:
        SpawnerAction)
        requires
            start_just_finished || cycle_just_finished ==> old(self).wave_count > 0,
        ensures
            !(start_just_finished || cycle_just_finished) ==> a == SpawnerAction::Wait
                && *final(self) == *old(self),
            start_just_finished || cycle_just_finished ==> (*final(self), a) == fire(*old(self)),
    {
        if !(start_just_finished || cycle_just_finished) {
            return SpawnerAction::Wait;
        }
        self.wave_count = self.wave_count - 1;
        if self.wave_count == 0 {
            SpawnerAction::SpawnLast
        } else {
            SpawnerAction::Spawn
        }
    }
}

/// A spawner after `k` waves have gone off.
pub open spec fn fired(s: WaveSpawner, k: nat) -> WaveSpawner
    decreases k,
{
    if k == 0 {
        s
    } else {
        fire(fired(s, (k - 1) as nat)).0
    }
}

proof fn lemma_fired_count(s: WaveSpawner, k: nat)
    requires
        k <= s.wave_count,
    ensures
        fired(s, k).wave_count == s.wave_count - k,
    decreases k,
{
    if k > 0 {
        lemma_fired_count(s, (k - 1) as nat);
    }
}

/// A wave spawner spawns exactly as many waves as its wave has cycles: over
/// successive firings of `update_spawner` on the spawner a wave starts, each
/// of the first `cycles` firings is allowed (a wave is left), and the `k`-th
/// firing answers `SpawnLast`, removing the spawner, exactly when `k` is the
/// number of cycles.
pub proof fn law_spawner_spawns_every_cycle(w: WaveData, k: nat)
    requires
        1 <= k <= w.cycles,
    ensures
        fired(spawner_of(w), (k - 1) as nat).wave_count > 0,
        (fire(fired(spawner_of(w), (k - 1) as nat)).1 == SpawnerAction::SpawnLast) <==> k
            == w.cycles,
{
    lemma_fired_count(spawner_of(w), (k - 1) as nat);
}

/// The levels come round in order: each finished level leads to the next
/// one, and after the last one the first comes again.
pub proof fn law_levels_cycle(index: nat, count: nat)
    requires
        count > 0,
    ensures
        0 <= level_slot(index as int, count as int) < count,
        level_slot(index + 1int, count as int) == (level_slot(index as int, count as int) + 1) % (
        count as int),
        level_slot(0, count as int) == 0,
{
    vstd::arithmetic::div_mod::lemma_add_mod_noop(index as int, 1, count as int);
    vstd::arithmetic::div_mod::lemma_mod_bound(index as int, count as int);
    if count == 1 {
        vstd::arithmetic::div_mod::lemma_mod_self_0(1);
    } else {
        vstd::arithmetic::div_mod::lemma_small_mod(1, count);
    }
}

} // verus!
