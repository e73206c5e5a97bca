use vstd::prelude::*;

verus! {

/// The groups that the game's per-frame work is sorted into.
#[derive(Clone, Copy, Debug, PartialEq, Eq, Structural)]
pub enum GameSchedule {
    HealthAdjust,
    ReadUserInput,
    PreEntityUpdates,
    EntityUpdates,
    CollisionDetection,
    DespawnEntities,
    PreDespawnEntities,
    PostEntityUpdates,
}

/// The order in which the groups run in each frame's update, while the game
/// is not paused: health first, then removals, then input, then the entity
/// updates.
pub open spec fn spec_update_chain() -> Seq<GameSchedule> {
    seq![
        GameSchedule::HealthAdjust,
        GameSchedule::PreDespawnEntities,
        GameSchedule::DespawnEntities,
        GameSchedule::ReadUserInput,
        GameSchedule::PreEntityUpdates,
        GameSchedule::EntityUpdates,
        GameSchedule::PostEntityUpdates,
    ]
}

/// The order in which the groups run in each frame's update.
pub fn update_chain() -> (c: Vec<GameSchedule>)
    ensures
        c@ == spec_update_chain(),
{
    vec![
        GameSchedule::HealthAdjust,
        GameSchedule::PreDespawnEntities,
        GameSchedule::DespawnEntities,
        GameSchedule::ReadUserInput,
        GameSchedule::PreEntityUpdates,
        GameSchedule::EntityUpdates,
        GameSchedule::PostEntityUpdates,
    ]
}

/// Whether a group runs after the frame's update, once positions are final:
/// collision detection does.
pub fn runs_after_update(set: GameSchedule) -> (b: bool)
    ensures
        b == (set == GameSchedule::CollisionDetection),
{
    match set {
        GameSchedule::CollisionDetection => true,
        _ => false,
    }
}

/// Every group but collision detection runs exactly once in the update
/// chain, and collision detection does not run in it.
pub proof fn law_each_group_runs_once(set: GameSchedule)
    ensures
        set != GameSchedule::CollisionDetection ==> exists|i: int|
            0 <= i < spec_update_chain().len() && spec_update_chain()[i] == set && forall|j: int|
                0 <= j < spec_update_chain().len() && spec_update_chain()[j] == set ==> j == i,
        !spec_update_chain().contains(GameSchedule::CollisionDetection),
{
    let c = spec_update_chain();
    if !c.contains(GameSchedule::CollisionDetection) {
    } else {
        let k = choose|k: int| 0 <= k < c.len() && c[k] == GameSchedule::CollisionDetection;
        assert(c[k] != GameSchedule::CollisionDetection);
    }
    let w = match set {
        GameSchedule::HealthAdjust => 0int,
        GameSchedule::PreDespawnEntities => 1,
        GameSchedule::DespawnEntities => 2,
        GameSchedule::ReadUserInput => 3,
        GameSchedule::PreEntityUpdates => 4,
        GameSchedule::EntityUpdates => 5,
        GameSchedule::PostEntityUpdates => 6,
        GameSchedule::CollisionDetection => 0,
    };
    if set != GameSchedule::CollisionDetection {
        assert(c[w] == set);
    }
}

} // verus!
