use vstd::prelude::*;
use crate::level::SpawnType;
use crate::player::ScoreMessage;

verus! {

/// The three sizes of asteroid.
#[derive(Clone, Copy, Debug, PartialEq, Eq, Structural)]
pub enum RoidSize {
    Large,
    Medium,
    Small,
}

impl Default for RoidSize {
    fn default() -> (s: Self)
        ensures
            s == RoidSize::Large,
    {
        RoidSize::Large
    }
}

/// An asteroid, by size.
#[derive(Clone, Copy, Debug, PartialEq, Eq, Structural)]
pub struct Roid(pub RoidSize);

/// The number of fragments a destroyed asteroid breaks into, unless it is
/// small.
pub const ROID_FRAGMENTS: usize = 2;

/// The points for destroying an asteroid: the smaller, the fewer.
pub open spec fn roid_points(size: RoidSize) -> u32 {
    match size {
        RoidSize::Large => 50,
        RoidSize::Medium => 20,
        RoidSize::Small => 10,
    }
}

/// The size of the fragments of a destroyed asteroid; small ones do not
/// break up.
pub open spec fn fragment_size(size: RoidSize) -> Option<RoidSize> {
    match size {
        RoidSize::Large => Some(RoidSize::Medium),
        RoidSize::Medium => Some(RoidSize::Small),
        RoidSize::Small => None,
    }
}

/// What destroying an asteroid gives: points, and the fragments it breaks
/// into.
pub struct RoidDestruction {
    pub score: ScoreMessage,
    pub fragments: Vec<Roid>,
}

/// Destroys an asteroid: it scores by size and, unless small, breaks into two
/// fragments of the next size down.
pub fn destroy_roid(roid: &Roid) -> (d: RoidDestruction)
    ensures
        d.score.score == roid_points(roid.0),
        match fragment_size(roid.0) {
            Some(f) => d.fragments@ == seq![Roid(f), Roid(f)],
            None => d.fragments@.len() == 0,
        },
{
    let score = match roid.0 {
        RoidSize::Large => ScoreMessage::new(50),
        RoidSize::Medium => ScoreMessage::new(20),
        RoidSize::Small => ScoreMessage::new(10),
    };
    let mut fragments: Vec<Roid> = Vec::new();
    let next = match roid.0 {
        RoidSize::Large => Some(RoidSize::Medium),
        RoidSize::Medium => Some(RoidSize::Small),
        RoidSize::Small => None,
    };
    match next {
        Some(f) => {
            let mut i: usize = 0;
            while i < ROID_FRAGMENTS
                invariant
                    i <= ROID_FRAGMENTS,
                    fragments@ == Seq::new(i as nat, |_j: int| Roid(f)),
                decreases ROID_FRAGMENTS - i,
            {
                fragments.push(Roid(f));
                i = i + 1;
            }
            assert(fragments@ =~= seq![Roid(f), Roid(f)]);
        },
        None => {},
    }
    RoidDestruction { score, fragments }
}

/// The asteroid that a spawn message makes: every asteroid spawn type makes
/// a large asteroid; other types make none.
pub fn spawn_roids(spawn_type: SpawnType) -> (r: Option<Roid>)
    ensures
        r == (match spawn_type {
            SpawnType::Roid | SpawnType::RoidMedium | SpawnType::RoidSmall => Some(
                Roid(RoidSize::Large),
            ),
            _ => None::<Roid>,
        }),
{
    match spawn_type {
        SpawnType::Roid => Some(Roid(RoidSize::Large)),
        SpawnType::RoidMedium => Some(Roid(RoidSize::Large)),
        SpawnType::RoidSmall => Some(Roid(RoidSize::Large)),
        _ => None,
    }
}

/// The rank of a size: large 2, medium 1, small 0.
pub open spec fn size_rank(size: RoidSize) -> nat {
    match size {
        RoidSize::Large => 2,
        RoidSize::Medium => 1,
        RoidSize::Small => 0,
    }
}

/// All the points earned by destroying an asteroid and, after it, every
/// fragment that comes from it.
pub open spec fn clearing_points(size: RoidSize) -> int
    decreases size_rank(size),
{
    match fragment_size(size) {
        Some(f) => roid_points(size) + ROID_FRAGMENTS * clearing_points(f),
        None => roid_points(size) as int,
    }
}

/// The number of asteroids that an asteroid and its fragments make up.
pub open spec fn family_count(size: RoidSize) -> int
    decreases size_rank(size),
{
    match fragment_size(size) {
        Some(f) => 1 + ROID_FRAGMENTS * family_count(f),
        None => 1,
    }
}

/// Breaking up ends: fragments are always smaller than the asteroid they
/// come from, so an asteroid breaks up at most twice over, and an asteroid
/// of rank `r` makes up 2^(r+1) - 1 asteroids in all.
pub proof fn law_fragments_are_smaller(size: RoidSize)
    ensures
        fragment_size(size) matches Some(f) ==> size_rank(f) < size_rank(size),
        family_count(size) == vstd::arithmetic::power2::pow2(size_rank(size) + 1) - 1,
{
    vstd::arithmetic::power2::lemma2_to64();
    reveal_with_fuel(family_count, 3);
}

/// Destroying an asteroid and every fragment that comes from it scores 130
/// points for a large one, 40 for a medium one and 10 for a small one; a
/// fragment is always worth fewer points than the asteroid it comes from.
pub proof fn law_clearing_points(size: RoidSize)
    ensures
        clearing_points(size) == (match size {
            RoidSize::Large => 130int,
            RoidSize::Medium => 40int,
            RoidSize::Small => 10int,
        }),
        fragment_size(size) matches Some(f) ==> roid_points(f) < roid_points(size),
{
    reveal_with_fuel(clearing_points, 3);
}

} // verus!
