use vstd::prelude::*;

verus! {

/// Bit of the asteroid collision category.
pub const ASTEROID_BIT: usize = 1;

/// Bit of the player collision category.
pub const PLAYER_BIT: usize = 2;

/// Bit of the enemy collision category.
pub const ENEMY_BIT: usize = 4;

/// A set of collision categories, one bit per category.
#[derive(Clone, Copy, Debug, PartialEq, Eq, Structural)]
pub struct CollisionFlags {
    pub bits: usize,
}

impl CollisionFlags {
    /// The empty set of categories.
    pub fn none() -> (f: CollisionFlags)
        ensures
            f.bits == 0,
    {
        CollisionFlags { bits: 0 }
    }

    /// The set that holds the asteroid category alone.
    pub fn asteroid() -> (f: CollisionFlags)
        ensures
            f.bits == ASTEROID_BIT,
    {
        CollisionFlags { bits: ASTEROID_BIT }
    }

    /// The set that holds the player category alone.
    pub fn player() -> (f: CollisionFlags)
        ensures
            f.bits == PLAYER_BIT,
    {
        CollisionFlags { bits: PLAYER_BIT }
    }

    /// The set that holds the enemy category alone.
    pub fn enemy() -> (f: CollisionFlags)
        ensures
            f.bits == ENEMY_BIT,
    {
        CollisionFlags { bits: ENEMY_BIT }
    }

    /// Whether every category of `other` is in `self`.
    pub open spec fn spec_contains(self, other: CollisionFlags) -> bool {
        (self.bits & other.bits) == other.bits
    }

    /// The union of two sets of categories.
    pub fn or(self, other: CollisionFlags) -> (f: CollisionFlags)
        ensures
            f.bits == (self.bits | other.bits),
    {
        CollisionFlags { bits: self.bits | other.bits }
    }

    /// The intersection of two sets of categories.
    pub fn and(self, other: CollisionFlags) -> (f: CollisionFlags)
        ensures
            f.bits == (self.bits & other.bits),
    {
        CollisionFlags { bits: self.bits & other.bits }
    }

    /// Whether every category of `other` is in `self`.
    pub fn contains(self, other: CollisionFlags) -> (b: bool)
        ensures
            b == self.spec_contains(other),
    {
        (self.bits & other.bits) == other.bits
    }
}


/// What the collision rules read of a collider: the entity that carries it,
/// the entity that owns it (a shield is owned by its ship), the categories it
/// belongs to and the categories it reacts to.
#[derive(Clone, Copy, Debug, PartialEq, Eq, Structural)]
pub struct ColliderTag {
    pub entity: u64,
    pub owner: Option<u64>,
    pub group: CollisionFlags,
    pub mask: CollisionFlags,
}

/// What the collision rules read of a bullet: its entity and the entity that
/// fired it.
#[derive(Clone, Copy, Debug, PartialEq, Eq, Structural)]
pub struct BulletTag {
    pub entity: u64,
    pub owner: Option<u64>,
}

/// One health change caused by a collision: the collider at index `target`
/// takes the damage of the collider at index `source`, which is its inflictor.
#[derive(Clone, Copy, Debug, PartialEq, Eq, Structural)]
pub struct ColliderHit {
    pub target: usize,
    pub source: usize,
}

/// A bullet hit something and is to be removed.
#[derive(Clone, Copy, Debug, PartialEq, Eq, Structural)]
pub struct BulletHitMessage {
    pub bullet: u64,
}

impl BulletHitMessage {
    pub fn new(entity: u64) -> (m: Self)
        ensures
            m.bullet == entity,
    {
        BulletHitMessage { bullet: entity }
    }
}

/// A bullet (by index) that struck a collider (by index).
#[derive(Clone, Copy, Debug, PartialEq, Eq, Structural)]
pub struct BulletStrike {
    pub bullet: usize,
    pub target: usize,
}

/// `overlaps` is an `n` by `n` table.
pub open spec fn square_table(overlaps: Seq<Vec<bool>>, n: int) -> bool {
    &&& overlaps.len() == n
    &&& forall|i: int| 0 <= i < n ==> #[trigger] overlaps[i]@.len() == n
}

/// `overlaps` has `rows` rows of `cols` entries each.
pub open spec fn rect_table(overlaps: Seq<Vec<bool>>, rows: int, cols: int) -> bool {
    &&& overlaps.len() == rows
    &&& forall|i: int| 0 <= i < rows ==> #[trigger] overlaps[i]@.len() == cols
}

/// Collider `a` is checked against collider `b`: they are different entities
/// and `a` reacts to every category that `b` belongs to.
pub open spec fn is_candidate(a: ColliderTag, b: ColliderTag) -> bool {
    a.entity != b.entity && a.mask.spec_contains(b.group)
}

/// The hits that the ordered pair `(a, b)` gives: when `a` is checked against
/// `b` and they overlap, `a` takes `b`'s damage and `b` takes `a`'s.
pub open spec fn pair_hits(cs: Seq<ColliderTag>, overlaps: Seq<Vec<bool>>, a: int, b: int) -> Seq<
    ColliderHit,
> {
    if is_candidate(cs[a], cs[b]) && overlaps[a]@[b] {
        seq![
            ColliderHit { target: a as usize, source: b as usize },
            ColliderHit { target: b as usize, source: a as usize },
        ]
    } else {
        Seq::empty()
    }
}

/// The hits of the pairs `(a, 0)`, ..., `(a, b - 1)`, in that order.
pub open spec fn row_hits(cs: Seq<ColliderTag>, overlaps: Seq<Vec<bool>>, a: int, b: int) -> Seq<
    ColliderHit,
>
    decreases b,
{
    if b <= 0 {
        Seq::empty()
    } else {
        row_hits(cs, overlaps, a, b - 1) + pair_hits(cs, overlaps, a, b - 1)
    }
}

/// The hits of all ordered pairs whose first collider has an index below `a`,
/// pairs taken row by row.
pub open spec fn all_hits(cs: Seq<ColliderTag>, overlaps: Seq<Vec<bool>>, a: int) -> Seq<
    ColliderHit,
>
    decreases a,
{
    if a <= 0 {
        Seq::empty()
    } else {
        all_hits(cs, overlaps, a - 1) + row_hits(cs, overlaps, a - 1, cs.len() as int)
    }
}

/// Checks every ordered pair of colliders and lists the health changes that
/// the overlapping ones cause. `overlaps[a][b]` tells whether colliders `a`
/// and `b` are closer than the sum of their radii.
pub fn collider_collisions(colliders: &Vec<ColliderTag>, overlaps: &Vec<Vec<bool>>) -> (hits: Vec<
    ColliderHit,
>)
    requires
        square_table(overlaps@, colliders@.len() as int),
    ensures
        hits@ == all_hits(colliders@, overlaps@, colliders@.len() as int),
{
    let n = colliders.len();
    let mut hits: Vec<ColliderHit> = Vec::new();
    let mut a: usize = 0;
    while a < n
        invariant
            n == colliders@.len(),
            a <= n,
            square_table(overlaps@, n as int),
            hits@ == all_hits(colliders@, overlaps@, a as int),
        decreases n - a,
    {
        let mut b: usize = 0;
        while b < n
            invariant
                n == colliders@.len(),
                a < n,
                b <= n,
                square_table(overlaps@, n as int),
                hits@ == all_hits(colliders@, overlaps@, a as int) + row_hits(
                    colliders@,
                    overlaps@,
                    a as int,
                    b as int,
                ),
            decreases n - b,
        {
            let ca = colliders[a];
            let cb = colliders[b];
            let ghost before = hits@;
            assert(overlaps@[a as int]@.len() == n);
            if ca.entity != cb.entity && ca.mask.contains(cb.group) && overlaps[a][b] {
                hits.push(ColliderHit { target: a, source: b });
                hits.push(ColliderHit { target: b, source: a });
            }
            proof {
                let pre = all_hits(colliders@, overlaps@, a as int);
                let r = row_hits(colliders@, overlaps@, a as int, b as int);
                let p = pair_hits(colliders@, overlaps@, a as int, b as int);
                assert(hits@ =~= before + p);
                assert(pre + (r + p) =~= (pre + r) + p);
            }
            b = b + 1;
        }
        a = a + 1;
    }
    hits
}

/// `hits` lists health changes two by two: the first of each two is an
/// ordered pair `(a, b)` of overlapping colliders where `a` is checked against
/// `b`, and the second is the same pair with target and source swapped.
pub open spec fn mutual_pairs(cs: Seq<ColliderTag>, overlaps: Seq<Vec<bool>>, hits: Seq<ColliderHit>) -> bool {
    &&& hits.len() % 2 == 0
    &&& forall|k: int|
        0 <= k < hits.len() / 2 ==> {
            let h = #[trigger] hits[2 * k];
            &&& 0 <= h.target < cs.len()
            &&& 0 <= h.source < cs.len()
            &&& is_candidate(cs[h.target as int], cs[h.source as int])
            &&& overlaps[h.target as int]@[h.source as int]
            &&& hits[2 * k + 1] == ColliderHit { target: h.source, source: h.target }
        }
}

proof fn lemma_mutual_concat(
    cs: Seq<ColliderTag>,
    overlaps: Seq<Vec<bool>>,
    x: Seq<ColliderHit>,
    y: Seq<ColliderHit>,
)
    requires
        mutual_pairs(cs, overlaps, x),
        mutual_pairs(cs, overlaps, y),
    ensures
        mutual_pairs(cs, overlaps, x + y),
{
    let z = x + y;
    assert forall|k: int| 0 <= k < z.len() / 2 implies {
        let h = #[trigger] z[2 * k];
        &&& 0 <= h.target < cs.len()
        &&& 0 <= h.source < cs.len()
        &&& is_candidate(cs[h.target as int], cs[h.source as int])
        &&& overlaps[h.target as int]@[h.source as int]
        &&& z[2 * k + 1] == ColliderHit { target: h.source, source: h.target }
    } by {
        if k < x.len() / 2 {
            assert(z[2 * k] == x[2 * k]);
            assert(z[2 * k + 1] == x[2 * k + 1]);
        } else {
            let k2 = k - x.len() / 2;
            assert(2 * k - x.len() == 2 * k2);
            assert(z[2 * k] == y[2 * k2]);
            assert(z[2 * k + 1] == y[2 * k2 + 1]);
        }
    }
}

proof fn lemma_row_mutual(cs: Seq<ColliderTag>, overlaps: Seq<Vec<bool>>, a: int, b: int)
    requires
        0 <= a < cs.len(),
        b <= cs.len(),
        cs.len() <= usize::MAX,
    ensures
        mutual_pairs(cs, overlaps, row_hits(cs, overlaps, a, b)),
    decreases b,
{
    if b > 0 {
        lemma_row_mutual(cs, overlaps, a, b - 1);
        let p = pair_hits(cs, overlaps, a, b - 1);
        if p.len() > 0 {
            assert(p[2 * 0int] == p[0]);
        }
        assert(mutual_pairs(cs, overlaps, p));
        lemma_mutual_concat(cs, overlaps, row_hits(cs, overlaps, a, b - 1), p);
    }
}

proof fn lemma_all_mutual(cs: Seq<ColliderTag>, overlaps: Seq<Vec<bool>>, a: int)
    requires
        a <= cs.len(),
        cs.len() <= usize::MAX,
    ensures
        mutual_pairs(cs, overlaps, all_hits(cs, overlaps, a)),
    decreases a,
{
    if a > 0 {
        lemma_all_mutual(cs, overlaps, a - 1);
        lemma_row_mutual(cs, overlaps, a - 1, cs.len() as int);
        lemma_mutual_concat(
            cs,
            overlaps,
            all_hits(cs, overlaps, a - 1),
            row_hits(cs, overlaps, a - 1, cs.len() as int),
        );
    }
}

/// Collision damage is mutual: the health changes that `collider_collisions`
/// lists come two by two, each two being an overlapping pair of distinct
/// colliders, the first reacting to the second's categories, where each takes
/// the other's damage.
pub proof fn law_collision_damage_is_mutual(cs: Seq<ColliderTag>, overlaps: Seq<Vec<bool>>)
    requires
        cs.len() <= usize::MAX,
    ensures
        mutual_pairs(cs, overlaps, all_hits(cs, overlaps, cs.len() as int)),
{
    lemma_all_mutual(cs, overlaps, cs.len() as int);
}

proof fn lemma_row_complete(cs: Seq<ColliderTag>, overlaps: Seq<Vec<bool>>, a: int, b: int, c: int)
    requires
        0 <= c < b,
        0 <= a,
        b <= cs.len(),
        cs.len() <= usize::MAX,
        is_candidate(cs[a], cs[c]),
        overlaps[a]@[c],
    ensures
        row_hits(cs, overlaps, a, b).contains(ColliderHit { target: a as usize, source: c as usize }),
        row_hits(cs, overlaps, a, b).contains(ColliderHit { target: c as usize, source: a as usize }),
    decreases b,
{
    let r = row_hits(cs, overlaps, a, b - 1);
    let p = pair_hits(cs, overlaps, a, b - 1);
    let e1 = ColliderHit { target: a as usize, source: c as usize };
    let e2 = ColliderHit { target: c as usize, source: a as usize };
    if c < b - 1 {
        lemma_row_complete(cs, overlaps, a, b - 1, c);
        let i1 = choose|i: int| 0 <= i < r.len() && r[i] == e1;
        let i2 = choose|i: int| 0 <= i < r.len() && r[i] == e2;
        assert((r + p)[i1] == e1);
        assert((r + p)[i2] == e2);
    } else {
        assert((r + p)[r.len() as int] == e1);
        assert((r + p)[r.len() + 1int] == e2);
    }
}

proof fn lemma_all_complete(cs: Seq<ColliderTag>, overlaps: Seq<Vec<bool>>, n: int, a: int, c: int)
    requires
        0 <= a < n,
        0 <= c < cs.len(),
        n <= cs.len(),
        cs.len() <= usize::MAX,
        is_candidate(cs[a], cs[c]),
        overlaps[a]@[c],
    ensures
        all_hits(cs, overlaps, n).contains(ColliderHit { target: a as usize, source: c as usize }),
        all_hits(cs, overlaps, n).contains(ColliderHit { target: c as usize, source: a as usize }),
    decreases n,
{
    let x = all_hits(cs, overlaps, n - 1);
    let r = row_hits(cs, overlaps, n - 1, cs.len() as int);
    let e1 = ColliderHit { target: a as usize, source: c as usize };
    let e2 = ColliderHit { target: c as usize, source: a as usize };
    if a < n - 1 {
        lemma_all_complete(cs, overlaps, n - 1, a, c);
        let i1 = choose|i: int| 0 <= i < x.len() && x[i] == e1;
        let i2 = choose|i: int| 0 <= i < x.len() && x[i] == e2;
        assert((x + r)[i1] == e1);
        assert((x + r)[i2] == e2);
    } else {
        lemma_row_complete(cs, overlaps, a, cs.len() as int, c);
        let i1 = choose|i: int| 0 <= i < r.len() && r[i] == e1;
        let i2 = choose|i: int| 0 <= i < r.len() && r[i] == e2;
        assert((x + r)[x.len() as int + i1] == e1);
        assert((x + r)[x.len() as int + i2] == e2);
    }
}

/// No collision is missed: for every ordered pair of overlapping colliders
/// where the first reacts to the second's categories (and they are distinct
/// entities), `collider_collisions` lists both health changes.
pub proof fn law_every_collision_is_reported(cs: Seq<ColliderTag>, overlaps: Seq<Vec<bool>>, a: int, b: int)
    requires
        cs.len() <= usize::MAX,
        0 <= a < cs.len(),
        0 <= b < cs.len(),
        is_candidate(cs[a], cs[b]),
        overlaps[a]@[b],
    ensures
        all_hits(cs, overlaps, cs.len() as int).contains(ColliderHit { target: a as usize, source: b as usize }),
        all_hits(cs, overlaps, cs.len() as int).contains(ColliderHit { target: b as usize, source: a as usize }),
{
    lemma_all_complete(cs, overlaps, cs.len() as int, a, b);
}

/// A collider that belongs to no category is checked by every collider of
/// another entity, whatever the categories it reacts to.
pub proof fn law_no_category_is_always_checked(a: ColliderTag, b: ColliderTag)
    requires
        a.entity != b.entity,
        b.group.bits == 0,
    ensures
        is_candidate(a, b),
{
    let m = a.mask.bits;
    assert((m & 0usize) == 0usize) by (bit_vector);
}

/// Bullet `bl` can strike collider `t`: neither the collider nor its owner
/// is the bullet's owner.
pub open spec fn can_strike(bl: BulletTag, t: ColliderTag) -> bool {
    &&& bl.owner != Some(t.entity)
    &&& !(t.owner.is_some() && t.owner == bl.owner)
}

/// The strike of bullet `i` on collider `j`, if it happens.
pub open spec fn strike_at(
    bullets: Seq<BulletTag>,
    targets: Seq<ColliderTag>,
    overlaps: Seq<Vec<bool>>,
    i: int,
    j: int,
) -> Seq<BulletStrike> {
    if can_strike(bullets[i], targets[j]) && overlaps[i]@[j] {
        seq![BulletStrike { bullet: i as usize, target: j as usize }]
    } else {
        Seq::empty()
    }
}

/// The strikes of bullet `i` on colliders `0`, ..., `j - 1`.
pub open spec fn bullet_row(
    bullets: Seq<BulletTag>,
    targets: Seq<ColliderTag>,
    overlaps: Seq<Vec<bool>>,
    i: int,
    j: int,
) -> Seq<BulletStrike>
    decreases j,
{
    if j <= 0 {
        Seq::empty()
    } else {
        bullet_row(bullets, targets, overlaps, i, j - 1) + strike_at(
            bullets,
            targets,
            overlaps,
            i,
            j - 1,
        )
    }
}

/// The strikes of bullets `0`, ..., `i - 1`, bullet by bullet.
pub open spec fn all_strikes(
    bullets: Seq<BulletTag>,
    targets: Seq<ColliderTag>,
    overlaps: Seq<Vec<bool>>,
    i: int,
) -> Seq<BulletStrike>
    decreases i,
{
    if i <= 0 {
        Seq::empty()
    } else {
        all_strikes(bullets, targets, overlaps, i - 1) + bullet_row(
            bullets,
            targets,
            overlaps,
            i - 1,
            targets.len() as int,
        )
    }
}

/// Checks every bullet against every collider and lists the strikes.
/// `overlaps[i][j]` tells whether bullet `i` is within collider `j`'s radius.
pub fn bullet_collisions(
    bullets: &Vec<BulletTag>,
    targets: &Vec<ColliderTag>,
    overlaps: &Vec<Vec<bool>>,
) -> (strikes: Vec<BulletStrike>)
    requires
        rect_table(overlaps@, bullets@.len() as int, targets@.len() as int),
    ensures
        strikes@ == all_strikes(bullets@, targets@, overlaps@, bullets@.len() as int),
{
    let nb = bullets.len();
    let nt = targets.len();
    let mut strikes: Vec<BulletStrike> = Vec::new();
    let mut i: usize = 0;
    while i < nb
        invariant
            nb == bullets@.len(),
            nt == targets@.len(),
            i <= nb,
            rect_table(overlaps@, nb as int, nt as int),
            strikes@ == all_strikes(bullets@, targets@, overlaps@, i as int),
        decreases nb - i,
    {
        let mut j: usize = 0;
        while j < nt
            invariant
                nb == bullets@.len(),
                nt == targets@.len(),
                i < nb,
                j <= nt,
                rect_table(overlaps@, nb as int, nt as int),
                strikes@ == all_strikes(bullets@, targets@, overlaps@, i as int) + bullet_row(
                    bullets@,
                    targets@,
                    overlaps@,
                    i as int,
                    j as int,
                ),
            decreases nt - j,
        {
            let bl = bullets[i];
            let t = targets[j];
            let ghost before = strikes@;
            assert(overlaps@[i as int]@.len() == nt);
            let owner_hit = match bl.owner {
                Some(o) => o == t.entity,
                None => false,
            };
            let shared_owner = match (t.owner, bl.owner) {
                (Some(x), Some(y)) => x == y,
                _ => false,
            };
            if !owner_hit && !shared_owner && overlaps[i][j] {
                strikes.push(BulletStrike { bullet: i, target: j });
            }
            proof {
                let pre = all_strikes(bullets@, targets@, overlaps@, i as int);
                let r = bullet_row(bullets@, targets@, overlaps@, i as int, j as int);
                let p = strike_at(bullets@, targets@, overlaps@, i as int, j as int);
                assert(strikes@ =~= before + p);
                assert(pre + (r + p) =~= (pre + r) + p);
            }
            j = j + 1;
        }
        i = i + 1;
    }
    strikes
}


/// Which colliders are checked against which, in terms of their category
/// bits: collider `a` is checked against `b` exactly when they are different
/// entities and every bit of `b`'s group is set in `a`'s mask. In particular
/// a collider whose mask lacks the enemy bit is never checked against an
/// enemy (two enemies pass through each other).
pub proof fn law_candidates_follow_masks(a: ColliderTag, b: ColliderTag)
    ensures
        is_candidate(a, b) <==> (a.entity != b.entity && (a.mask.bits & b.group.bits)
            == b.group.bits),
        (a.mask.bits & ENEMY_BIT) == 0 && b.group.bits == ENEMY_BIT ==> !is_candidate(a, b),
        (a.mask.bits & PLAYER_BIT) == PLAYER_BIT && b.group.bits == PLAYER_BIT && a.entity
            != b.entity ==> is_candidate(a, b),
{
}

/// The health changes that `collider_collisions` lists, in terms of the
/// colliders' entities, category bits and overlaps: they come two by two;
/// the first of each two has a target and a source of different entities
/// that overlap, where every group bit of the source is set in the target's
/// mask, and the second is the same two swapped. Conversely every such
/// ordered pair of overlapping colliders gives both changes.
pub proof fn law_hits_follow_masks(cs: Seq<ColliderTag>, overlaps: Seq<Vec<bool>>)
    requires
        cs.len() <= usize::MAX,
    ensures
        ({
            let hits = all_hits(cs, overlaps, cs.len() as int);
            &&& hits.len() % 2 == 0
            &&& forall|k: int|
                0 <= k < hits.len() / 2 ==> {
                    let h = #[trigger] hits[2 * k];
                    &&& 0 <= h.target < cs.len()
                    &&& 0 <= h.source < cs.len()
                    &&& cs[h.target as int].entity != cs[h.source as int].entity
                    &&& (cs[h.target as int].mask.bits & cs[h.source as int].group.bits)
                        == cs[h.source as int].group.bits
                    &&& overlaps[h.target as int]@[h.source as int]
                    &&& hits[2 * k + 1] == ColliderHit { target: h.source, source: h.target }
                }
        }),
        forall|a: int, b: int|
            0 <= a < cs.len() && 0 <= b < cs.len() && cs[a].entity != cs[b].entity && (
            cs[a].mask.bits & cs[b].group.bits) == cs[b].group.bits && overlaps[a]@[b] ==> {
                &&& all_hits(cs, overlaps, cs.len() as int).contains(
                    ColliderHit { target: a as usize, source: b as usize },
                )
                &&& all_hits(cs, overlaps, cs.len() as int).contains(
                    ColliderHit { target: b as usize, source: a as usize },
                )
            },
{
    law_collision_damage_is_mutual(cs, overlaps);
    assert forall|a: int, b: int|
        0 <= a < cs.len() && 0 <= b < cs.len() && cs[a].entity != cs[b].entity && (
        cs[a].mask.bits & cs[b].group.bits) == cs[b].group.bits && overlaps[a]@[b] implies {
            &&& all_hits(cs, overlaps, cs.len() as int).contains(
                ColliderHit { target: a as usize, source: b as usize },
            )
            &&& all_hits(cs, overlaps, cs.len() as int).contains(
                ColliderHit { target: b as usize, source: a as usize },
            )
        } by {
        law_every_collision_is_reported(cs, overlaps, a, b);
    }
}

proof fn lemma_bullet_row_sound(
    bullets: Seq<BulletTag>,
    targets: Seq<ColliderTag>,
    overlaps: Seq<Vec<bool>>,
    i: int,
    j: int,
)
    requires
        0 <= i <= usize::MAX,
        j <= targets.len() <= usize::MAX,
    ensures
        forall|k: int|
            0 <= k < bullet_row(bullets, targets, overlaps, i, j).len() ==> {
                let st = #[trigger] bullet_row(bullets, targets, overlaps, i, j)[k];
                &&& st.bullet as int == i
                &&& 0 <= st.target < j
                &&& can_strike(bullets[i], targets[st.target as int])
                &&& overlaps[i]@[st.target as int]
            },
    decreases j,
{
    if j > 0 {
        lemma_bullet_row_sound(bullets, targets, overlaps, i, j - 1);
        let r = bullet_row(bullets, targets, overlaps, i, j - 1);
        let p = strike_at(bullets, targets, overlaps, i, j - 1);
        assert forall|k: int| 0 <= k < (r + p).len() implies {
            let st = #[trigger] (r + p)[k];
            &&& st.bullet as int == i
            &&& 0 <= st.target < j
            &&& can_strike(bullets[i], targets[st.target as int])
            &&& overlaps[i]@[st.target as int]
        } by {
            if k < r.len() {
                assert((r + p)[k] == r[k]);
            } else {
                assert((r + p)[k] == p[k - r.len()]);
            }
        }
    }
}

proof fn lemma_all_strikes_sound(
    bullets: Seq<BulletTag>,
    targets: Seq<ColliderTag>,
    overlaps: Seq<Vec<bool>>,
    i: int,
)
    requires
        i <= bullets.len() <= usize::MAX,
        targets.len() <= usize::MAX,
    ensures
        forall|k: int|
            0 <= k < all_strikes(bullets, targets, overlaps, i).len() ==> {
                let st = #[trigger] all_strikes(bullets, targets, overlaps, i)[k];
                &&& 0 <= st.bullet < i
                &&& 0 <= st.target < targets.len()
                &&& can_strike(bullets[st.bullet as int], targets[st.target as int])
                &&& overlaps[st.bullet as int]@[st.target as int]
            },
    decreases i,
{
    if i > 0 {
        lemma_all_strikes_sound(bullets, targets, overlaps, i - 1);
        lemma_bullet_row_sound(bullets, targets, overlaps, i - 1, targets.len() as int);
        let x = all_strikes(bullets, targets, overlaps, i - 1);
        let r = bullet_row(bullets, targets, overlaps, i - 1, targets.len() as int);
        assert forall|k: int| 0 <= k < (x + r).len() implies {
            let st = #[trigger] (x + r)[k];
            &&& 0 <= st.bullet < i
            &&& 0 <= st.target < targets.len()
            &&& can_strike(bullets[st.bullet as int], targets[st.target as int])
            &&& overlaps[st.bullet as int]@[st.target as int]
        } by {
            if k < x.len() {
                assert((x + r)[k] == x[k]);
            } else {
                assert((x + r)[k] == r[k - x.len()]);
            }
        }
    }
}

proof fn lemma_bullet_row_complete(
    bullets: Seq<BulletTag>,
    targets: Seq<ColliderTag>,
    overlaps: Seq<Vec<bool>>,
    i: int,
    j: int,
    c: int,
)
    requires
        0 <= i <= usize::MAX,
        0 <= c < j <= targets.len() <= usize::MAX,
        can_strike(bullets[i], targets[c]),
        overlaps[i]@[c],
    ensures
        bullet_row(bullets, targets, overlaps, i, j).contains(
            BulletStrike { bullet: i as usize, target: c as usize },
        ),
    decreases j,
{
    let r = bullet_row(bullets, targets, overlaps, i, j - 1);
    let p = strike_at(bullets, targets, overlaps, i, j - 1);
    let e = BulletStrike { bullet: i as usize, target: c as usize };
    if c < j - 1 {
        lemma_bullet_row_complete(bullets, targets, overlaps, i, j - 1, c);
        let k = choose|k: int| 0 <= k < r.len() && r[k] == e;
        assert((r + p)[k] == e);
    } else {
        assert((r + p)[r.len() as int] == e);
    }
}

proof fn lemma_all_strikes_complete(
    bullets: Seq<BulletTag>,
    targets: Seq<ColliderTag>,
    overlaps: Seq<Vec<bool>>,
    n: int,
    i: int,
    c: int,
)
    requires
        0 <= i < n <= bullets.len() <= usize::MAX,
        0 <= c < targets.len() <= usize::MAX,
        can_strike(bullets[i], targets[c]),
        overlaps[i]@[c],
    ensures
        all_strikes(bullets, targets, overlaps, n).contains(
            BulletStrike { bullet: i as usize, target: c as usize },
        ),
    decreases n,
{
    let x = all_strikes(bullets, targets, overlaps, n - 1);
    let r = bullet_row(bullets, targets, overlaps, n - 1, targets.len() as int);
    let e = BulletStrike { bullet: i as usize, target: c as usize };
    if i < n - 1 {
        lemma_all_strikes_complete(bullets, targets, overlaps, n - 1, i, c);
        let k = choose|k: int| 0 <= k < x.len() && x[k] == e;
        assert((x + r)[k] == e);
    } else {
        lemma_bullet_row_complete(bullets, targets, overlaps, i, targets.len() as int, c);
        let k = choose|k: int| 0 <= k < r.len() && r[k] == e;
        assert((x + r)[x.len() as int + k] == e);
    }
}

/// The strikes that `bullet_collisions` lists, in terms of the bullets'
/// owners and the colliders' entities and owners: a bullet strikes a collider
/// it overlaps exactly when the bullet's owner is not the collider's entity
/// and the collider is not owned by the bullet's owner. So a ship's bullets
/// spare the ship and its shield, while an enemy's bullet strikes the ship's
/// shield.
pub proof fn law_bullet_strikes(
    bullets: Seq<BulletTag>,
    targets: Seq<ColliderTag>,
    overlaps: Seq<Vec<bool>>,
)
    requires
        bullets.len() <= usize::MAX,
        targets.len() <= usize::MAX,
    ensures
        forall|k: int|
            0 <= k < all_strikes(bullets, targets, overlaps, bullets.len() as int).len() ==> {
                let st = #[trigger] all_strikes(bullets, targets, overlaps, bullets.len() as int)[k];
                &&& 0 <= st.bullet < bullets.len()
                &&& 0 <= st.target < targets.len()
                &&& bullets[st.bullet as int].owner != Some(targets[st.target as int].entity)
                &&& (targets[st.target as int].owner is None || targets[st.target as int].owner
                    != bullets[st.bullet as int].owner)
                &&& overlaps[st.bullet as int]@[st.target as int]
            },
        forall|i: int, j: int|
            0 <= i < bullets.len() && 0 <= j < targets.len() && bullets[i].owner != Some(
                targets[j].entity,
            ) && (targets[j].owner is None || targets[j].owner != bullets[i].owner)
                && overlaps[i]@[j] ==> #[trigger] all_strikes(
                bullets,
                targets,
                overlaps,
                bullets.len() as int,
            ).contains(BulletStrike { bullet: i as usize, target: j as usize }),
{
    lemma_all_strikes_sound(bullets, targets, overlaps, bullets.len() as int);
    assert forall|i: int, j: int|
        0 <= i < bullets.len() && 0 <= j < targets.len() && bullets[i].owner != Some(
            targets[j].entity,
        ) && (targets[j].owner is None || targets[j].owner != bullets[i].owner)
            && overlaps[i]@[j] implies #[trigger] all_strikes(
            bullets,
            targets,
            overlaps,
            bullets.len() as int,
        ).contains(BulletStrike { bullet: i as usize, target: j as usize }) by {
        lemma_all_strikes_complete(bullets, targets, overlaps, bullets.len() as int, i, j);
    }
}

} // verus!
