use roids::collision::{
    bullet_collisions, collider_collisions, BulletHitMessage, BulletStrike, BulletTag, ColliderHit,
    ColliderTag, CollisionFlags, ASTEROID_BIT, ENEMY_BIT, PLAYER_BIT,
};

fn ship(entity: u64) -> ColliderTag {
    ColliderTag {
        entity,
        owner: None,
        group: CollisionFlags::player(),
        mask: CollisionFlags::enemy().or(CollisionFlags::asteroid()),
    }
}

fn roid(entity: u64) -> ColliderTag {
    ColliderTag { entity, owner: None, group: CollisionFlags::none(), mask: CollisionFlags::none() }
}

fn ufo(entity: u64) -> ColliderTag {
    ColliderTag {
        entity,
        owner: None,
        group: CollisionFlags::enemy(),
        mask: CollisionFlags::player().or(CollisionFlags::asteroid()),
    }
}

#[test]
fn flag_bits_are_one_per_category() {
    assert_eq!(CollisionFlags::none().bits, 0);
    assert_eq!(CollisionFlags::asteroid().bits, ASTEROID_BIT);
    assert_eq!(CollisionFlags::player().bits, PLAYER_BIT);
    assert_eq!(CollisionFlags::enemy().bits, ENEMY_BIT);
    assert_eq!((ASTEROID_BIT, PLAYER_BIT, ENEMY_BIT), (1, 2, 4));
}

#[test]
fn ship_mask_reacts_to_enemies_and_asteroids_only() {
    let mask = CollisionFlags::enemy().or(CollisionFlags::asteroid());
    assert_eq!(mask.bits, 5);
    assert!(mask.contains(CollisionFlags::enemy()));
    assert!(mask.contains(CollisionFlags::asteroid()));
    assert!(!mask.contains(CollisionFlags::player()));
    assert!(mask.contains(CollisionFlags::none()));
    assert_eq!(mask.and(CollisionFlags::player().or(CollisionFlags::enemy())).bits, ENEMY_BIT);
}

#[test]
fn ship_and_roid_exchange_damage() {
    let cs = vec![ship(10), roid(20)];
    let overlaps = vec![vec![true, true], vec![true, true]];
    let hits = collider_collisions(&cs, &overlaps);
    // the ship reacts to the roid (no category); the roid's empty mask
    // does not contain the player category
    assert_eq!(
        hits,
        vec![ColliderHit { target: 0, source: 1 }, ColliderHit { target: 1, source: 0 }]
    );
}

#[test]
fn apart_colliders_do_not_collide() {
    let cs = vec![ship(10), roid(20)];
    let overlaps = vec![vec![true, false], vec![false, true]];
    assert!(collider_collisions(&cs, &overlaps).is_empty());
}

#[test]
fn roids_collide_with_each_other_both_ways() {
    let cs = vec![roid(1), roid(2)];
    let overlaps = vec![vec![true, true], vec![true, true]];
    let hits = collider_collisions(&cs, &overlaps);
    assert_eq!(
        hits,
        vec![
            ColliderHit { target: 0, source: 1 },
            ColliderHit { target: 1, source: 0 },
            ColliderHit { target: 1, source: 0 },
            ColliderHit { target: 0, source: 1 },
        ]
    );
}

#[test]
fn hits_come_in_mirrored_pairs() {
    let cs = vec![ship(1), ufo(2), roid(3), roid(3)];
    let overlaps = vec![vec![true; 4], vec![true; 4], vec![true; 4], vec![true; 4]];
    let hits = collider_collisions(&cs, &overlaps);
    assert_eq!(hits.len() % 2, 0);
    for k in 0..hits.len() / 2 {
        let a = hits[2 * k];
        let b = hits[2 * k + 1];
        assert_eq!((a.target, a.source), (b.source, b.target));
        assert_ne!(cs[a.target].entity, cs[a.source].entity);
    }
    // checked pairs: ship->ufo, ufo->ship, ship->roid and ufo->roid for
    // both roids; the roids share an entity, and their empty mask holds
    // neither the player nor the enemy category
    assert_eq!(hits.len(), 2 * (2 + 2 + 2));
}

#[test]
fn bullets_spare_their_owner_and_its_shield() {
    let shield = ColliderTag {
        entity: 11,
        owner: Some(10),
        group: CollisionFlags::player(),
        mask: CollisionFlags::enemy().or(CollisionFlags::asteroid()),
    };
    let targets = vec![ship(10), shield, roid(20)];
    let bullets = vec![BulletTag { entity: 100, owner: Some(10) }, BulletTag { entity: 101, owner: Some(30) }];
    let overlaps = vec![vec![true, true, true], vec![true, false, true]];
    let strikes = bullet_collisions(&bullets, &targets, &overlaps);
    assert_eq!(
        strikes,
        vec![
            BulletStrike { bullet: 0, target: 2 },
            BulletStrike { bullet: 1, target: 0 },
            BulletStrike { bullet: 1, target: 2 },
        ]
    );
}

#[test]
fn bullet_hit_message_names_the_bullet() {
    assert_eq!(BulletHitMessage::new(42).bullet, 42);
}
