use roids::assets::{check_load_state, extract_assets, AssetState, LoadStatus};
use roids::bounds::{
    bounds_despawn, frame_mesh_indices, AreaPosition, BoundsWarp, WarpAction,
};
use roids::game_ui::{life_icons, score_text, update_lives, LifeIcon, LIFE_ICON_COUNT};
use roids::player::LifeEvent;
use roids::scheduling::{runs_after_update, update_chain, GameSchedule};
use roids::targeting::update_target;
use roids::warning::{Warn, WarningType};

#[test]
fn score_text_is_decimal() {
    assert_eq!(score_text(0), "0");
    assert_eq!(score_text(7), "7");
    assert_eq!(score_text(10), "10");
    assert_eq!(score_text(130), "130");
    assert_eq!(score_text(1234), "1234");
    assert_eq!(score_text(u32::MAX), "4294967295");
    assert_eq!(score_text(98765).parse::<u32>().unwrap(), 98765);
}

#[test]
fn five_life_icons() {
    let icons = life_icons();
    assert_eq!(LIFE_ICON_COUNT, 5);
    assert_eq!(icons, (0..5).map(LifeIcon).collect::<Vec<_>>());
}

#[test]
fn icons_up_to_the_lives_show() {
    let icons = life_icons();
    let mut shown = vec![true; 5];
    update_lives(&icons, &mut shown, &vec![LifeEvent::new(4), LifeEvent::new(2)]);
    assert_eq!(shown, vec![true, true, true, false, false]);
    update_lives(&icons, &mut shown, &vec![]);
    assert_eq!(shown, vec![true, true, true, false, false]);
    update_lives(&icons, &mut shown, &vec![LifeEvent::new(0)]);
    assert_eq!(shown.iter().filter(|s| **s).count(), 1);
    update_lives(&icons, &mut shown, &vec![LifeEvent::new(9)]);
    assert_eq!(shown.iter().filter(|s| **s).count(), 5);
}

#[test]
fn wrap_only_after_entering() {
    let mut w = BoundsWarp::default();
    assert_eq!(w, BoundsWarp { entered_zone: false, warp_vertically: true, warp_horizontally: true });
    let outside = AreaPosition { beyond_x: true, beyond_z: false, inside: false };
    let inside = AreaPosition { beyond_x: false, beyond_z: false, inside: true };
    assert_eq!(w.bounds_warp(outside), WarpAction { wrap_x: false, wrap_z: false });
    assert!(!w.entered_zone);
    assert_eq!(w.bounds_warp(inside), WarpAction { wrap_x: false, wrap_z: false });
    assert!(w.entered_zone);
    assert_eq!(w.bounds_warp(outside), WarpAction { wrap_x: true, wrap_z: false });
    let mut h = BoundsWarp { entered_zone: true, warp_vertically: true, warp_horizontally: false };
    let corner = AreaPosition { beyond_x: true, beyond_z: true, inside: false };
    assert_eq!(h.bounds_warp(corner), WarpAction { wrap_x: false, wrap_z: true });
}

#[test]
fn leaving_the_area_removes() {
    let fresh = BoundsWarp::default();
    let entered = BoundsWarp { entered_zone: true, ..BoundsWarp::default() };
    assert!(bounds_despawn(None, true));
    assert!(!bounds_despawn(None, false));
    assert!(!bounds_despawn(Some(fresh), true));
    assert!(bounds_despawn(Some(entered), true));
    assert!(!bounds_despawn(Some(entered), false));
}

#[test]
fn frame_indices() {
    let ix = frame_mesh_indices();
    assert_eq!(ix, vec![0, 5, 4, 0, 1, 5, 1, 2, 6, 1, 6, 5, 2, 7, 6, 2, 3, 7, 3, 0, 4, 3, 4, 7]);
    assert!(ix.iter().all(|i| *i < 8));
    for v in 0..8u32 {
        assert!(ix.contains(&v));
    }
}

#[test]
fn loading_waits_for_every_asset() {
    let l = Some(LoadStatus::Loaded);
    assert_eq!(check_load_state(&vec![l, l]), Some(AssetState::Extracting));
    assert_eq!(check_load_state(&vec![]), Some(AssetState::Extracting));
    assert_eq!(check_load_state(&vec![l, Some(LoadStatus::Loading)]), None);
    assert_eq!(check_load_state(&vec![Some(LoadStatus::Failed)]), None);
    assert_eq!(check_load_state(&vec![Some(LoadStatus::NotLoaded)]), None);
    assert_eq!(check_load_state(&vec![None, l]), None);
    assert_eq!(extract_assets(true), Some(AssetState::Ready));
    assert_eq!(extract_assets(false), None);
    assert_eq!(AssetState::default(), AssetState::Loading);
}

#[test]
fn update_order() {
    assert_eq!(
        update_chain(),
        vec![
            GameSchedule::HealthAdjust,
            GameSchedule::PreDespawnEntities,
            GameSchedule::DespawnEntities,
            GameSchedule::ReadUserInput,
            GameSchedule::PreEntityUpdates,
            GameSchedule::EntityUpdates,
            GameSchedule::PostEntityUpdates,
        ]
    );
    assert!(runs_after_update(GameSchedule::CollisionDetection));
    assert!(!runs_after_update(GameSchedule::EntityUpdates));
}

#[test]
fn retargeting() {
    assert!(!update_target(false, None, false));
    assert!(update_target(true, None, false));
    assert!(!update_target(true, Some(4), true));
    assert!(update_target(true, Some(4), false));
}

#[test]
fn new_warning_has_no_marker() {
    let w = Warn::new(WarningType::Missile);
    assert_eq!(w.warn_type, WarningType::Missile);
    assert_eq!(w.entity, None);
}
