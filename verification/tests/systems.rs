use rally::systems::collision_vehicle_vehicle::{CollisionVehToVehSystem, VehicleCollisionAction};
use rally::systems::vehicle_move::{
    HorizontalWall, Spin, TurnUpdate, VehicleMoveSystem, VerticalWall, WallContact,
};

#[test]
fn untouched_vehicle_is_unaffected() {
    for expired in [false, true] {
        for hard in [false, true] {
            assert_eq!(
                CollisionVehToVehSystem::collision_action(false, expired, hard),
                VehicleCollisionAction::Unaffected
            );
        }
    }
}

#[test]
fn collision_during_cooldown_only_cools_down() {
    assert_eq!(
        CollisionVehToVehSystem::collision_action(true, false, true),
        VehicleCollisionAction::CoolDown
    );
    assert_eq!(
        CollisionVehToVehSystem::collision_action(true, false, false),
        VehicleCollisionAction::CoolDown
    );
}

#[test]
fn collision_after_cooldown_is_an_impact() {
    assert_eq!(
        CollisionVehToVehSystem::collision_action(true, true, true),
        VehicleCollisionAction::Impact { play_bounce_sound: true }
    );
    assert_eq!(
        CollisionVehToVehSystem::collision_action(true, true, false),
        VehicleCollisionAction::Impact { play_bounce_sound: false }
    );
}

#[test]
fn default_system() {
    let _s: CollisionVehToVehSystem = Default::default();
}

#[test]
fn no_wall_no_contact() {
    assert_eq!(
        VehicleMoveSystem::wall_contact(false, false, false, false, true),
        WallContact { horizontal: None, vertical: None, damage_on_horizontal: false, damage_on_vertical: false }
    );
}

#[test]
fn corner_hit_damages_once() {
    let c = VehicleMoveSystem::wall_contact(true, false, false, true, true);
    assert_eq!(
        c,
        WallContact {
            horizontal: Some(HorizontalWall::Right),
            vertical: Some(VerticalWall::Bottom),
            damage_on_horizontal: true,
            damage_on_vertical: false,
        }
    );
}

#[test]
fn vertical_hit_alone_damages() {
    let c = VehicleMoveSystem::wall_contact(false, false, true, false, true);
    assert_eq!(c.vertical, Some(VerticalWall::Top));
    assert!(c.damage_on_vertical);
    assert!(!c.damage_on_horizontal);
}

#[test]
fn hit_during_cooldown_deals_no_damage() {
    let c = VehicleMoveSystem::wall_contact(false, true, true, false, false);
    assert_eq!(c.horizontal, Some(HorizontalWall::Left));
    assert_eq!(c.vertical, Some(VerticalWall::Top));
    assert!(!c.damage_on_horizontal && !c.damage_on_vertical);
}

#[test]
fn right_and_top_checked_first() {
    let c = VehicleMoveSystem::wall_contact(true, true, true, true, false);
    assert_eq!(c.horizontal, Some(HorizontalWall::Right));
    assert_eq!(c.vertical, Some(VerticalWall::Top));
}

#[test]
fn wall_damage_at_most_once_in_every_case() {
    for bits in 0u8..32 {
        let b = |i: u8| bits & (1 << i) != 0;
        let c = VehicleMoveSystem::wall_contact(b(0), b(1), b(2), b(3), b(4));
        assert!(!(c.damage_on_horizontal && c.damage_on_vertical));
        assert_eq!(
            c.damage_on_horizontal || c.damage_on_vertical,
            b(4) && (b(0) || b(1) || b(2) || b(3))
        );
    }
}

#[test]
fn turn_updates() {
    assert_eq!(VehicleMoveSystem::turn_update(true, Spin::Positive), TurnUpdate::AddInputLessFriction);
    assert_eq!(VehicleMoveSystem::turn_update(true, Spin::Negative), TurnUpdate::AddInputPlusFriction);
    assert_eq!(VehicleMoveSystem::turn_update(true, Spin::Still), TurnUpdate::AddInput);
    assert_eq!(VehicleMoveSystem::turn_update(false, Spin::Positive), TurnUpdate::SubtractFriction);
    assert_eq!(VehicleMoveSystem::turn_update(false, Spin::Negative), TurnUpdate::AddFriction);
    assert_eq!(VehicleMoveSystem::turn_update(false, Spin::Still), TurnUpdate::Stop);
}
