use rally::components::weapons::{
    build_standard_weapon, get_next_weapon_type, update_weapon_properties, weapon_type_from_u8,
    Weapon, WeaponFire, WeaponTypes,
};

const ALL: [WeaponTypes; 10] = [
    WeaponTypes::LaserBeam,
    WeaponTypes::LaserPulse,
    WeaponTypes::LaserDouble,
    WeaponTypes::ProjectileRapidFire,
    WeaponTypes::ProjectileBurstFire,
    WeaponTypes::ProjectileCannonFire,
    WeaponTypes::Mine,
    WeaponTypes::Missile,
    WeaponTypes::Rockets,
    WeaponTypes::LaserSword,
];

fn thousandths_to_f32(v: i64) -> f32 {
    v as f32 / 1000.0
}

#[test]
fn codes_select_their_weapons() {
    assert_eq!(weapon_type_from_u8(0), WeaponTypes::LaserDouble);
    assert_eq!(weapon_type_from_u8(1), WeaponTypes::LaserBeam);
    assert_eq!(weapon_type_from_u8(2), WeaponTypes::LaserPulse);
    assert_eq!(weapon_type_from_u8(3), WeaponTypes::ProjectileBurstFire);
    assert_eq!(weapon_type_from_u8(4), WeaponTypes::ProjectileRapidFire);
    assert_eq!(weapon_type_from_u8(5), WeaponTypes::ProjectileCannonFire);
    assert_eq!(weapon_type_from_u8(6), WeaponTypes::Missile);
    assert_eq!(weapon_type_from_u8(7), WeaponTypes::Rockets);
    assert_eq!(weapon_type_from_u8(8), WeaponTypes::Mine);
    assert_eq!(weapon_type_from_u8(9), WeaponTypes::LaserSword);
}

#[test]
fn unknown_codes_select_laser_double() {
    assert_eq!(weapon_type_from_u8(10), WeaponTypes::LaserDouble);
    assert_eq!(weapon_type_from_u8(42), WeaponTypes::LaserDouble);
    assert_eq!(weapon_type_from_u8(255), WeaponTypes::LaserDouble);
}

#[test]
fn every_weapon_has_one_code_below_ten() {
    for t in ALL.iter() {
        let codes: Vec<u8> = (0u8..10).filter(|n| weapon_type_from_u8(*n) == *t).collect();
        assert_eq!(codes.len(), 1);
    }
}

#[test]
fn progression_order() {
    let mut order = vec![WeaponTypes::LaserDouble];
    let mut current = WeaponTypes::LaserDouble;
    while let Some(next) = get_next_weapon_type(current) {
        order.push(next);
        current = next;
    }
    assert_eq!(
        order,
        vec![
            WeaponTypes::LaserDouble,
            WeaponTypes::ProjectileRapidFire,
            WeaponTypes::Missile,
            WeaponTypes::LaserBeam,
            WeaponTypes::ProjectileCannonFire,
            WeaponTypes::Rockets,
            WeaponTypes::LaserPulse,
            WeaponTypes::ProjectileBurstFire,
            WeaponTypes::Mine,
            WeaponTypes::LaserSword,
        ]
    );
    for t in ALL.iter() {
        assert!(order.contains(t));
    }
}

#[test]
fn laser_sword_is_the_last_weapon() {
    assert_eq!(get_next_weapon_type(WeaponTypes::LaserSword), None);
    assert_eq!(get_next_weapon_type(WeaponTypes::Mine), Some(WeaponTypes::LaserSword));
}

#[test]
fn laser_double_stats() {
    let w = build_standard_weapon(WeaponTypes::LaserDouble);
    assert_eq!(
        w,
        (WeaponTypes::LaserDouble, false, 0, 400, 1, 400, 400_000, 25_000, 120_000, 60_000, 0, 100_000)
    );
}

#[test]
fn laser_beam_stats() {
    let w = build_standard_weapon(WeaponTypes::LaserBeam);
    assert_eq!(
        w,
        (WeaponTypes::LaserBeam, false, 0, 5, 1, 5, 2_800_000, 300, 120_000, 60_000, 0, 100_000)
    );
}

#[test]
fn burst_weapons() {
    let pulse = build_standard_weapon(WeaponTypes::LaserPulse);
    assert_eq!((pulse.3, pulse.4, pulse.5), (750, 2, 100));
    let burst = build_standard_weapon(WeaponTypes::ProjectileBurstFire);
    assert_eq!((burst.3, burst.4, burst.5), (150, 2, 100));
    let rockets = build_standard_weapon(WeaponTypes::Rockets);
    assert_eq!((rockets.3, rockets.4, rockets.5), (800, 4, 250));
}

#[test]
fn single_shot_weapons_burst_at_their_cooldown() {
    for t in ALL.iter() {
        let w = build_standard_weapon(*t);
        if w.4 == 1 {
            assert_eq!(w.5, w.3);
        }
        assert!(w.4 >= 1);
        assert_eq!(w.0, *t);
        assert_eq!(w.11, 100_000);
    }
}

#[test]
fn only_missiles_seek_heat() {
    for t in ALL.iter() {
        let w = build_standard_weapon(*t);
        assert_eq!(w.1, *t == WeaponTypes::Missile);
        assert_eq!(w.2, if w.1 { 1_000 } else { 0 });
    }
    let m = build_standard_weapon(WeaponTypes::Missile);
    assert_eq!(
        m,
        (WeaponTypes::Missile, true, 1_000, 2_500, 1, 2_500, 100_000, 50_000, 75_000, 75_000, 10_000, 100_000)
    );
}

#[test]
fn mine_and_sword_do_not_travel() {
    assert_eq!(build_standard_weapon(WeaponTypes::Mine).6, 0);
    let sword = build_standard_weapon(WeaponTypes::LaserSword);
    assert_eq!((sword.6, sword.7, sword.3, sword.10), (0, 1_000, 1_000_000, 50_000));
}

#[test]
fn thousandths_match_the_game_units() {
    let beam = build_standard_weapon(WeaponTypes::LaserBeam);
    assert_eq!(thousandths_to_f32(beam.7), 0.3f32);
    assert_eq!(thousandths_to_f32(beam.3), 0.005f32);
    assert_eq!(thousandths_to_f32(beam.6), 2800.0f32);
    let rapid = build_standard_weapon(WeaponTypes::ProjectileRapidFire);
    assert_eq!(thousandths_to_f32(rapid.3), 0.10f32);
    let pulse = build_standard_weapon(WeaponTypes::LaserPulse);
    assert_eq!(thousandths_to_f32(pulse.5), 0.1f32);
}

#[test]
fn new_weapon_is_ready_at_origin() {
    let w = Weapon::new(WeaponTypes::Rockets, false, 0, 800, 4, 250, 250_000, 50_000, 75_000, 75_000, 10_000, 100_000);
    assert_eq!((w.x, w.y, w.aim_angle), (0, 0, 0));
    assert_eq!(w.weapon_cooldown_timer, -1_000);
    assert_eq!(w.burst_shots, 0);
    assert_eq!(w.weapon_type, WeaponTypes::Rockets);
    assert_eq!(w.weapon_cooldown_reset, 800);
    assert_eq!(w.burst_shot_limit, 4);
    assert_eq!(w.burst_cooldown_reset, 250);
    assert_eq!(w.weapon_shot_speed, 250_000);
    assert_eq!(w.damage, 50_000);
    assert_eq!(w.piercing_damage_pct, 10_000);
}

#[test]
fn update_reconfigures_but_keeps_placement() {
    let mut w = Weapon::new(WeaponTypes::Mine, false, 0, 1, 1, 1, 1, 1, 1, 1, 1, 1);
    w.x = 12_500;
    w.y = -3_000;
    w.aim_angle = 1_570;
    w.weapon_cooldown_timer = 200;
    w.burst_shots = 3;
    update_weapon_properties(&mut w, WeaponTypes::Missile);
    assert_eq!((w.x, w.y, w.aim_angle, w.weapon_cooldown_timer, w.burst_shots), (12_500, -3_000, 1_570, 200, 3));
    assert_eq!(w.weapon_type, WeaponTypes::Missile);
    assert!(w.heat_seeking);
    assert_eq!(w.heat_seeking_agility, 1_000);
    assert_eq!(w.weapon_cooldown_reset, 2_500);
    assert_eq!(w.burst_shot_limit, 1);
    assert_eq!(w.burst_cooldown_reset, 2_500);
    assert_eq!(w.weapon_shot_speed, 100_000);
    assert_eq!(w.damage, 50_000);
    assert_eq!(w.shield_damage_pct, 75_000);
    assert_eq!(w.armor_damage_pct, 75_000);
    assert_eq!(w.piercing_damage_pct, 10_000);
    assert_eq!(w.health_damage_pct, 100_000);
}

#[test]
fn update_matches_a_fresh_standard_weapon() {
    for t in ALL.iter() {
        let s = build_standard_weapon(*t);
        let fresh = Weapon::new(s.0, s.1, s.2, s.3, s.4, s.5, s.6, s.7, s.8, s.9, s.10, s.11);
        let mut w = Weapon::new(WeaponTypes::LaserSword, true, 7, 7, 7, 7, 7, 7, 7, 7, 7, 7);
        update_weapon_properties(&mut w, *t);
        assert_eq!(w.weapon_type, fresh.weapon_type);
        assert_eq!(w.heat_seeking, fresh.heat_seeking);
        assert_eq!(w.heat_seeking_agility, fresh.heat_seeking_agility);
        assert_eq!(w.weapon_cooldown_reset, fresh.weapon_cooldown_reset);
        assert_eq!(w.burst_shot_limit, fresh.burst_shot_limit);
        assert_eq!(w.burst_cooldown_reset, fresh.burst_cooldown_reset);
        assert_eq!(w.weapon_shot_speed, fresh.weapon_shot_speed);
        assert_eq!(w.damage, fresh.damage);
        assert_eq!(w.shield_damage_pct, fresh.shield_damage_pct);
        assert_eq!(w.armor_damage_pct, fresh.armor_damage_pct);
        assert_eq!(w.piercing_damage_pct, fresh.piercing_damage_pct);
        assert_eq!(w.health_damage_pct, fresh.health_damage_pct);
    }
}

#[test]
fn last_update_wins() {
    let mut a = Weapon::new(WeaponTypes::Mine, false, 0, 1, 1, 1, 1, 1, 1, 1, 1, 1);
    let mut b = a;
    update_weapon_properties(&mut a, WeaponTypes::Rockets);
    update_weapon_properties(&mut a, WeaponTypes::LaserBeam);
    update_weapon_properties(&mut b, WeaponTypes::LaserBeam);
    assert_eq!(a.weapon_type, b.weapon_type);
    assert_eq!(a.burst_shot_limit, b.burst_shot_limit);
    assert_eq!(a.burst_cooldown_reset, b.burst_cooldown_reset);
    assert_eq!(a.damage, b.damage);
    assert_eq!(a.weapon_shot_speed, b.weapon_shot_speed);
}

#[test]
fn shot_sizes() {
    let expected = [
        (WeaponTypes::LaserDouble, 3_000, 6_000),
        (WeaponTypes::LaserBeam, 1_000, 20_000),
        (WeaponTypes::LaserPulse, 1_000, 3_000),
        (WeaponTypes::ProjectileBurstFire, 1_000, 4_000),
        (WeaponTypes::ProjectileRapidFire, 1_000, 2_000),
        (WeaponTypes::ProjectileCannonFire, 2_000, 3_000),
        (WeaponTypes::Missile, 3_000, 5_000),
        (WeaponTypes::Rockets, 5_000, 3_000),
        (WeaponTypes::Mine, 3_000, 3_000),
        (WeaponTypes::LaserSword, 3_000, 4_000),
    ];
    for (t, width, height) in expected.iter() {
        let f = WeaponFire::new(*t, 2, false, 0, 400_000, 25_000, 120_000, 60_000, 0, 100_000);
        assert_eq!((f.width, f.height), (*width, *height));
        assert!(f.width > 0 && f.height > 0);
    }
}

#[test]
fn new_shot_keeps_its_impact_and_owner() {
    let f = WeaponFire::new(WeaponTypes::Missile, 3, true, 1_000, 100_000, 50_000, 75_000, 70_000, 10_000, 100_000);
    assert_eq!((f.dx, f.dy, f.spawn_x, f.spawn_y, f.spawn_angle), (0, 0, 0, 0, 0));
    assert_eq!(f.owner_player_id, 3);
    assert!(f.heat_seeking);
    assert_eq!(f.heat_seeking_agility, 1_000);
    assert_eq!(f.weapon_shot_speed, 100_000);
    assert_eq!(f.damage, 50_000);
    assert_eq!(f.shield_damage_pct, 75_000);
    assert_eq!(f.armor_damage_pct, 70_000);
    assert_eq!(f.piercing_damage_pct, 10_000);
    assert_eq!(f.health_damage_pct, 100_000);
    assert_eq!(f.weapon_type, WeaponTypes::Missile);
}
