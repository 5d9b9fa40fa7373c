use vstd::prelude::*;

verus! {

/// The kinds of weapon a vehicle can carry.
#[derive(Clone, Copy, Debug, PartialEq, Eq, Structural)]
pub enum WeaponTypes {
    LaserBeam,
    LaserPulse,
    LaserDouble,
    ProjectileRapidFire,
    ProjectileBurstFire,
    ProjectileCannonFire,
    Mine,
    Missile,
    Rockets,
    LaserSword,
}

/// The weapon named by each numeric code: code `n` names the `n`-th entry.
pub open spec fn weapon_codes() -> Seq<WeaponTypes> {
    seq![
        WeaponTypes::LaserDouble,
        WeaponTypes::LaserBeam,
        WeaponTypes::LaserPulse,
        WeaponTypes::ProjectileBurstFire,
        WeaponTypes::ProjectileRapidFire,
        WeaponTypes::ProjectileCannonFire,
        WeaponTypes::Missile,
        WeaponTypes::Rockets,
        WeaponTypes::Mine,
        WeaponTypes::LaserSword,
    ]
}

/// The weapon that a numeric code selects; codes without a weapon select the
/// first one, `LaserDouble`.
pub open spec fn weapon_of_code(n: int) -> WeaponTypes {
    if 0 <= n < weapon_codes().len() {
        weapon_codes()[n]
    } else {
        WeaponTypes::LaserDouble
    }
}

/// The order in which a player moves up through the weapons, starting from
/// `LaserDouble` and ending at `LaserSword`.
pub open spec fn weapon_progression() -> Seq<WeaponTypes> {
    seq![
        WeaponTypes::LaserDouble,
        WeaponTypes::ProjectileRapidFire,
        WeaponTypes::Missile,
        WeaponTypes::LaserBeam,
        WeaponTypes::ProjectileCannonFire,
        WeaponTypes::Rockets,
        WeaponTypes::LaserPulse,
        WeaponTypes::ProjectileBurstFire,
        WeaponTypes::Mine,
        WeaponTypes::LaserSword,
    ]
}

/// The position of a weapon in `weapon_progression()`.
pub open spec fn progression_rank(t: WeaponTypes) -> int {
    match t {
        WeaponTypes::LaserDouble => 0,
        WeaponTypes::ProjectileRapidFire => 1,
        WeaponTypes::Missile => 2,
        WeaponTypes::LaserBeam => 3,
        WeaponTypes::ProjectileCannonFire => 4,
        WeaponTypes::Rockets => 5,
        WeaponTypes::LaserPulse => 6,
        WeaponTypes::ProjectileBurstFire => 7,
        WeaponTypes::Mine => 8,
        WeaponTypes::LaserSword => 9,
    }
}

/// The weapon that follows `t` in the progression, if any.
pub open spec fn next_weapon(t: WeaponTypes) -> Option<WeaponTypes> {
    if progression_rank(t) + 1 < weapon_progression().len() {
        Some(weapon_progression()[progression_rank(t) + 1])
    } else {
        None
    }
}

/// Selects a weapon by its numeric code; a code without a weapon selects
/// `LaserDouble`.
pub fn weapon_type_from_u8(n: u8) -> (t: WeaponTypes)
    ensures
        t == weapon_of_code(n as int),
{
    match n {
        0 => WeaponTypes::LaserDouble,
        1 => WeaponTypes::LaserBeam,
        2 => WeaponTypes::LaserPulse,
        3 => WeaponTypes::ProjectileBurstFire,
        4 => WeaponTypes::ProjectileRapidFire,
        5 => WeaponTypes::ProjectileCannonFire,
        6 => WeaponTypes::Missile,
        7 => WeaponTypes::Rockets,
        8 => WeaponTypes::Mine,
        9 => WeaponTypes::LaserSword,
        _ => WeaponTypes::LaserDouble,
    }
}

/// The weapon that a player moves up to from `weapon_type`; `None` for the
/// last weapon of the progression, `LaserSword`.
pub fn get_next_weapon_type(weapon_type: WeaponTypes) -> (next: Option<WeaponTypes>)
    ensures
        next == next_weapon(weapon_type),
{
    match weapon_type {
        WeaponTypes::LaserDouble => Some(WeaponTypes::ProjectileRapidFire),
        WeaponTypes::ProjectileRapidFire => Some(WeaponTypes::Missile),
        WeaponTypes::Missile => Some(WeaponTypes::LaserBeam),
        WeaponTypes::LaserBeam => Some(WeaponTypes::ProjectileCannonFire),
        WeaponTypes::ProjectileCannonFire => Some(WeaponTypes::Rockets),
        WeaponTypes::Rockets => Some(WeaponTypes::LaserPulse),
        WeaponTypes::LaserPulse => Some(WeaponTypes::ProjectileBurstFire),
        WeaponTypes::ProjectileBurstFire => Some(WeaponTypes::Mine),
        WeaponTypes::Mine => Some(WeaponTypes::LaserSword),
        WeaponTypes::LaserSword => None,
    }
}


/// What `build_standard_weapon` hands back, in order: the weapon kind, whether
/// its shots seek heat, the heat-seeking agility, the cooldown between
/// shots, the shots per burst, the cooldown between the shots of a burst,
/// the shot speed, the damage, and the shield, armor, piercing and health
/// damage percentages. Quantities are in thousandths.
pub type StandardWeapon = (WeaponTypes, bool, i64, i64, u32, i64, i64, i64, i64, i64, i64, i64);

/// The stats table of each weapon kind, in thousandths, in this order:
/// shot speed, damage, cooldown, piercing %, shield %, armor %, health %.
pub open spec fn weapon_table(t: WeaponTypes) -> (i64, i64, i64, i64, i64, i64, i64) {
    match t {
        WeaponTypes::LaserDouble => (400_000, 25_000, 400, 0, 120_000, 60_000, 100_000),
        WeaponTypes::LaserBeam => (2_800_000, 300, 5, 0, 120_000, 60_000, 100_000),
        WeaponTypes::LaserPulse => (400_000, 12_000, 750, 0, 120_000, 60_000, 100_000),
        WeaponTypes::ProjectileBurstFire => (250_000, 12_000, 150, 0, 80_000, 90_000, 100_000),
        WeaponTypes::ProjectileRapidFire => (250_000, 3_000, 100, 0, 80_000, 90_000, 100_000),
        WeaponTypes::ProjectileCannonFire => (700_000, 50_000, 900, 0, 80_000, 90_000, 100_000),
        WeaponTypes::Missile => (100_000, 50_000, 2_500, 10_000, 75_000, 75_000, 100_000),
        WeaponTypes::Rockets => (250_000, 50_000, 800, 10_000, 75_000, 75_000, 100_000),
        WeaponTypes::Mine => (0, 50_000, 2_500, 10_000, 75_000, 75_000, 100_000),
        WeaponTypes::LaserSword => (0, 1_000, 1_000_000, 50_000, 75_000, 75_000, 100_000),
    }
}

/// The burst behaviour of a weapon kind whose shot cooldown is `cooldown`:
/// the cooldown between the shots of a burst and the shots per burst. The
/// burst weapons have their own; every other weapon fires single shots whose
/// burst cooldown is the shot cooldown.
pub open spec fn burst_profile(t: WeaponTypes, cooldown: i64) -> (i64, u32) {
    match t {
        WeaponTypes::LaserPulse => (100, 2),
        WeaponTypes::ProjectileBurstFire => (100, 2),
        WeaponTypes::Rockets => (250, 4),
        _ => (cooldown, 1),
    }
}

/// Whether a weapon kind's shots seek heat, and with what agility
/// (thousandths): only missiles do, with agility one.
pub open spec fn homing_profile(t: WeaponTypes) -> (bool, i64) {
    if t == WeaponTypes::Missile {
        (true, 1_000)
    } else {
        (false, 0)
    }
}

/// The standard configuration of a weapon kind.
pub open spec fn standard_weapon(t: WeaponTypes) -> StandardWeapon {
    let (speed, damage, cooldown, piercing, shield, armor, health) = weapon_table(t);
    let (burst_cooldown, burst_shot_limit) = burst_profile(t, cooldown);
    let (heat_seeking, agility) = homing_profile(t);
    (
        t,
        heat_seeking,
        agility,
        cooldown,
        burst_shot_limit,
        burst_cooldown,
        speed,
        damage,
        shield,
        armor,
        piercing,
        health,
    )
}

/// The standard configuration of a weapon kind: its stats table entry with
/// its burst and heat-seeking behaviour.
pub fn build_standard_weapon(weapon_type: WeaponTypes) -> (w: StandardWeapon)
    ensures
        w == standard_weapon(weapon_type),
{
    //                                                      speed      dmg     cooldwn  pierce%  shield%  armor%   health%
    let (weapon_shot_speed, damage, weapon_cooldown, piercing_damage_pct, shield_damage_pct, armor_damage_pct, health_damage_pct)
        = match weapon_type {
        WeaponTypes::LaserDouble =>          (400_000i64, 25_000i64, 400i64, 0i64, 120_000i64, 60_000i64, 100_000i64),
        WeaponTypes::LaserBeam =>            (2_800_000,  300,       5,         0,      120_000,    60_000,    100_000),
        WeaponTypes::LaserPulse =>           (400_000,    12_000,    750,       0,      120_000,    60_000,    100_000),
        WeaponTypes::ProjectileBurstFire =>  (250_000,    12_000,    150,       0,      80_000,     90_000,    100_000),
        WeaponTypes::ProjectileRapidFire =>  (250_000,    3_000,     100,       0,      80_000,     90_000,    100_000),
        WeaponTypes::ProjectileCannonFire => (700_000,    50_000,    900,       0,      80_000,     90_000,    100_000),
        WeaponTypes::Missile =>              (100_000,    50_000,    2_500,     10_000, 75_000,     75_000,    100_000),
        WeaponTypes::Rockets =>              (250_000,    50_000,    800,       10_000, 75_000,     75_000,    100_000),
        WeaponTypes::Mine =>                 (0,          50_000,    2_500,     10_000, 75_000,     75_000,    100_000),
        WeaponTypes::LaserSword =>           (0,          1_000,     1_000_000, 50_000, 75_000,     75_000,    100_000),
    };

    let (burst_cooldown, burst_shot_limit): (i64, u32) = match weapon_type {
        WeaponTypes::LaserPulse => (100, 2),
        WeaponTypes::ProjectileBurstFire => (100, 2),
        WeaponTypes::Rockets => (250, 4),
        _ => (weapon_cooldown, 1),
    };

    let (heat_seeking, heat_seeking_agility): (bool, i64) = match weapon_type {
        WeaponTypes::Missile => (true, 1_000),
        _ => (false, 0),
    };

    (
        weapon_type,
        heat_seeking,
        heat_seeking_agility,
        weapon_cooldown,
        burst_shot_limit,
        burst_cooldown,
        weapon_shot_speed,
        damage,
        shield_damage_pct,
        armor_damage_pct,
        piercing_damage_pct,
        health_damage_pct,
    )
}


/// A weapon mounted on a vehicle: where it sits and aims, its firing timers,
/// and its configuration. Quantities are in thousandths.
#[derive(Clone, Copy)]
pub struct Weapon {
    pub x: i64,
    pub y: i64,
    pub aim_angle: i64,
    pub weapon_type: WeaponTypes,
    pub heat_seeking: bool,
    pub heat_seeking_agility: i64,
    pub weapon_cooldown_timer: i64,
    pub weapon_cooldown_reset: i64,
    pub burst_shots: u32,
    pub burst_shot_limit: u32,
    pub burst_cooldown_reset: i64,
    pub damage: i64,
    pub weapon_shot_speed: i64,
    pub shield_damage_pct: i64,
    pub armor_damage_pct: i64,
    pub piercing_damage_pct: i64,
    pub health_damage_pct: i64,
}

impl Weapon {
    /// A weapon with the given configuration, placed at the origin, aimed at
    /// angle zero, with no shot of its burst fired and its cooldown timer at
    /// minus one (ready to fire).
    pub open spec fn initial(
        weapon_type: WeaponTypes,
        heat_seeking: bool,
        heat_seeking_agility: i64,
        weapon_cooldown: i64,
        burst_shot_limit: u32,
        burst_cooldown: i64,
        weapon_shot_speed: i64,
        damage: i64,
        shield_damage_pct: i64,
        armor_damage_pct: i64,
        piercing_damage_pct: i64,
        health_damage_pct: i64,
    ) -> Weapon {
        Weapon {
            x: 0,
            y: 0,
            aim_angle: 0,
            weapon_type,
            heat_seeking,
            heat_seeking_agility,
            weapon_cooldown_timer: -1_000i64,
            weapon_cooldown_reset: weapon_cooldown,
            burst_shots: 0,
            burst_shot_limit,
            burst_cooldown_reset: burst_cooldown,
            damage,
            weapon_shot_speed,
            shield_damage_pct,
            armor_damage_pct,
            piercing_damage_pct,
            health_damage_pct,
        }
    }

    /// This weapon reconfigured as the standard weapon of kind `t`: its
    /// position, aim, cooldown timer and burst count stay as they are.
    pub open spec fn with_standard_stats(self, t: WeaponTypes) -> Weapon {
        let s = standard_weapon(t);
        Weapon {
            weapon_type: s.0,
            heat_seeking: s.1,
            heat_seeking_agility: s.2,
            weapon_cooldown_reset: s.3,
            burst_shot_limit: s.4,
            burst_cooldown_reset: s.5,
            weapon_shot_speed: s.6,
            damage: s.7,
            shield_damage_pct: s.8,
            armor_damage_pct: s.9,
            piercing_damage_pct: s.10,
            health_damage_pct: s.11,
            ..self
        }
    }

    /// Creates a weapon with the given configuration, ready to fire.
    pub fn new(
        weapon_type: WeaponTypes,
        heat_seeking: bool,
        heat_seeking_agility: i64,
        weapon_cooldown: i64,
        burst_shot_limit: u32,
        burst_cooldown: i64,
        weapon_shot_speed: i64,
        damage: i64,
        shield_damage_pct: i64,
        armor_damage_pct: i64,
        piercing_damage_pct: i64,
        health_damage_pct: i64,
    ) -> (w: Weapon)
        ensures
            w == Weapon::initial(
                weapon_type,
                heat_seeking,
                heat_seeking_agility,
                weapon_cooldown,
                burst_shot_limit,
                burst_cooldown,
                weapon_shot_speed,
                damage,
                shield_damage_pct,
                armor_damage_pct,
                piercing_damage_pct,
                health_damage_pct,
            ),
            w.x == 0,
            w.y == 0,
            w.aim_angle == 0,
            w.weapon_type == weapon_type,
            w.heat_seeking == heat_seeking,
            w.heat_seeking_agility == heat_seeking_agility,
            w.weapon_cooldown_timer == -1_000,
            w.weapon_cooldown_reset == weapon_cooldown,
            w.burst_shots == 0,
            w.burst_shot_limit == burst_shot_limit,
            w.burst_cooldown_reset == burst_cooldown,
            w.damage == damage,
            w.weapon_shot_speed == weapon_shot_speed,
            w.shield_damage_pct == shield_damage_pct,
            w.armor_damage_pct == armor_damage_pct,
            w.piercing_damage_pct == piercing_damage_pct,
            w.health_damage_pct == health_damage_pct,
    {
        Weapon {
            x: 0,
            y: 0,
            aim_angle: 0,
            weapon_type,
            heat_seeking,
            heat_seeking_agility,
            weapon_cooldown_timer: -1_000,
            weapon_cooldown_reset: weapon_cooldown,
            burst_shots: 0,
            burst_shot_limit: burst_shot_limit,
            burst_cooldown_reset: burst_cooldown,
            damage: damage,
            weapon_shot_speed: weapon_shot_speed,
            shield_damage_pct: shield_damage_pct,
            armor_damage_pct: armor_damage_pct,
            piercing_damage_pct: piercing_damage_pct,
            health_damage_pct: health_damage_pct,
        }
    }
}

/// Reconfigures `weapon` as the standard weapon of kind `weapon_type`,
/// keeping its position, aim, cooldown timer and burst count.
pub fn update_weapon_properties(weapon: &mut Weapon, weapon_type: WeaponTypes)
    ensures
        *final(weapon) == old(weapon).with_standard_stats(weapon_type),
        final(weapon).x == old(weapon).x,
        final(weapon).y == old(weapon).y,
        final(weapon).aim_angle == old(weapon).aim_angle,
        final(weapon).weapon_cooldown_timer == old(weapon).weapon_cooldown_timer,
        final(weapon).burst_shots == old(weapon).burst_shots,
        final(weapon).weapon_type == weapon_type,
        final(weapon).heat_seeking == standard_weapon(weapon_type).1,
        final(weapon).heat_seeking_agility == standard_weapon(weapon_type).2,
        final(weapon).weapon_cooldown_reset == standard_weapon(weapon_type).3,
        final(weapon).burst_shot_limit == standard_weapon(weapon_type).4,
        final(weapon).burst_cooldown_reset == standard_weapon(weapon_type).5,
        final(weapon).weapon_shot_speed == standard_weapon(weapon_type).6,
        final(weapon).damage == standard_weapon(weapon_type).7,
        final(weapon).shield_damage_pct == standard_weapon(weapon_type).8,
        final(weapon).armor_damage_pct == standard_weapon(weapon_type).9,
        final(weapon).piercing_damage_pct == standard_weapon(weapon_type).10,
        final(weapon).health_damage_pct == standard_weapon(weapon_type).11,
{
    let (
        weapon_type,
        heat_seeking,
        heat_seeking_agility,
        weapon_cooldown,
        burst_shot_limit,
        burst_cooldown,
        weapon_shot_speed,
        damage,
        shield_damage_pct,
        armor_damage_pct,
        piercing_damage_pct,
        health_damage_pct,
    ) = build_standard_weapon(weapon_type);

    weapon.weapon_type = weapon_type;
    weapon.heat_seeking = heat_seeking;
    weapon.heat_seeking_agility = heat_seeking_agility;
    weapon.weapon_cooldown_reset = weapon_cooldown;
    weapon.burst_shot_limit = burst_shot_limit;
    weapon.burst_cooldown_reset = burst_cooldown;
    weapon.weapon_shot_speed = weapon_shot_speed;
    weapon.damage = damage;
    weapon.shield_damage_pct = shield_damage_pct;
    weapon.armor_damage_pct = armor_damage_pct;
    weapon.piercing_damage_pct = piercing_damage_pct;
    weapon.health_damage_pct = health_damage_pct;
}

/// The width and height (thousandths) of a shot of each weapon kind.
pub open spec fn fire_dimensions(t: WeaponTypes) -> (i64, i64) {
    match t {
        WeaponTypes::LaserDouble => (3_000, 6_000),
        WeaponTypes::LaserBeam => (1_000, 20_000),
        WeaponTypes::LaserPulse => (1_000, 3_000),
        WeaponTypes::ProjectileBurstFire => (1_000, 4_000),
        WeaponTypes::ProjectileRapidFire => (1_000, 2_000),
        WeaponTypes::ProjectileCannonFire => (2_000, 3_000),
        WeaponTypes::Missile => (3_000, 5_000),
        WeaponTypes::Rockets => (5_000, 3_000),
        WeaponTypes::Mine => (3_000, 3_000),
        WeaponTypes::LaserSword => (3_000, 4_000),
    }
}

/// A shot in flight: its size, velocity, where and at what angle it was
/// fired, who fired it and what it does on impact. Quantities are in
/// thousandths.
#[derive(Clone, Copy)]
pub struct WeaponFire {
    pub width: i64,
    pub height: i64,
    pub dx: i64,
    pub dy: i64,
    pub spawn_x: i64,
    pub spawn_y: i64,
    pub spawn_angle: i64,
    pub weapon_shot_speed: i64,
    pub owner_player_id: usize,
    pub damage: i64,
    pub shield_damage_pct: i64,
    pub armor_damage_pct: i64,
    pub piercing_damage_pct: i64,
    pub health_damage_pct: i64,
    pub heat_seeking: bool,
    pub heat_seeking_agility: i64,
    pub weapon_type: WeaponTypes,
}

impl WeaponFire {
    /// A shot of kind `weapon_type` with the given owner and impact, sized by
    /// its kind, at rest at the origin with spawn angle zero.
    pub open spec fn initial(
        weapon_type: WeaponTypes,
        owner_player_id: usize,
        heat_seeking: bool,
        heat_seeking_agility: i64,
        weapon_shot_speed: i64,
        damage: i64,
        shield_damage_pct: i64,
        armor_damage_pct: i64,
        piercing_damage_pct: i64,
        health_damage_pct: i64,
    ) -> WeaponFire {
        WeaponFire {
            width: fire_dimensions(weapon_type).0,
            height: fire_dimensions(weapon_type).1,
            dx: 0,
            dy: 0,
            spawn_x: 0,
            spawn_y: 0,
            spawn_angle: 0,
            owner_player_id,
            damage,
            weapon_shot_speed,
            shield_damage_pct,
            armor_damage_pct,
            piercing_damage_pct,
            health_damage_pct,
            heat_seeking,
            heat_seeking_agility,
            weapon_type,
        }
    }

    /// Creates a shot of kind `weapon_type`, sized by its kind.
    pub fn new(
        weapon_type: WeaponTypes,
        owner_player_id: usize,
        heat_seeking: bool,
        heat_seeking_agility: i64,
        weapon_shot_speed: i64,
        damage: i64,
        shield_damage_pct: i64,
        armor_damage_pct: i64,
        piercing_damage_pct: i64,
        health_damage_pct: i64,
    ) -> (f: WeaponFire)
        ensures
            f == WeaponFire::initial(
                weapon_type,
                owner_player_id,
                heat_seeking,
                heat_seeking_agility,
                weapon_shot_speed,
                damage,
                shield_damage_pct,
                armor_damage_pct,
                piercing_damage_pct,
                health_damage_pct,
            ),
            f.width == fire_dimensions(weapon_type).0,
            f.height == fire_dimensions(weapon_type).1,
            f.dx == 0,
            f.dy == 0,
            f.spawn_x == 0,
            f.spawn_y == 0,
            f.spawn_angle == 0,
            f.weapon_shot_speed == weapon_shot_speed,
            f.owner_player_id == owner_player_id,
            f.damage == damage,
            f.shield_damage_pct == shield_damage_pct,
            f.armor_damage_pct == armor_damage_pct,
            f.piercing_damage_pct == piercing_damage_pct,
            f.health_damage_pct == health_damage_pct,
            f.heat_seeking == heat_seeking,
            f.heat_seeking_agility == heat_seeking_agility,
            f.weapon_type == weapon_type,
    {
        let (width, height): (i64, i64) = match weapon_type {
            WeaponTypes::LaserDouble => (3_000, 6_000),
            WeaponTypes::LaserBeam => (1_000, 20_000),
            WeaponTypes::LaserPulse => (1_000, 3_000),
            WeaponTypes::ProjectileBurstFire => (1_000, 4_000),
            WeaponTypes::ProjectileRapidFire => (1_000, 2_000),
            WeaponTypes::ProjectileCannonFire => (2_000, 3_000),
            WeaponTypes::Missile => (3_000, 5_000),
            WeaponTypes::Rockets => (5_000, 3_000),
            WeaponTypes::Mine => (3_000, 3_000),
            WeaponTypes::LaserSword => (3_000, 4_000),
        };

        WeaponFire {
            width,
            height,
            dx: 0,
            dy: 0,
            spawn_x: 0,
            spawn_y: 0,
            spawn_angle: 0,
            owner_player_id,
            damage: damage,
            weapon_shot_speed: weapon_shot_speed,
            shield_damage_pct: shield_damage_pct,
            armor_damage_pct: armor_damage_pct,
            piercing_damage_pct: piercing_damage_pct,
            health_damage_pct: health_damage_pct,
            heat_seeking,
            heat_seeking_agility,
            weapon_type,
        }
    }
}


/// Where a player stands after moving up `k` times from weapon `t`: `None`
/// once the progression has run out.
pub open spec fn advance(t: WeaponTypes, k: nat) -> Option<WeaponTypes>
    decreases k,
{
    if k == 0 {
        Some(t)
    } else {
        match next_weapon(t) {
            Some(n) => advance(n, (k - 1) as nat),
            None => None,
        }
    }
}

/// Every weapon kind has a numeric code below ten.
pub proof fn lemma_every_weapon_has_a_code(t: WeaponTypes)
    ensures
        exists|n: int| 0 <= n < 10 && #[trigger] weapon_of_code(n) == t,
{
    match t {
        WeaponTypes::LaserDouble => assert(weapon_of_code(0) == t),
        WeaponTypes::LaserBeam => assert(weapon_of_code(1) == t),
        WeaponTypes::LaserPulse => assert(weapon_of_code(2) == t),
        WeaponTypes::ProjectileBurstFire => assert(weapon_of_code(3) == t),
        WeaponTypes::ProjectileRapidFire => assert(weapon_of_code(4) == t),
        WeaponTypes::ProjectileCannonFire => assert(weapon_of_code(5) == t),
        WeaponTypes::Missile => assert(weapon_of_code(6) == t),
        WeaponTypes::Rockets => assert(weapon_of_code(7) == t),
        WeaponTypes::Mine => assert(weapon_of_code(8) == t),
        WeaponTypes::LaserSword => assert(weapon_of_code(9) == t),
    }
}

/// The ten codes below ten name ten different weapon kinds.
pub proof fn lemma_codes_name_distinct_weapons(n: int, m: int)
    requires
        0 <= n < 10,
        0 <= m < 10,
        weapon_of_code(n) == weapon_of_code(m),
    ensures
        n == m,
{
}

/// A code of ten or more names `LaserDouble`, as code zero does.
pub proof fn lemma_unknown_code_is_first_weapon(n: int)
    requires
        n >= 10,
    ensures
        weapon_of_code(n) == weapon_of_code(0),
        weapon_of_code(n) == WeaponTypes::LaserDouble,
{
}

/// Every weapon kind has its place in the progression, and moving up from a
/// weapon leads to the weapon one place further; only the last weapon,
/// `LaserSword`, has nothing above it.
pub proof fn lemma_next_moves_one_place_up(t: WeaponTypes)
    ensures
        0 <= progression_rank(t) < weapon_progression().len(),
        weapon_progression()[progression_rank(t)] == t,
        match next_weapon(t) {
            Some(n) => progression_rank(n) == progression_rank(t) + 1,
            None => t == WeaponTypes::LaserSword,
        },
{
}

/// No two weapons move up to the same weapon, and no weapon moves up to the
/// first one, `LaserDouble`.
pub proof fn lemma_next_is_injective(a: WeaponTypes, b: WeaponTypes)
    requires
        next_weapon(a) is Some,
        next_weapon(a) == next_weapon(b),
    ensures
        a == b,
        next_weapon(a) != Some(WeaponTypes::LaserDouble),
{
}

/// Moving up from `LaserDouble` reaches every weapon kind, the kind of rank
/// `k` after `k` steps, and runs out after the tenth weapon.
pub proof fn lemma_progression_reaches_every_weapon(t: WeaponTypes)
    ensures
        advance(WeaponTypes::LaserDouble, progression_rank(t) as nat) == Some(t),
        advance(WeaponTypes::LaserDouble, 10) is None,
{
    reveal_with_fuel(advance, 11);
}

/// What every standard weapon shares: it is of the kind asked for; it seeks
/// heat exactly when it is a missile, with agility one, and otherwise has
/// agility zero; it fires at least one shot per burst, and a single-shot
/// weapon's burst cooldown is its shot cooldown; its cooldown is positive,
/// its other stats are not negative, and it deals its full damage to health.
pub proof fn lemma_standard_weapon_profile(t: WeaponTypes)
    ensures
        standard_weapon(t).0 == t,
        standard_weapon(t).1 <==> t == WeaponTypes::Missile,
        standard_weapon(t).1 ==> standard_weapon(t).2 == 1_000,
        !standard_weapon(t).1 ==> standard_weapon(t).2 == 0,
        standard_weapon(t).4 >= 1,
        standard_weapon(t).4 == 1 ==> standard_weapon(t).5 == standard_weapon(t).3,
        standard_weapon(t).3 > 0,
        standard_weapon(t).5 > 0,
        standard_weapon(t).6 >= 0,
        standard_weapon(t).7 > 0,
        standard_weapon(t).8 >= 0,
        standard_weapon(t).9 >= 0,
        standard_weapon(t).10 >= 0,
        standard_weapon(t).11 == 100_000,
{
}

/// Reconfiguring a weapon as a standard weapon gives it exactly the
/// configuration of a new weapon built from that standard weapon; only its
/// position, aim, cooldown timer and burst count carry over.
pub proof fn lemma_reconfigured_weapon_is_standard(w: Weapon, t: WeaponTypes)
    ensures
        ({
            let s = standard_weapon(t);
            let fresh = Weapon::initial(s.0, s.1, s.2, s.3, s.4, s.5, s.6, s.7, s.8, s.9, s.10, s.11);
            w.with_standard_stats(t) == Weapon {
                x: w.x,
                y: w.y,
                aim_angle: w.aim_angle,
                weapon_cooldown_timer: w.weapon_cooldown_timer,
                burst_shots: w.burst_shots,
                ..fresh
            }
        }),
{
}

/// Reconfiguring a weapon twice is the same as reconfiguring it once with the
/// second kind; in particular, reconfiguring with the same kind again changes
/// nothing.
pub proof fn lemma_last_reconfiguration_wins(w: Weapon, a: WeaponTypes, b: WeaponTypes)
    ensures
        w.with_standard_stats(a).with_standard_stats(b) == w.with_standard_stats(b),
        w.with_standard_stats(a).with_standard_stats(a) == w.with_standard_stats(a),
{
}

/// Every kind of shot has a positive width and height.
pub proof fn lemma_fire_dimensions_positive(t: WeaponTypes)
    ensures
        fire_dimensions(t).0 > 0,
        fire_dimensions(t).1 > 0,
{
}

/// The standard weapon of each kind, stat by stat, in the order of
/// `StandardWeapon`: kind, heat seeking, agility, cooldown, shots per burst,
/// burst cooldown, shot speed, damage, shield %, armor %, piercing %,
/// health % (thousandths).
pub proof fn lemma_standard_weapon_rows(t: WeaponTypes)
    ensures
        t == WeaponTypes::LaserDouble ==> standard_weapon(t) == (WeaponTypes::LaserDouble, false, 0i64,
            400i64, 1u32, 400i64, 400_000i64, 25_000i64, 120_000i64, 60_000i64, 0i64, 100_000i64),
        t == WeaponTypes::LaserBeam ==> standard_weapon(t) == (WeaponTypes::LaserBeam, false, 0i64,
            5i64, 1u32, 5i64, 2_800_000i64, 300i64, 120_000i64, 60_000i64, 0i64, 100_000i64),
        t == WeaponTypes::LaserPulse ==> standard_weapon(t) == (WeaponTypes::LaserPulse, false, 0i64,
            750i64, 2u32, 100i64, 400_000i64, 12_000i64, 120_000i64, 60_000i64, 0i64, 100_000i64),
        t == WeaponTypes::ProjectileBurstFire ==> standard_weapon(t) == (
            WeaponTypes::ProjectileBurstFire, false, 0i64, 150i64, 2u32, 100i64, 250_000i64,
            12_000i64, 80_000i64, 90_000i64, 0i64, 100_000i64),
        t == WeaponTypes::ProjectileRapidFire ==> standard_weapon(t) == (
            WeaponTypes::ProjectileRapidFire, false, 0i64, 100i64, 1u32, 100i64, 250_000i64,
            3_000i64, 80_000i64, 90_000i64, 0i64, 100_000i64),
        t == WeaponTypes::ProjectileCannonFire ==> standard_weapon(t) == (
            WeaponTypes::ProjectileCannonFire, false, 0i64, 900i64, 1u32, 900i64, 700_000i64,
            50_000i64, 80_000i64, 90_000i64, 0i64, 100_000i64),
        t == WeaponTypes::Missile ==> standard_weapon(t) == (WeaponTypes::Missile, true, 1_000i64,
            2_500i64, 1u32, 2_500i64, 100_000i64, 50_000i64, 75_000i64, 75_000i64, 10_000i64,
            100_000i64),
        t == WeaponTypes::Rockets ==> standard_weapon(t) == (WeaponTypes::Rockets, false, 0i64,
            800i64, 4u32, 250i64, 250_000i64, 50_000i64, 75_000i64, 75_000i64, 10_000i64,
            100_000i64),
        t == WeaponTypes::Mine ==> standard_weapon(t) == (WeaponTypes::Mine, false, 0i64, 2_500i64,
            1u32, 2_500i64, 0i64, 50_000i64, 75_000i64, 75_000i64, 10_000i64, 100_000i64),
        t == WeaponTypes::LaserSword ==> standard_weapon(t) == (WeaponTypes::LaserSword, false, 0i64,
            1_000_000i64, 1u32, 1_000_000i64, 0i64, 1_000i64, 75_000i64, 75_000i64, 50_000i64,
            100_000i64),
{
}

/// Only the pulse laser and the burst-fire gun fire two shots per burst,
/// a tenth of a second apart; only the rockets fire four, a quarter of a
/// second apart; every other weapon fires single shots, whose burst cooldown
/// is its shot cooldown.
pub proof fn lemma_burst_shots_by_kind(t: WeaponTypes)
    ensures
        standard_weapon(t).4 == 2 <==> (t == WeaponTypes::LaserPulse || t
            == WeaponTypes::ProjectileBurstFire),
        standard_weapon(t).4 == 4 <==> t == WeaponTypes::Rockets,
        standard_weapon(t).4 == 1 <==> !(t == WeaponTypes::LaserPulse || t
            == WeaponTypes::ProjectileBurstFire || t == WeaponTypes::Rockets),
        standard_weapon(t).4 == 2 ==> standard_weapon(t).5 == 100,
        standard_weapon(t).4 == 4 ==> standard_weapon(t).5 == 250,
        standard_weapon(t).4 == 1 ==> standard_weapon(t).5 == standard_weapon(t).3,
{
}

/// The damage percentages go by family: lasers deal 120% to shields and 60%
/// to armor, projectiles 80% and 90%, and the explosives and the sword 75%
/// and 75%; only the explosives (10%) and the sword (50%) pierce; every weapon
/// deals 100% to health.
pub proof fn lemma_damage_percentages_by_family(t: WeaponTypes)
    ensures
        (t == WeaponTypes::LaserDouble || t == WeaponTypes::LaserBeam || t
            == WeaponTypes::LaserPulse) ==> standard_weapon(t).8 == 120_000 && standard_weapon(t).9
            == 60_000 && standard_weapon(t).10 == 0,
        (t == WeaponTypes::ProjectileBurstFire || t == WeaponTypes::ProjectileRapidFire || t
            == WeaponTypes::ProjectileCannonFire) ==> standard_weapon(t).8 == 80_000
            && standard_weapon(t).9 == 90_000 && standard_weapon(t).10 == 0,
        (t == WeaponTypes::Missile || t == WeaponTypes::Rockets || t == WeaponTypes::Mine)
            ==> standard_weapon(t).8 == 75_000 && standard_weapon(t).9 == 75_000
            && standard_weapon(t).10 == 10_000,
        t == WeaponTypes::LaserSword ==> standard_weapon(t).8 == 75_000 && standard_weapon(t).9
            == 75_000 && standard_weapon(t).10 == 50_000,
        standard_weapon(t).11 == 100_000,
{
}

/// A reconfigured weapon takes each stat from the matching place of the
/// standard weapon of its new kind, and keeps its own position, aim, cooldown
/// timer and burst count.
pub proof fn lemma_reconfigured_fields(w: Weapon, t: WeaponTypes)
    ensures
        w.with_standard_stats(t).x == w.x,
        w.with_standard_stats(t).y == w.y,
        w.with_standard_stats(t).aim_angle == w.aim_angle,
        w.with_standard_stats(t).weapon_cooldown_timer == w.weapon_cooldown_timer,
        w.with_standard_stats(t).burst_shots == w.burst_shots,
        w.with_standard_stats(t).weapon_type == t,
        w.with_standard_stats(t).heat_seeking == standard_weapon(t).1,
        w.with_standard_stats(t).heat_seeking_agility == standard_weapon(t).2,
        w.with_standard_stats(t).weapon_cooldown_reset == standard_weapon(t).3,
        w.with_standard_stats(t).burst_shot_limit == standard_weapon(t).4,
        w.with_standard_stats(t).burst_cooldown_reset == standard_weapon(t).5,
        w.with_standard_stats(t).weapon_shot_speed == standard_weapon(t).6,
        w.with_standard_stats(t).damage == standard_weapon(t).7,
        w.with_standard_stats(t).shield_damage_pct == standard_weapon(t).8,
        w.with_standard_stats(t).armor_damage_pct == standard_weapon(t).9,
        w.with_standard_stats(t).piercing_damage_pct == standard_weapon(t).10,
        w.with_standard_stats(t).health_damage_pct == standard_weapon(t).11,
{
}

/// A new weapon stores each configuration argument in the field of the same
/// name, sits at the origin aimed at angle zero, has fired no shot of its
/// burst and has its cooldown timer at minus one.
pub proof fn lemma_new_weapon_fields(
    weapon_type: WeaponTypes,
    heat_seeking: bool,
    heat_seeking_agility: i64,
    weapon_cooldown: i64,
    burst_shot_limit: u32,
    burst_cooldown: i64,
    weapon_shot_speed: i64,
    damage: i64,
    shield_damage_pct: i64,
    armor_damage_pct: i64,
    piercing_damage_pct: i64,
    health_damage_pct: i64,
)
    ensures
        ({
            let w = Weapon::initial(
                weapon_type,
                heat_seeking,
                heat_seeking_agility,
                weapon_cooldown,
                burst_shot_limit,
                burst_cooldown,
                weapon_shot_speed,
                damage,
                shield_damage_pct,
                armor_damage_pct,
                piercing_damage_pct,
                health_damage_pct,
            );
            &&& w.x == 0 && w.y == 0 && w.aim_angle == 0
            &&& w.weapon_cooldown_timer == -1_000 && w.burst_shots == 0
            &&& w.weapon_type == weapon_type
            &&& w.heat_seeking == heat_seeking
            &&& w.heat_seeking_agility == heat_seeking_agility
            &&& w.weapon_cooldown_reset == weapon_cooldown
            &&& w.burst_shot_limit == burst_shot_limit
            &&& w.burst_cooldown_reset == burst_cooldown
            &&& w.weapon_shot_speed == weapon_shot_speed
            &&& w.damage == damage
            &&& w.shield_damage_pct == shield_damage_pct
            &&& w.armor_damage_pct == armor_damage_pct
            &&& w.piercing_damage_pct == piercing_damage_pct
            &&& w.health_damage_pct == health_damage_pct
        }),
{
}

/// The width and height of each kind of shot, in thousandths.
pub proof fn lemma_fire_dimension_rows(t: WeaponTypes)
    ensures
        t == WeaponTypes::LaserDouble ==> fire_dimensions(t) == (3_000i64, 6_000i64),
        t == WeaponTypes::LaserBeam ==> fire_dimensions(t) == (1_000i64, 20_000i64),
        t == WeaponTypes::LaserPulse ==> fire_dimensions(t) == (1_000i64, 3_000i64),
        t == WeaponTypes::ProjectileBurstFire ==> fire_dimensions(t) == (1_000i64, 4_000i64),
        t == WeaponTypes::ProjectileRapidFire ==> fire_dimensions(t) == (1_000i64, 2_000i64),
        t == WeaponTypes::ProjectileCannonFire ==> fire_dimensions(t) == (2_000i64, 3_000i64),
        t == WeaponTypes::Missile ==> fire_dimensions(t) == (3_000i64, 5_000i64),
        t == WeaponTypes::Rockets ==> fire_dimensions(t) == (5_000i64, 3_000i64),
        t == WeaponTypes::Mine ==> fire_dimensions(t) == (3_000i64, 3_000i64),
        t == WeaponTypes::LaserSword ==> fire_dimensions(t) == (3_000i64, 4_000i64),
{
}

/// A shot's size depends on its kind alone: two shots of the same kind have
/// the same width and height whatever their owners, heat seeking and impact,
/// and that size is the size of the kind.
pub proof fn lemma_shot_size_depends_only_on_kind(
    t: WeaponTypes,
    owner_a: usize,
    seeking_a: bool,
    agility_a: i64,
    speed_a: i64,
    damage_a: i64,
    shield_a: i64,
    armor_a: i64,
    piercing_a: i64,
    health_a: i64,
    owner_b: usize,
    seeking_b: bool,
    agility_b: i64,
    speed_b: i64,
    damage_b: i64,
    shield_b: i64,
    armor_b: i64,
    piercing_b: i64,
    health_b: i64,
)
    ensures
        ({
            let a = WeaponFire::initial(t, owner_a, seeking_a, agility_a, speed_a, damage_a,
                shield_a, armor_a, piercing_a, health_a);
            let b = WeaponFire::initial(t, owner_b, seeking_b, agility_b, speed_b, damage_b,
                shield_b, armor_b, piercing_b, health_b);
            &&& a.width == b.width && a.height == b.height
            &&& a.width == fire_dimensions(t).0 && a.height == fire_dimensions(t).1
        }),
{
}

/// A new shot stores each argument in the field of the same name and starts
/// at rest at the origin with spawn angle zero.
pub proof fn lemma_new_shot_fields(
    weapon_type: WeaponTypes,
    owner_player_id: usize,
    heat_seeking: bool,
    heat_seeking_agility: i64,
    weapon_shot_speed: i64,
    damage: i64,
    shield_damage_pct: i64,
    armor_damage_pct: i64,
    piercing_damage_pct: i64,
    health_damage_pct: i64,
)
    ensures
        ({
            let f = WeaponFire::initial(
                weapon_type,
                owner_player_id,
                heat_seeking,
                heat_seeking_agility,
                weapon_shot_speed,
                damage,
                shield_damage_pct,
                armor_damage_pct,
                piercing_damage_pct,
                health_damage_pct,
            );
            &&& f.dx == 0 && f.dy == 0 && f.spawn_x == 0 && f.spawn_y == 0 && f.spawn_angle == 0
            &&& f.weapon_type == weapon_type
            &&& f.owner_player_id == owner_player_id
            &&& f.heat_seeking == heat_seeking
            &&& f.heat_seeking_agility == heat_seeking_agility
            &&& f.weapon_shot_speed == weapon_shot_speed
            &&& f.damage == damage
            &&& f.shield_damage_pct == shield_damage_pct
            &&& f.armor_damage_pct == armor_damage_pct
            &&& f.piercing_damage_pct == piercing_damage_pct
            &&& f.health_damage_pct == health_damage_pct
        }),
{
}

/// The weapon each numeric code selects.
pub proof fn lemma_code_rows(n: int)
    ensures
        n == 0 ==> weapon_of_code(n) == WeaponTypes::LaserDouble,
        n == 1 ==> weapon_of_code(n) == WeaponTypes::LaserBeam,
        n == 2 ==> weapon_of_code(n) == WeaponTypes::LaserPulse,
        n == 3 ==> weapon_of_code(n) == WeaponTypes::ProjectileBurstFire,
        n == 4 ==> weapon_of_code(n) == WeaponTypes::ProjectileRapidFire,
        n == 5 ==> weapon_of_code(n) == WeaponTypes::ProjectileCannonFire,
        n == 6 ==> weapon_of_code(n) == WeaponTypes::Missile,
        n == 7 ==> weapon_of_code(n) == WeaponTypes::Rockets,
        n == 8 ==> weapon_of_code(n) == WeaponTypes::Mine,
        n == 9 ==> weapon_of_code(n) == WeaponTypes::LaserSword,
        (n < 0 || n > 9) ==> weapon_of_code(n) == WeaponTypes::LaserDouble,
{
}

/// The weapon a player moves up to from each weapon.
pub proof fn lemma_next_weapon_rows(t: WeaponTypes)
    ensures
        t == WeaponTypes::LaserDouble ==> next_weapon(t) == Some(WeaponTypes::ProjectileRapidFire),
        t == WeaponTypes::ProjectileRapidFire ==> next_weapon(t) == Some(WeaponTypes::Missile),
        t == WeaponTypes::Missile ==> next_weapon(t) == Some(WeaponTypes::LaserBeam),
        t == WeaponTypes::LaserBeam ==> next_weapon(t) == Some(WeaponTypes::ProjectileCannonFire),
        t == WeaponTypes::ProjectileCannonFire ==> next_weapon(t) == Some(WeaponTypes::Rockets),
        t == WeaponTypes::Rockets ==> next_weapon(t) == Some(WeaponTypes::LaserPulse),
        t == WeaponTypes::LaserPulse ==> next_weapon(t) == Some(WeaponTypes::ProjectileBurstFire),
        t == WeaponTypes::ProjectileBurstFire ==> next_weapon(t) == Some(WeaponTypes::Mine),
        t == WeaponTypes::Mine ==> next_weapon(t) == Some(WeaponTypes::LaserSword),
        t == WeaponTypes::LaserSword ==> next_weapon(t) is None,
{
}

} // verus!
