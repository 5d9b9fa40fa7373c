pub mod weapons;

pub use self::weapons::{
    build_standard_weapon, get_next_weapon_type, update_weapon_properties, weapon_type_from_u8,
    Weapon, WeaponFire, WeaponTypes,
};
