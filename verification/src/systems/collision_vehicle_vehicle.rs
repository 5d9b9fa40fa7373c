use vstd::prelude::*;

verus! {

/// The system that resolves collisions between vehicles.
pub struct CollisionVehToVehSystem;

impl Default for CollisionVehToVehSystem {
    fn default() -> (s: Self)
        ensures
            s == CollisionVehToVehSystem,
    {
        CollisionVehToVehSystem
    }
}

/// What the vehicle-to-vehicle collision system does to one vehicle in one
/// frame.
#[derive(Clone, Copy, Debug, PartialEq, Eq, Structural)]
pub enum VehicleCollisionAction {
    /// The vehicle touched no other vehicle: nothing changes.
    Unaffected,
    /// The vehicle touched another one while its collision cooldown was still
    /// running: the cooldown runs down by the frame's time.
    CoolDown,
    /// The vehicle takes collision damage in proportion to the difference of
    /// speed and its collision cooldown starts again at one second; the bounce
    /// sound plays when the difference of speed is above one.
    Impact { play_bounce_sound: bool },
}

/// The action for a vehicle that `collided` (touched another player's vehicle
/// this frame) with its collision cooldown `cooldown_expired` (at or below
/// zero) and a `hard_impact` (difference of speed above one).
pub open spec fn vehicle_collision_action(
    collided: bool,
    cooldown_expired: bool,
    hard_impact: bool,
) -> VehicleCollisionAction {
    if !collided {
        VehicleCollisionAction::Unaffected
    } else if cooldown_expired {
        VehicleCollisionAction::Impact { play_bounce_sound: hard_impact }
    } else {
        VehicleCollisionAction::CoolDown
    }
}

impl CollisionVehToVehSystem {
    /// Decides what happens to one vehicle this frame: see
    /// `vehicle_collision_action`.
    pub fn collision_action(collided: bool, cooldown_expired: bool, hard_impact: bool) -> (a:
        VehicleCollisionAction)
        ensures
            a == vehicle_collision_action(collided, cooldown_expired, hard_impact),
            !collided ==> a == VehicleCollisionAction::Unaffected,
            collided && !cooldown_expired ==> a == VehicleCollisionAction::CoolDown,
            collided && cooldown_expired ==> a == (VehicleCollisionAction::Impact {
                play_bounce_sound: hard_impact,
            }),
    {
        if collided {
            if cooldown_expired {
                VehicleCollisionAction::Impact { play_bounce_sound: hard_impact }
            } else {
                VehicleCollisionAction::CoolDown
            }
        } else {
            VehicleCollisionAction::Unaffected
        }
    }
}

/// A vehicle takes collision damage only when it touched another vehicle and
/// its cooldown had run out, and the bounce sound plays only with such damage
/// and only for a hard impact.
pub proof fn lemma_damage_needs_contact_and_expired_cooldown(
    collided: bool,
    cooldown_expired: bool,
    hard_impact: bool,
)
    ensures
        (vehicle_collision_action(collided, cooldown_expired, hard_impact) is Impact) <==> (collided
            && cooldown_expired),
        vehicle_collision_action(collided, cooldown_expired, hard_impact) == (
        VehicleCollisionAction::Impact { play_bounce_sound: true }) ==> collided && cooldown_expired
            && hard_impact,
        !collided ==> vehicle_collision_action(collided, cooldown_expired, hard_impact)
            == VehicleCollisionAction::Unaffected,
{
}

/// A vehicle is unaffected exactly when it touched no other vehicle; one that
/// touched another only cools down while its cooldown runs, and otherwise
/// takes an impact whose bounce sound plays exactly for a hard impact.
pub proof fn lemma_collision_action_by_inputs(
    collided: bool,
    cooldown_expired: bool,
    hard_impact: bool,
)
    ensures
        ({
            let a = vehicle_collision_action(collided, cooldown_expired, hard_impact);
            &&& (a == VehicleCollisionAction::Unaffected) <==> !collided
            &&& (a == VehicleCollisionAction::CoolDown) <==> (collided && !cooldown_expired)
            &&& (a is Impact) <==> (collided && cooldown_expired)
            &&& a is Impact ==> a == (VehicleCollisionAction::Impact {
                play_bounce_sound: hard_impact,
            })
        }),
{
}

} // verus!
