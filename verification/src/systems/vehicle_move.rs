use vstd::prelude::*;

verus! {

/// The system that moves and turns the vehicles and keeps them inside the
/// arena.
pub struct VehicleMoveSystem;

/// A side wall of the arena.
#[derive(Clone, Copy, Debug, PartialEq, Eq, Structural)]
pub enum HorizontalWall {
    Right,
    Left,
}

/// The top or bottom wall of the arena.
#[derive(Clone, Copy, Debug, PartialEq, Eq, Structural)]
pub enum VerticalWall {
    Top,
    Bottom,
}

/// The walls a vehicle hits in one frame and on which of them it takes
/// collision damage.
#[derive(Clone, Copy, Debug, PartialEq, Eq, Structural)]
pub struct WallContact {
    pub horizontal: Option<HorizontalWall>,
    pub vertical: Option<VerticalWall>,
    pub damage_on_horizontal: bool,
    pub damage_on_vertical: bool,
}

/// The walls hit by a vehicle that is past the right, left, top or bottom
/// limit of the arena, with its collision cooldown `cooldown_expired` (at or
/// below zero) at the start of the frame. The right wall is checked before
/// the left and the top before the bottom. A hit deals damage only while the
/// cooldown has run out, and a hit with damage restarts the cooldown, so a
/// vertical hit after a damaging horizontal one deals none.
pub open spec fn wall_contact_of(
    past_right: bool,
    past_left: bool,
    past_top: bool,
    past_bottom: bool,
    cooldown_expired: bool,
) -> WallContact {
    let horizontal = if past_right {
        Some(HorizontalWall::Right)
    } else if past_left {
        Some(HorizontalWall::Left)
    } else {
        None
    };
    let vertical = if past_top {
        Some(VerticalWall::Top)
    } else if past_bottom {
        Some(VerticalWall::Bottom)
    } else {
        None
    };
    let damage_on_horizontal = horizontal is Some && cooldown_expired;
    WallContact {
        horizontal,
        vertical,
        damage_on_horizontal,
        damage_on_vertical: vertical is Some && cooldown_expired && !damage_on_horizontal,
    }
}

/// How a vehicle is spinning: clockwise faster than the dead zone,
/// anticlockwise faster than it, or within it.
#[derive(Clone, Copy, Debug, PartialEq, Eq, Structural)]
pub enum Spin {
    Positive,
    Negative,
    Still,
}

/// How the spin rate changes in one frame when turn input is present.
#[derive(Clone, Copy, Debug, PartialEq, Eq, Structural)]
pub enum TurnUpdate {
    /// The rate grows by the turn input less the friction, over the frame.
    AddInputLessFriction,
    /// The rate grows by the turn input plus the friction, over the frame.
    AddInputPlusFriction,
    /// The rate grows by the turn input, over the frame.
    AddInput,
    /// The rate falls by the friction, over the frame.
    SubtractFriction,
    /// The rate grows by the friction, over the frame.
    AddFriction,
    /// The rate is set to zero.
    Stop,
}

/// The spin update for a vehicle whose turn input is `strong_input` (beyond
/// the dead zone of one tenth) and which spins as `spin`: friction always
/// works against the spin, the input counts only when strong, and a vehicle
/// within the spin dead zone and without strong input stops turning.
pub open spec fn turn_update_of(strong_input: bool, spin: Spin) -> TurnUpdate {
    match (strong_input, spin) {
        (true, Spin::Positive) => TurnUpdate::AddInputLessFriction,
        (true, Spin::Negative) => TurnUpdate::AddInputPlusFriction,
        (true, Spin::Still) => TurnUpdate::AddInput,
        (false, Spin::Positive) => TurnUpdate::SubtractFriction,
        (false, Spin::Negative) => TurnUpdate::AddFriction,
        (false, Spin::Still) => TurnUpdate::Stop,
    }
}

impl VehicleMoveSystem {
    /// Decides which walls a vehicle hits this frame and where it takes
    /// damage: see `wall_contact_of`.
    pub fn wall_contact(
        past_right: bool,
        past_left: bool,
        past_top: bool,
        past_bottom: bool,
        cooldown_expired: bool,
    ) -> (c: WallContact)
        ensures
            c == wall_contact_of(past_right, past_left, past_top, past_bottom, cooldown_expired),
            past_right ==> c.horizontal == Some(HorizontalWall::Right),
            !past_right && past_left ==> c.horizontal == Some(HorizontalWall::Left),
            !past_right && !past_left ==> c.horizontal is None,
            past_top ==> c.vertical == Some(VerticalWall::Top),
            !past_top && past_bottom ==> c.vertical == Some(VerticalWall::Bottom),
            !past_top && !past_bottom ==> c.vertical is None,
            c.damage_on_horizontal <==> (cooldown_expired && (past_right || past_left)),
            c.damage_on_vertical <==> (cooldown_expired && !past_right && !past_left && (past_top
                || past_bottom)),
    {
        let mut cooldown_expired = cooldown_expired;
        let mut contact = WallContact {
            horizontal: None,
            vertical: None,
            damage_on_horizontal: false,
            damage_on_vertical: false,
        };
        if past_right {
            contact.horizontal = Some(HorizontalWall::Right);
        } else if past_left {
            contact.horizontal = Some(HorizontalWall::Left);
        }
        if contact.horizontal.is_some() && cooldown_expired {
            contact.damage_on_horizontal = true;
            cooldown_expired = false;
        }
        if past_top {
            contact.vertical = Some(VerticalWall::Top);
        } else if past_bottom {
            contact.vertical = Some(VerticalWall::Bottom);
        }
        if contact.vertical.is_some() && cooldown_expired {
            contact.damage_on_vertical = true;
        }
        contact
    }

    /// Decides how the spin rate changes this frame: see `turn_update_of`.
    pub fn turn_update(strong_input: bool, spin: Spin) -> (u: TurnUpdate)
        ensures
            u == turn_update_of(strong_input, spin),
    {
        if strong_input {
            match spin {
                Spin::Positive => TurnUpdate::AddInputLessFriction,
                Spin::Negative => TurnUpdate::AddInputPlusFriction,
                Spin::Still => TurnUpdate::AddInput,
            }
        } else {
            match spin {
                Spin::Positive => TurnUpdate::SubtractFriction,
                Spin::Negative => TurnUpdate::AddFriction,
                Spin::Still => TurnUpdate::Stop,
            }
        }
    }
}

/// A vehicle takes wall damage at most once per frame, and it takes it
/// exactly when it hits some wall while its cooldown has run out.
pub proof fn lemma_wall_damage_at_most_once_per_frame(
    past_right: bool,
    past_left: bool,
    past_top: bool,
    past_bottom: bool,
    cooldown_expired: bool,
)
    ensures
        ({
            let c = wall_contact_of(past_right, past_left, past_top, past_bottom, cooldown_expired);
            &&& !(c.damage_on_horizontal && c.damage_on_vertical)
            &&& (c.damage_on_horizontal || c.damage_on_vertical) <==> (cooldown_expired && (
            past_right || past_left || past_top || past_bottom))
            &&& c.damage_on_horizontal ==> c.horizontal is Some
            &&& c.damage_on_vertical ==> c.vertical is Some
        }),
{
}

/// A vehicle past both side limits hits only the right wall, and one past
/// both the top and bottom limits hits only the top wall.
pub proof fn lemma_right_and_top_walls_come_first(
    past_left: bool,
    past_bottom: bool,
    cooldown_expired: bool,
)
    ensures
        wall_contact_of(true, past_left, true, past_bottom, cooldown_expired).horizontal == Some(
            HorizontalWall::Right,
        ),
        wall_contact_of(true, past_left, true, past_bottom, cooldown_expired).vertical == Some(
            VerticalWall::Top,
        ),
{
}

/// Friction always works against the spin: it is subtracted from a positive
/// spin and added to a negative one, whatever the input; without strong
/// input the input plays no part.
pub proof fn lemma_friction_opposes_spin(strong_input: bool)
    ensures
        turn_update_of(strong_input, Spin::Positive) == TurnUpdate::AddInputLessFriction
            || turn_update_of(strong_input, Spin::Positive) == TurnUpdate::SubtractFriction,
        turn_update_of(strong_input, Spin::Negative) == TurnUpdate::AddInputPlusFriction
            || turn_update_of(strong_input, Spin::Negative) == TurnUpdate::AddFriction,
        !strong_input ==> turn_update_of(strong_input, Spin::Still) == TurnUpdate::Stop,
{
}

/// Which walls a vehicle hits depends only on where it is, never on its
/// collision cooldown: the right wall when it is past the right limit, else
/// the left wall when past the left one; the top wall when past the top
/// limit, else the bottom wall when past the bottom one. Only the damage
/// depends on the cooldown: the first wall hit deals it when the cooldown has
/// run out, and a vertical hit deals it only when no side wall was hit.
pub proof fn lemma_walls_hit_by_position(
    past_right: bool,
    past_left: bool,
    past_top: bool,
    past_bottom: bool,
    cooldown_expired: bool,
)
    ensures
        ({
            let c = wall_contact_of(past_right, past_left, past_top, past_bottom, cooldown_expired);
            let d = wall_contact_of(past_right, past_left, past_top, past_bottom, !cooldown_expired);
            &&& c.horizontal == d.horizontal
            &&& c.vertical == d.vertical
            &&& past_right ==> c.horizontal == Some(HorizontalWall::Right)
            &&& !past_right && past_left ==> c.horizontal == Some(HorizontalWall::Left)
            &&& !past_right && !past_left ==> c.horizontal is None
            &&& past_top ==> c.vertical == Some(VerticalWall::Top)
            &&& !past_top && past_bottom ==> c.vertical == Some(VerticalWall::Bottom)
            &&& !past_top && !past_bottom ==> c.vertical is None
            &&& c.damage_on_horizontal <==> (cooldown_expired && (past_right || past_left))
            &&& c.damage_on_vertical <==> (cooldown_expired && !past_right && !past_left && (
            past_top || past_bottom))
        }),
{
}

/// The turn input changes the spin only when it is strong; friction is
/// subtracted from a positive spin and added to a negative one; a vehicle
/// within the spin dead zone turns by the input alone, or stops turning when
/// the input is weak.
pub proof fn lemma_turn_update_by_input_and_spin(strong_input: bool, spin: Spin)
    ensures
        ({
            let u = turn_update_of(strong_input, spin);
            &&& strong_input <==> (u == TurnUpdate::AddInputLessFriction || u
                == TurnUpdate::AddInputPlusFriction || u == TurnUpdate::AddInput)
            &&& spin == Spin::Positive <==> (u == TurnUpdate::AddInputLessFriction || u
                == TurnUpdate::SubtractFriction)
            &&& spin == Spin::Negative <==> (u == TurnUpdate::AddInputPlusFriction || u
                == TurnUpdate::AddFriction)
            &&& spin == Spin::Still <==> (u == TurnUpdate::AddInput || u == TurnUpdate::Stop)
        }),
{
}

} // verus!
