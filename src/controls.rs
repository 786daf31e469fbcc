//! The locomotion controller: from the buttons held on one tick to the
//! movement basis and the discrete actions handed to the physics.
//!
//! Steering is avatar-relative: up and down move along the character's
//! facing, left and right turn the desired facing by the angle step. Lengths
//! are in millimetres, speeds in mm/s and angles in milliradians.
use vstd::prelude::*;

verus! {

/// Height of a jump, in millimetres, requested while the jump button is held.
pub const JUMP_HEIGHT: u32 = 2000;

/// The character's movement parameters.
#[derive(Clone, Copy, Debug, PartialEq, Eq, Structural)]
pub struct PlayerParams {
    /// Walking speed, mm/s.
    pub speed: u32,
    /// Turn per tick while left or right is held, milliradians.
    pub angle_delta: u32,
    /// Height at which the character floats above the ground, mm.
    pub float_height: u32,
    /// Extra distance under the float height at which the ground still holds, mm.
    pub cling_distance: u32,
    /// Change of float height while crouching, mm.
    pub crouch_float_offset: i32,
}

/// The buttons held on one tick.
#[derive(Clone, Copy, Debug, PartialEq, Eq, Structural)]
pub struct ControlInput {
    pub up: bool,
    pub down: bool,
    pub left: bool,
    pub right: bool,
    pub jump: bool,
    pub crouch: bool,
}

/// The movement intent handed to the physics every tick.
#[derive(Clone, Copy, Debug, PartialEq, Eq, Structural)]
pub struct BasisCommand {
    /// Signed speed along the character's current facing, mm/s.
    pub forward_speed: i64,
    /// Signed turn of the desired facing about the vertical axis, milliradians
    /// (positive turns left).
    pub turn: i64,
    pub float_height: u32,
    pub cling_distance: u32,
}

/// A discrete action, requested on each tick that its button is held.
#[derive(Clone, Copy, Debug, PartialEq, Eq, Structural)]
pub enum ActionRequest {
    Crouch { float_offset: i32 },
    Jump { height: u32 },
}

/// All that the controller hands to the physics on one tick.
#[derive(Clone, Debug)]
pub struct ControlCommand {
    pub basis: BasisCommand,
    /// The actions to submit, in order.
    pub actions: Vec<ActionRequest>,
}

/// Speed along the facing: up wins over down.
pub open spec fn forward_speed(input: ControlInput, params: PlayerParams) -> int {
    if input.up {
        params.speed as int
    } else if input.down {
        -(params.speed as int)
    } else {
        0
    }
}

/// Turn of the desired facing: left wins over right.
pub open spec fn turn(input: ControlInput, params: PlayerParams) -> int {
    if input.left {
        params.angle_delta as int
    } else if input.right {
        -(params.angle_delta as int)
    } else {
        0
    }
}

/// The actions requested: a crouch, then a jump, each while its button is held.
pub open spec fn requested_actions(input: ControlInput, params: PlayerParams) -> Seq<ActionRequest> {
    let crouch: Seq<ActionRequest> = if input.crouch {
        seq![ActionRequest::Crouch { float_offset: params.crouch_float_offset }]
    } else {
        seq![]
    };
    if input.jump {
        crouch.push(ActionRequest::Jump { height: JUMP_HEIGHT })
    } else {
        crouch
    }
}

/// The controller's output for one tick.
pub fn apply_controls(input: &ControlInput, params: &PlayerParams) -> (r: ControlCommand)
    ensures
        r.basis.forward_speed == forward_speed(*input, *params),
        r.basis.turn == turn(*input, *params),
        r.basis.float_height == params.float_height,
        r.basis.cling_distance == params.cling_distance,
        r.actions@ == requested_actions(*input, *params),
{
    let forward_speed: i64 = if input.up {
        params.speed as i64
    } else if input.down {
        -(params.speed as i64)
    } else {
        0
    };
    let turn: i64 = if input.left {
        params.angle_delta as i64
    } else if input.right {
        -(params.angle_delta as i64)
    } else {
        0
    };
    let mut actions: Vec<ActionRequest> = Vec::new();
    if input.crouch {
        actions.push(ActionRequest::Crouch { float_offset: params.crouch_float_offset });
    }
    if input.jump {
        actions.push(ActionRequest::Jump { height: JUMP_HEIGHT });
    }
    proof {
        if !input.crouch && !input.jump {
            assert(actions@ =~= requested_actions(*input, *params));
        }
    }
    ControlCommand {
        basis: BasisCommand {
            forward_speed,
            turn,
            float_height: params.float_height,
            cling_distance: params.cling_distance,
        },
        actions,
    }
}

/// With no button held the controller asks for no motion, no turn and no
/// action.
pub proof fn idle_input_requests_nothing(input: ControlInput, params: PlayerParams)
    requires
        !input.up && !input.down && !input.left && !input.right && !input.jump && !input.crouch,
    ensures
        forward_speed(input, params) == 0,
        turn(input, params) == 0,
        requested_actions(input, params).len() == 0,
{
}

} // verus!
