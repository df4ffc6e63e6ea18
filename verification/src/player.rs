//! The wanderer's camera modes and body animation states.

use vstd::prelude::*;

verus! {

/// Where the camera sits: in the wanderer's eyes or behind them.
#[derive(Debug, Clone, Copy, PartialEq, Eq, Hash, Structural)]
pub enum CameraMode {
    FirstPerson,
    ThirdPerson,
}

impl CameraMode {
    /// The name of the camera mode.
    pub open spec fn label_text(self) -> Seq<char> {
        match self {
            CameraMode::FirstPerson => "第一人称"@,
            CameraMode::ThirdPerson => "第三人称"@,
        }
    }

    /// The name of the camera mode.
    pub fn label(self) -> (r: &'static str)
        ensures
            r@ == self.label_text(),
    {
        match self {
            CameraMode::FirstPerson => "第一人称",
            CameraMode::ThirdPerson => "第三人称",
        }
    }

    /// The other camera mode, as the V key switches it.
    pub fn toggled(self) -> (r: CameraMode)
        ensures
            r != self,
    {
        match self {
            CameraMode::FirstPerson => CameraMode::ThirdPerson,
            CameraMode::ThirdPerson => CameraMode::FirstPerson,
        }
    }
}

/// What the wanderer's body is doing.
#[derive(Debug, Clone, Copy, PartialEq, Eq, Hash, Structural)]
pub enum PlayerAnimationState {
    Idle,
    Walk,
    Run,
    Jump,
}

impl PlayerAnimationState {
    /// The name of the animation state.
    pub open spec fn label_text(self) -> Seq<char> {
        match self {
            PlayerAnimationState::Idle => "站立"@,
            PlayerAnimationState::Walk => "行走"@,
            PlayerAnimationState::Run => "奔跑"@,
            PlayerAnimationState::Jump => "跳跃"@,
        }
    }

    /// The name of the animation state.
    pub fn label(self) -> (r: &'static str)
        ensures
            r@ == self.label_text(),
    {
        match self {
            PlayerAnimationState::Idle => "站立",
            PlayerAnimationState::Walk => "行走",
            PlayerAnimationState::Run => "奔跑",
            PlayerAnimationState::Jump => "跳跃",
        }
    }
}

/// The body's state: airborne bodies jump; grounded ones stand when they
/// do not move, run when sprinting (a speed multiplier above 1.05), and
/// walk otherwise.
pub open spec fn animation_state_spec(moving: bool, sprinting: bool, grounded: bool) -> PlayerAnimationState {
    if !grounded {
        PlayerAnimationState::Jump
    } else if !moving {
        PlayerAnimationState::Idle
    } else if sprinting {
        PlayerAnimationState::Run
    } else {
        PlayerAnimationState::Walk
    }
}

/// The body's animation state from whether it moves (its movement is
/// longer than the smallest float step), whether it sprints, and whether it
/// stands on ground.
pub fn animation_state_for_movement(moving: bool, sprinting: bool, grounded: bool) -> (r: PlayerAnimationState)
    ensures
        r == animation_state_spec(moving, sprinting, grounded),
{
    if !grounded {
        PlayerAnimationState::Jump
    } else if !moving {
        PlayerAnimationState::Idle
    } else if sprinting {
        PlayerAnimationState::Run
    } else {
        PlayerAnimationState::Walk
    }
}

} // verus!
