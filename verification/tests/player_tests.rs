use dao_game::player::{animation_state_for_movement, CameraMode, PlayerAnimationState};

fn moving(movement_len_sq: f32) -> bool {
    movement_len_sq > f32::EPSILON
}

fn sprinting(sprint_multiplier: f32) -> bool {
    sprint_multiplier > 1.05
}

#[test]
fn animation_state_tracks_ground_and_speed() {
    assert_eq!(
        animation_state_for_movement(moving(0.0), sprinting(1.0), true),
        PlayerAnimationState::Idle
    );
    assert_eq!(
        animation_state_for_movement(moving(1.0), sprinting(1.0), true),
        PlayerAnimationState::Walk
    );
    assert_eq!(
        animation_state_for_movement(moving(1.0), sprinting(1.7), true),
        PlayerAnimationState::Run
    );
    assert_eq!(
        animation_state_for_movement(moving(1.0), sprinting(1.0), false),
        PlayerAnimationState::Jump
    );
}

#[test]
fn camera_and_animation_labels() {
    assert_eq!(CameraMode::FirstPerson.label(), "第一人称");
    assert_eq!(CameraMode::FirstPerson.toggled(), CameraMode::ThirdPerson);
    assert_eq!(CameraMode::ThirdPerson.toggled(), CameraMode::FirstPerson);
    assert_eq!(PlayerAnimationState::Run.label(), "奔跑");
    assert_eq!(PlayerAnimationState::Jump.label(), "跳跃");
}
