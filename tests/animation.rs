use bevy3dtest::animation::{
    classify, directive_commands_exec, handle_animations, jump_state_exec, running_rate_exec,
    ActionReport, AnimatingState, AnimationDirective, AnimationError, Clip, JumpPhase,
    PhysicsStatus, PlaybackCommand, PlayerAnimationState,
};
use bevy3dtest::controls::{apply_controls, ControlInput, PlayerParams};

fn walking(speed: u32) -> PhysicsStatus {
    PhysicsStatus { action: None, grounded_entity: Some(7), horizontal_speed: speed }
}

fn acting(name: &str, phase: Option<JumpPhase>) -> PhysicsStatus {
    PhysicsStatus {
        action: Some(ActionReport { name: name.to_string(), jump_phase: phase }),
        grounded_entity: Some(7),
        horizontal_speed: 0,
    }
}

fn stored(state: PlayerAnimationState) -> AnimatingState {
    AnimatingState { state: Some(state) }
}

#[test]
fn running_from_standing_switches_to_walk() {
    let params = PlayerParams {
        speed: 4000,
        angle_delta: 100,
        float_height: 500,
        cling_distance: 100,
        crouch_float_offset: 0,
    };
    let input = ControlInput {
        up: true,
        down: false,
        left: false,
        right: false,
        jump: false,
        crouch: false,
    };
    let command = apply_controls(&input, &params);
    assert_eq!(command.basis.forward_speed, 4000);
    assert!(command.actions.is_empty());

    let status = walking(4000);
    assert_eq!(classify(&status), Ok(Some(PlayerAnimationState::Running(400))));
    let mut animating = stored(PlayerAnimationState::Standing);
    let directive = animating.update_by_discriminant(PlayerAnimationState::Running(400));
    assert_eq!(
        directive,
        AnimationDirective::Alter {
            old_state: Some(PlayerAnimationState::Standing),
            state: PlayerAnimationState::Running(400),
        }
    );
    assert_eq!(
        directive_commands_exec(&directive),
        vec![
            PlaybackCommand::StopAll,
            PlaybackCommand::Start { clip: Clip::Walk, rate: 400, looping: true },
        ]
    );
}

#[test]
fn running_after_running_only_changes_rate() {
    let mut animating = stored(PlayerAnimationState::Running(300));
    let commands = handle_animations(&mut animating, &walking(4000)).unwrap();
    assert_eq!(commands, vec![PlaybackCommand::SetRate { clip: Clip::Walk, rate: 400 }]);
    assert_eq!(animating.state, Some(PlayerAnimationState::Running(400)));
    let directive = stored(PlayerAnimationState::Running(300))
        .update_by_discriminant(PlayerAnimationState::Running(400));
    assert_eq!(directive, AnimationDirective::Maintain { state: PlayerAnimationState::Running(400) });
}

#[test]
fn starting_jump_from_standing_plays_jump_once() {
    let mut animating = stored(PlayerAnimationState::Standing);
    let commands =
        handle_animations(&mut animating, &acting("Jump", Some(JumpPhase::StartingJump))).unwrap();
    assert_eq!(
        commands,
        vec![
            PlaybackCommand::StopAll,
            PlaybackCommand::Start { clip: Clip::Jump, rate: 1000, looping: false },
        ]
    );
    assert_eq!(animating.state, Some(PlayerAnimationState::Jumping));
    let directive = stored(PlayerAnimationState::Standing)
        .update_by_discriminant(PlayerAnimationState::Jumping);
    assert_eq!(
        directive,
        AnimationDirective::Alter {
            old_state: Some(PlayerAnimationState::Standing),
            state: PlayerAnimationState::Jumping,
        }
    );
}

#[test]
fn unrecognized_action_is_an_error() {
    let mut animating = stored(PlayerAnimationState::Standing);
    let status = acting("Dash", None);
    assert_eq!(classify(&status), Err(AnimationError::UnrecognizedAction));
    assert_eq!(
        handle_animations(&mut animating, &status),
        Err(AnimationError::UnrecognizedAction)
    );
    assert_eq!(animating.state, Some(PlayerAnimationState::Standing));
}

#[test]
fn jump_without_phase_is_a_mismatch() {
    assert_eq!(classify(&acting("Jump", None)), Err(AnimationError::ActionMismatch));
}

#[test]
fn jump_phases_in_sequence() {
    let phases = [
        (JumpPhase::NoJump, None),
        (JumpPhase::StartingJump, Some(PlayerAnimationState::Jumping)),
        (JumpPhase::SlowDownTooFastSlopeJump, Some(PlayerAnimationState::Jumping)),
        (JumpPhase::MaintainingJump, Some(PlayerAnimationState::Jumping)),
        (JumpPhase::StoppedMaintainingJump, Some(PlayerAnimationState::Jumping)),
        (JumpPhase::FallSection, Some(PlayerAnimationState::Falling)),
        (JumpPhase::NoJump, None),
    ];
    for (phase, expected) in phases {
        assert_eq!(jump_state_exec(phase), expected);
        assert_eq!(classify(&acting("Jump", Some(phase))), Ok(expected));
    }
}

#[test]
fn no_jump_phase_changes_nothing() {
    let mut animating = stored(PlayerAnimationState::Running(250));
    let commands =
        handle_animations(&mut animating, &acting("Jump", Some(JumpPhase::NoJump))).unwrap();
    assert!(commands.is_empty());
    assert_eq!(animating.state, Some(PlayerAnimationState::Running(250)));
}

#[test]
fn crouch_plays_once() {
    let mut animating = stored(PlayerAnimationState::Standing);
    let commands = handle_animations(&mut animating, &acting("Crouch", None)).unwrap();
    assert_eq!(
        commands,
        vec![
            PlaybackCommand::StopAll,
            PlaybackCommand::Start { clip: Clip::Crouch, rate: 1000, looping: false },
        ]
    );
}

#[test]
fn at_rest_on_ground_stands_whatever_came_before() {
    let before = [
        None,
        Some(PlayerAnimationState::Running(100)),
        Some(PlayerAnimationState::Jumping),
        Some(PlayerAnimationState::Falling),
        Some(PlayerAnimationState::Crouch),
        Some(PlayerAnimationState::Standing),
    ];
    for previous in before {
        let mut animating = AnimatingState { state: previous };
        handle_animations(&mut animating, &walking(10)).unwrap();
        assert_eq!(animating.state, Some(PlayerAnimationState::Standing));
    }
}

#[test]
fn unsupported_falls_whatever_came_before() {
    let before = [None, Some(PlayerAnimationState::Running(100)), Some(PlayerAnimationState::Standing)];
    for previous in before {
        let mut animating = AnimatingState { state: previous };
        let status = PhysicsStatus { action: None, grounded_entity: None, horizontal_speed: 3000 };
        let commands = handle_animations(&mut animating, &status).unwrap();
        assert_eq!(animating.state, Some(PlayerAnimationState::Falling));
        assert_eq!(
            commands,
            vec![
                PlaybackCommand::StopAll,
                PlaybackCommand::Start { clip: Clip::Fall, rate: 1000, looping: true },
            ]
        );
    }
}

#[test]
fn first_standing_starts_static_and_idle() {
    let mut animating = AnimatingState::new();
    let commands = handle_animations(&mut animating, &walking(0)).unwrap();
    assert_eq!(
        commands,
        vec![
            PlaybackCommand::StopAll,
            PlaybackCommand::Start { clip: Clip::Static, rate: 1000, looping: false },
            PlaybackCommand::Start { clip: Clip::Idle, rate: 1000, looping: true },
        ]
    );
    let again = handle_animations(&mut animating, &walking(0)).unwrap();
    assert!(again.is_empty());
}

#[test]
fn run_threshold_is_strict() {
    assert_eq!(classify(&walking(10)), Ok(Some(PlayerAnimationState::Standing)));
    assert_eq!(classify(&walking(11)), Ok(Some(PlayerAnimationState::Running(1))));
    assert_eq!(running_rate_exec(4000), 400);
    assert_eq!(running_rate_exec(u32::MAX), 429_496_729);
}
