//! Locomotion-to-animation synchronization: classify what the physics reports,
//! compare it by variant with the stored state, and turn the verdict into
//! playback commands.
//!
//! Speeds are fixed-point integers in thousandths: a horizontal speed of
//! `4000` is 4 m/s and a playback rate of `400` is 0.4 times the clip's speed.
use vstd::prelude::*;

verus! {

/// Name under which the physics reports a jump in progress.
pub const JUMP_ACTION: &'static str = "Jump";

/// Name under which the physics reports a crouch in progress.
pub const CROUCH_ACTION: &'static str = "Crouch";

/// Horizontal speed (thousandths of m/s) above which a grounded character runs.
pub const RUN_THRESHOLD: u32 = 10;

/// The walk clip plays at `speed * RUN_RATE_NUM / RUN_RATE_DEN`: a scale of 0.1.
pub const RUN_RATE_NUM: u64 = 1;

/// See `RUN_RATE_NUM`.
pub const RUN_RATE_DEN: u64 = 10;

/// Playback rate of every clip but the walk cycle: 1.0.
pub const NORMAL_RATE: u32 = 1000;

/// The locomotion state shown by the character's animation.
#[derive(Clone, Copy, Debug, PartialEq, Eq, Structural)]
pub enum PlayerAnimationState {
    Standing,
    /// Running, with the walk clip's playback rate in thousandths.
    Running(u32),
    Jumping,
    Falling,
    Crouch,
}

/// Sub-phase of a jump, as the physics reports it.
#[derive(Clone, Copy, Debug, PartialEq, Eq, Structural)]
pub enum JumpPhase {
    NoJump,
    StartingJump,
    SlowDownTooFastSlopeJump,
    MaintainingJump,
    StoppedMaintainingJump,
    FallSection,
}

/// A discrete action in progress: its name, and its phase when it is a jump.
#[derive(Clone, Debug)]
pub struct ActionReport {
    pub name: String,
    pub jump_phase: Option<JumpPhase>,
}

/// What the physics reports of the character on one tick.
#[derive(Clone, Debug)]
pub struct PhysicsStatus {
    pub action: Option<ActionReport>,
    /// The entity the character stands on, if any.
    pub grounded_entity: Option<u64>,
    /// Horizontal speed in thousandths of m/s.
    pub horizontal_speed: u32,
}

/// Why a physics status could not be classified.
#[derive(Clone, Copy, Debug, PartialEq, Eq, Structural)]
pub enum AnimationError {
    /// The action's name is neither a jump nor a crouch.
    UnrecognizedAction,
    /// The action is named a jump but carries no jump phase.
    ActionMismatch,
}

/// The verdict of one tick: keep the clip going, or switch to another.
#[derive(Clone, Copy, Debug, PartialEq, Eq, Structural)]
pub enum AnimationDirective {
    Maintain { state: PlayerAnimationState },
    Alter { old_state: Option<PlayerAnimationState>, state: PlayerAnimationState },
}

/// The clips of the character's animation set.
#[derive(Clone, Copy, Debug, PartialEq, Eq, Structural)]
pub enum Clip {
    Static,
    Idle,
    Walk,
    Fall,
    Jump,
    Crouch,
}

/// One command for the animation player.
#[derive(Clone, Copy, Debug, PartialEq, Eq, Structural)]
pub enum PlaybackCommand {
    /// Stop every clip that plays.
    StopAll,
    /// Start a clip from its beginning at `rate` thousandths, looping or once.
    Start { clip: Clip, rate: u32, looping: bool },
    /// Change the rate of a clip that plays, without restarting it.
    SetRate { clip: Clip, rate: u32 },
}

/// Playback rate of the walk clip for a horizontal speed.
pub open spec fn running_rate(speed: u32) -> u32 {
    (speed as int * RUN_RATE_NUM as int / RUN_RATE_DEN as int) as u32
}

/// The state shown for a jump phase; `None` for a jump that has not begun.
pub open spec fn jump_state(phase: JumpPhase) -> Option<PlayerAnimationState> {
    match phase {
        JumpPhase::NoJump => None,
        JumpPhase::FallSection => Some(PlayerAnimationState::Falling),
        _ => Some(PlayerAnimationState::Jumping),
    }
}

/// The state shown when no action is in progress.
pub open spec fn basis_state(grounded_entity: Option<u64>, speed: u32) -> PlayerAnimationState {
    if grounded_entity is None {
        PlayerAnimationState::Falling
    } else if speed > RUN_THRESHOLD {
        PlayerAnimationState::Running(running_rate(speed))
    } else {
        PlayerAnimationState::Standing
    }
}

/// The classification of a physics status: a state, no state for this tick,
/// or an error.
pub open spec fn classification(status: PhysicsStatus) -> Result<
    Option<PlayerAnimationState>,
    AnimationError,
> {
    match status.action {
        Some(action) => {
            if action.name@ == JUMP_ACTION@ {
                match action.jump_phase {
                    Some(phase) => Ok(jump_state(phase)),
                    None => Err(AnimationError::ActionMismatch),
                }
            } else if action.name@ == CROUCH_ACTION@ {
                Ok(Some(PlayerAnimationState::Crouch))
            } else {
                Err(AnimationError::UnrecognizedAction)
            }
        },
        None => Ok(Some(basis_state(status.grounded_entity, status.horizontal_speed))),
    }
}

/// Two states of the same variant, whatever their payloads.
pub open spec fn same_variant(a: PlayerAnimationState, b: PlayerAnimationState) -> bool {
    match (a, b) {
        (PlayerAnimationState::Standing, PlayerAnimationState::Standing) => true,
        (PlayerAnimationState::Running(_), PlayerAnimationState::Running(_)) => true,
        (PlayerAnimationState::Jumping, PlayerAnimationState::Jumping) => true,
        (PlayerAnimationState::Falling, PlayerAnimationState::Falling) => true,
        (PlayerAnimationState::Crouch, PlayerAnimationState::Crouch) => true,
        _ => false,
    }
}

/// The directive for a new state, given the state stored before.
pub open spec fn next_directive(
    previous: Option<PlayerAnimationState>,
    state: PlayerAnimationState,
) -> AnimationDirective {
    match previous {
        Some(p) if same_variant(p, state) => AnimationDirective::Maintain { state },
        _ => AnimationDirective::Alter { old_state: previous, state },
    }
}

/// The commands that carry out a directive.
pub open spec fn directive_commands(directive: AnimationDirective) -> Seq<PlaybackCommand> {
    match directive {
        AnimationDirective::Maintain { state } => match state {
            PlayerAnimationState::Running(rate) => seq![
                PlaybackCommand::SetRate { clip: Clip::Walk, rate },
            ],
            _ => seq![],
        },
        AnimationDirective::Alter { state, .. } => match state {
            PlayerAnimationState::Standing => seq![
                PlaybackCommand::StopAll,
                PlaybackCommand::Start { clip: Clip::Static, rate: NORMAL_RATE, looping: false },
                PlaybackCommand::Start { clip: Clip::Idle, rate: NORMAL_RATE, looping: true },
            ],
            PlayerAnimationState::Running(rate) => seq![
                PlaybackCommand::StopAll,
                PlaybackCommand::Start { clip: Clip::Walk, rate, looping: true },
            ],
            PlayerAnimationState::Falling => seq![
                PlaybackCommand::StopAll,
                PlaybackCommand::Start { clip: Clip::Fall, rate: NORMAL_RATE, looping: true },
            ],
            PlayerAnimationState::Jumping => seq![
                PlaybackCommand::StopAll,
                PlaybackCommand::Start { clip: Clip::Jump, rate: NORMAL_RATE, looping: false },
            ],
            PlayerAnimationState::Crouch => seq![
                PlaybackCommand::StopAll,
                PlaybackCommand::Start { clip: Clip::Crouch, rate: NORMAL_RATE, looping: false },
            ],
        },
    }
}

/// Whether two states are of the same variant.
pub fn same_variant_exec(a: &PlayerAnimationState, b: &PlayerAnimationState) -> (r: bool)
    ensures
        r == same_variant(*a, *b),
{
    match (a, b) {
        (PlayerAnimationState::Standing, PlayerAnimationState::Standing) => true,
        (PlayerAnimationState::Running(_), PlayerAnimationState::Running(_)) => true,
        (PlayerAnimationState::Jumping, PlayerAnimationState::Jumping) => true,
        (PlayerAnimationState::Falling, PlayerAnimationState::Falling) => true,
        (PlayerAnimationState::Crouch, PlayerAnimationState::Crouch) => true,
        _ => false,
    }
}

/// Playback rate of the walk clip for a horizontal speed in thousandths of m/s.
pub fn running_rate_exec(speed: u32) -> (r: u32)
    ensures
        r == running_rate(speed),
{
    let scaled: u64 = speed as u64 * RUN_RATE_NUM / RUN_RATE_DEN;
    scaled as u32
}

/// The state shown for a jump phase; `None` for a jump that has not begun.
pub fn jump_state_exec(phase: JumpPhase) -> (r: Option<PlayerAnimationState>)
    ensures
        r == jump_state(phase),
{
    match phase {
        JumpPhase::NoJump => None,
        JumpPhase::StartingJump => Some(PlayerAnimationState::Jumping),
        JumpPhase::SlowDownTooFastSlopeJump => Some(PlayerAnimationState::Jumping),
        JumpPhase::MaintainingJump => Some(PlayerAnimationState::Jumping),
        JumpPhase::StoppedMaintainingJump => Some(PlayerAnimationState::Jumping),
        JumpPhase::FallSection => Some(PlayerAnimationState::Falling),
    }
}

/// Classifies a physics status into the state to show on this tick.
///
/// A jump maps by its phase (no state at all before it begins), a crouch
/// to `Crouch`; with no action the character falls when nothing holds it,
/// runs above `RUN_THRESHOLD` and stands otherwise. Any other action name is
/// `UnrecognizedAction`.
pub fn classify(status: &PhysicsStatus) -> (r: Result<Option<PlayerAnimationState>, AnimationError>)
    ensures
        r == classification(*status),
{
    match &status.action {
        Some(action) => {
            let jump_name: String = JUMP_ACTION.to_owned();
            let crouch_name: String = CROUCH_ACTION.to_owned();
            if action.name == jump_name {
                match action.jump_phase {
                    Some(phase) => Ok(jump_state_exec(phase)),
                    None => Err(AnimationError::ActionMismatch),
                }
            } else if action.name == crouch_name {
                Ok(Some(PlayerAnimationState::Crouch))
            } else {
                Err(AnimationError::UnrecognizedAction)
            }
        },
        None => {
            if status.grounded_entity.is_none() {
                Ok(Some(PlayerAnimationState::Falling))
            } else if status.horizontal_speed > RUN_THRESHOLD {
                Ok(Some(PlayerAnimationState::Running(running_rate_exec(status.horizontal_speed))))
            } else {
                Ok(Some(PlayerAnimationState::Standing))
            }
        },
    }
}

/// The last state shown, kept from tick to tick; `None` before the first.
#[derive(Clone, Copy, Debug)]
pub struct AnimatingState {
    pub state: Option<PlayerAnimationState>,
}

impl AnimatingState {
    /// A state that has shown nothing yet.
    pub fn new() -> (r: AnimatingState)
        ensures
            r.state is None,
    {
        AnimatingState { state: None }
    }

    /// Stores `new_state` and says whether its variant is the one stored
    /// before (`Maintain`) or not (`Alter`, with the state it replaces).
    pub fn update_by_discriminant(&mut self, new_state: PlayerAnimationState) -> (r:
        AnimationDirective)
        ensures
            r == next_directive(old(self).state, new_state),
            final(self).state == Some(new_state),
    {
        let previous = self.state;
        self.state = Some(new_state);
        match previous {
            Some(p) => {
                if same_variant_exec(&p, &new_state) {
                    AnimationDirective::Maintain { state: new_state }
                } else {
                    AnimationDirective::Alter { old_state: previous, state: new_state }
                }
            },
            None => AnimationDirective::Alter { old_state: previous, state: new_state },
        }
    }
}

/// The commands that carry out a directive: on `Maintain`, only a new rate
/// for a running walk; on `Alter`, stop everything and start the new state's
/// clip (two clips for `Standing`).
pub fn directive_commands_exec(directive: &AnimationDirective) -> (r: Vec<PlaybackCommand>)
    ensures
        r@ == directive_commands(*directive),
{
    match directive {
        AnimationDirective::Maintain { state } => match state {
            PlayerAnimationState::Running(rate) => vec![
                PlaybackCommand::SetRate { clip: Clip::Walk, rate: *rate },
            ],
            _ => Vec::new(),
        },
        AnimationDirective::Alter { state, .. } => match state {
            PlayerAnimationState::Standing => vec![
                PlaybackCommand::StopAll,
                PlaybackCommand::Start { clip: Clip::Static, rate: NORMAL_RATE, looping: false },
                PlaybackCommand::Start { clip: Clip::Idle, rate: NORMAL_RATE, looping: true },
            ],
            PlayerAnimationState::Running(rate) => vec![
                PlaybackCommand::StopAll,
                PlaybackCommand::Start { clip: Clip::Walk, rate: *rate, looping: true },
            ],
            PlayerAnimationState::Falling => vec![
                PlaybackCommand::StopAll,
                PlaybackCommand::Start { clip: Clip::Fall, rate: NORMAL_RATE, looping: true },
            ],
            PlayerAnimationState::Jumping => vec![
                PlaybackCommand::StopAll,
                PlaybackCommand::Start { clip: Clip::Jump, rate: NORMAL_RATE, looping: false },
            ],
            PlayerAnimationState::Crouch => vec![
                PlaybackCommand::StopAll,
                PlaybackCommand::Start { clip: Clip::Crouch, rate: NORMAL_RATE, looping: false },
            ],
        },
    }
}

/// One tick of the synchronizer: classify the status, update the stored
/// state and return the playback commands. A tick with no state to show
/// changes nothing and commands nothing; an error changes nothing.
pub fn handle_animations(animating: &mut AnimatingState, status: &PhysicsStatus) -> (r: Result<
    Vec<PlaybackCommand>,
    AnimationError,
>)
    ensures
        match classification(*status) {
            Err(e) => r == Err::<Vec<PlaybackCommand>, AnimationError>(e) && *final(animating)
                == *old(animating),
            Ok(None) => r is Ok && r->Ok_0@ == Seq::<PlaybackCommand>::empty() && *final(animating)
                == *old(animating),
            Ok(Some(s)) => r is Ok && r->Ok_0@ == directive_commands(
                next_directive(old(animating).state, s),
            ) && final(animating).state == Some(s),
        },
{
    match classify(status) {
        Err(e) => Err(e),
        Ok(None) => Ok(Vec::new()),
        Ok(Some(s)) => {
            let directive = animating.update_by_discriminant(s);
            Ok(directive_commands_exec(&directive))
        },
    }
}

/// The state a directive shows.
pub open spec fn directive_state(directive: AnimationDirective) -> PlayerAnimationState {
    match directive {
        AnimationDirective::Maintain { state } => state,
        AnimationDirective::Alter { state, .. } => state,
    }
}

/// A `Maintain` directive never stops or starts a clip, whatever state it
/// keeps: the clip that plays goes on from where it is, at most at a new rate.
pub proof fn maintain_never_restarts(state: PlayerAnimationState)
    ensures
        forall|i: int|
            0 <= i < directive_commands(AnimationDirective::Maintain { state }).len()
                ==> directive_commands(AnimationDirective::Maintain { state })[i] is SetRate,
{
}

/// Whatever was stored and whatever the status, a tick whose directive is
/// `Maintain` commands no stop and no start.
pub proof fn tick_maintain_never_restarts(previous: Option<PlayerAnimationState>, status: PhysicsStatus)
    requires
        classification(status) matches Ok(Some(s)) && next_directive(previous, s) is Maintain,
    ensures
        classification(status) matches Ok(Some(s)) && forall|i: int|
            0 <= i < directive_commands(next_directive(previous, s)).len() ==> directive_commands(
                next_directive(previous, s),
            )[i] is SetRate,
{
    if let Ok(Some(s)) = classification(status) {
        if let AnimationDirective::Maintain { state } = next_directive(previous, s) {
            maintain_never_restarts(state);
        }
    }
}

/// A run that follows a run is maintained, and the walk clip's rate becomes
/// the new one, never the old.
pub proof fn running_after_running_maintains(old_rate: u32, new_rate: u32)
    ensures
        next_directive(
            Some(PlayerAnimationState::Running(old_rate)),
            PlayerAnimationState::Running(new_rate),
        ) == (AnimationDirective::Maintain { state: PlayerAnimationState::Running(new_rate) }),
        directive_commands(
            next_directive(
                Some(PlayerAnimationState::Running(old_rate)),
                PlayerAnimationState::Running(new_rate),
            ),
        ) == seq![PlaybackCommand::SetRate { clip: Clip::Walk, rate: new_rate }],
{
}

/// Through a jump's phases the character shows nothing before the jump
/// begins, falls in its fall section and jumps in every other phase.
pub proof fn jump_phases_map(status: PhysicsStatus, phase: JumpPhase)
    requires
        status.action matches Some(a) && a.name@ == JUMP_ACTION@ && a.jump_phase == Some(phase),
    ensures
        phase == JumpPhase::NoJump ==> classification(status) == Ok::<
            Option<PlayerAnimationState>,
            AnimationError,
        >(None),
        phase == JumpPhase::FallSection ==> classification(status) == Ok::<
            Option<PlayerAnimationState>,
            AnimationError,
        >(Some(PlayerAnimationState::Falling)),
        phase != JumpPhase::NoJump && phase != JumpPhase::FallSection ==> classification(status)
            == Ok::<Option<PlayerAnimationState>, AnimationError>(
            Some(PlayerAnimationState::Jumping),
        ),
{
}

/// With no action and no horizontal motion, a character on the ground is
/// shown standing, whatever state was shown before.
pub proof fn at_rest_on_ground_stands(status: PhysicsStatus, previous: Option<PlayerAnimationState>)
    requires
        status.action is None,
        status.grounded_entity is Some,
        status.horizontal_speed <= RUN_THRESHOLD,
    ensures
        classification(status) == Ok::<Option<PlayerAnimationState>, AnimationError>(
            Some(PlayerAnimationState::Standing),
        ),
        directive_state(next_directive(previous, PlayerAnimationState::Standing))
            == PlayerAnimationState::Standing,
{
}

/// With no action, a character that stands on nothing is shown falling,
/// whatever its speed and whatever state was shown before.
pub proof fn unsupported_falls(status: PhysicsStatus, previous: Option<PlayerAnimationState>)
    requires
        status.action is None,
        status.grounded_entity is None,
    ensures
        classification(status) == Ok::<Option<PlayerAnimationState>, AnimationError>(
            Some(PlayerAnimationState::Falling),
        ),
        directive_state(next_directive(previous, PlayerAnimationState::Falling))
            == PlayerAnimationState::Falling,
{
}

/// Showing the same classification again changes only the stored payload:
/// the second tick maintains, and commands nothing but a running rate.
pub proof fn repeated_state_is_idempotent(state: PlayerAnimationState)
    ensures
        next_directive(Some(state), state) == (AnimationDirective::Maintain { state }),
        directive_commands(next_directive(Some(state), state)).len() <= 1,
{
}

} // verus!
