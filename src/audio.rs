//! Sound-effect and soundtrack keys, and which effect a request plays.
use vstd::prelude::*;
use rand::seq::SliceRandom;

verus! {

/// The sound effects.
#[derive(Clone, Copy, Debug, PartialEq, Eq, Hash, Structural)]
pub enum SfxKey {
    ButtonHover,
    ButtonPress,
    Step1,
    Step2,
    Step3,
    Step4,
}

/// The soundtracks.
#[derive(Clone, Copy, Debug, PartialEq, Eq, Hash, Structural)]
pub enum SoundtrackKey {
    Credits,
    Gameplay,
}

/// A request to play one sound effect.
#[derive(Clone, Copy, Debug, PartialEq, Eq, Structural)]
pub enum PlaySfx {
    Key(SfxKey),
    /// One of the footstep effects, picked at random.
    RandomStep,
}

/// A footstep effect.
pub open spec fn is_step(key: SfxKey) -> bool {
    key == SfxKey::Step1 || key == SfxKey::Step2 || key == SfxKey::Step3 || key == SfxKey::Step4
}

/// Relies on rand's `SliceRandom::choose` over the thread-local generator:
/// `None` for an empty slice, else one of its elements.
#[verifier::external_body]
fn choose_key(keys: &[SfxKey]) -> (r: Option<SfxKey>)
    ensures
        r is None <==> keys@.len() == 0,
        r matches Some(k) ==> keys@.contains(k),
{
    keys.choose(&mut rand::thread_rng()).copied()
}

/// One of the four footstep effects, picked at random.
pub fn random_step() -> (r: SfxKey)
    ensures
        is_step(r),
{
    let steps: [SfxKey; 4] = [SfxKey::Step1, SfxKey::Step2, SfxKey::Step3, SfxKey::Step4];
    assert(steps@.len() == 4);
    match choose_key(&steps) {
        Some(key) => {
            assert(is_step(key));
            key
        },
        None => {
            assert(false);
            SfxKey::Step1
        },
    }
}

/// The effect a request plays: its key, or a random footstep.
pub fn sfx_key(request: &PlaySfx) -> (r: SfxKey)
    ensures
        request matches PlaySfx::Key(k) ==> r == k,
        *request == PlaySfx::RandomStep ==> is_step(r),
{
    match request {
        PlaySfx::Key(key) => *key,
        PlaySfx::RandomStep => random_step(),
    }
}

} // verus!
