//! Frame-loop rules: whether the loop goes on, how the next frame is to be
//! rendered, and the antialiasing and key bookkeeping of the focus mode.
use vstd::prelude::*;

verus! {

/// Whether the frame loop goes on.
#[derive(Clone, Copy, PartialEq, Eq, Debug, Structural)]
pub enum LoopRequest {
    Continue,
    Stop,
}

/// How the next frame is to be rendered.
#[derive(Clone, Copy, PartialEq, Eq, Debug, Structural)]
pub enum RenderMode {
    /// At full resolution.
    Full,
    /// At a reduced resolution, while the camera moves.
    Reduced,
    /// Not at all: the last full frame still stands.
    Idle,
}

/// Number of bound keys: six moves, four looks and the focus toggle.
pub const KEYS_AMOUNT: usize = 11;

/// The mode of the next frame: reduced while the camera moves, one full
/// frame once it stops, then none until it moves again.
pub open spec fn mode_after(moved: bool, mode: RenderMode) -> RenderMode {
    if moved {
        RenderMode::Reduced
    } else if mode == RenderMode::Reduced {
        RenderMode::Full
    } else {
        RenderMode::Idle
    }
}

/// The mode of the next frame, given whether the camera moved during this
/// one and the mode this one was given.
pub fn next_render_mode(moved: bool, mode: RenderMode) -> (r: RenderMode)
    ensures
        r == mode_after(moved, mode),
{
    match (moved, mode) {
        (true, _) => RenderMode::Reduced,
        (false, RenderMode::Reduced) => RenderMode::Full,
        _ => RenderMode::Idle,
    }
}

/// Samples per pixel at start: the configured count when starting in focus
/// mode, else one.
pub fn start_aa(start_in_focus_mode: bool, aa_samples: usize) -> (r: usize)
    ensures
        r == if start_in_focus_mode { aa_samples } else { 1 },
{
    if start_in_focus_mode {
        aa_samples
    } else {
        1
    }
}

/// Samples per pixel after the focus mode is toggled: from one to the
/// configured count, from anything else back to one.
pub fn toggled_aa(aa: usize, aa_samples: usize) -> (r: usize)
    ensures
        r == if aa == 1 { aa_samples } else { 1 },
{
    if aa == 1 {
        aa_samples
    } else {
        1
    }
}

/// The reduction rate after a frame: one more when that frame was a reduced
/// one that took longer than allowed, unchanged otherwise.
pub fn next_reduced_rate(last_frame: RenderMode, too_slow: bool, rate: usize) -> (r: usize)
    requires
        last_frame == RenderMode::Reduced && too_slow ==> rate < usize::MAX,
    ensures
        r == if last_frame == RenderMode::Reduced && too_slow { rate + 1 } else { rate as int },
{
    if last_frame == RenderMode::Reduced && too_slow {
        rate + 1
    } else {
        rate
    }
}

/// Marks held (`down`) or released every binding of `key_map` that is bound
/// to `code`; the other bindings keep their state.
pub fn set_key_bindings(
    keys: &mut [bool; KEYS_AMOUNT],
    key_map: &[i32; KEYS_AMOUNT],
    code: i32,
    down: bool,
)
    ensures
        forall|i: int|
            0 <= i < KEYS_AMOUNT ==> final(keys)@[i] == if key_map@[i] == code {
                down
            } else {
                old(keys)@[i]
            },
{
    let mut i: usize = 0;
    while i < KEYS_AMOUNT
        invariant
            i <= KEYS_AMOUNT,
            keys@.len() == KEYS_AMOUNT,
            forall|j: int|
                0 <= j < i ==> keys@[j] == if key_map@[j] == code {
                    down
                } else {
                    old(keys)@[j]
                },
            forall|j: int| i <= j < KEYS_AMOUNT ==> keys@[j] == old(keys)@[j],
        decreases KEYS_AMOUNT - i,
    {
        if key_map[i] == code {
            keys[i] = down;
        }
        i = i + 1;
    }
}

} // verus!
