use vstd::prelude::*;

verus! {

/// Marker for the intro screen: while an entity carries it, the intro route is shown.
#[derive(Debug, Default, Clone, Copy, PartialEq, Eq, Structural)]
pub struct IntroRoute;

/// The plugin value that installs the intro route's systems.
#[derive(Debug, Default, Clone, Copy, PartialEq, Eq, Structural)]
pub struct IntroRoutePlugin;

/// What the intro route does on one tick, decided from the intro animation's
/// playback position.
#[derive(Debug, Clone, Copy, PartialEq, Eq, Structural)]
pub struct IntroStep {
    /// The intro's own sound starts (the animation shows its first frame).
    pub play_intro_audio: bool,
    /// The intro is over: unhide the cursor, replace the route by the main
    /// menu and switch to the menu music.
    pub finished: bool,
}

/// Decides the intro route's actions for an animation showing frame
/// `current_frame` out of `frame_count` frames.
pub fn intro_step(current_frame: usize, frame_count: usize) -> (r: IntroStep)
    ensures
        r.play_intro_audio == (current_frame == 0),
        r.finished == (current_frame + 1 == frame_count),
{
    IntroStep {
        play_intro_audio: current_frame == 0,
        finished: frame_count > 0 && current_frame == frame_count - 1,
    }
}

} // verus!
