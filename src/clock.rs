//! The clock's state: its shape parameters, whether it is paused, and the
//! last time of day it showed. The parameters are generic over the number
//! type `F` the renderer draws with; the state never does arithmetic on them.
use crate::expansion::{frame_plan, is_frame_plan, lit_levels, Stroke, MAX_LEVELS};
use vstd::prelude::*;

verus! {

/// A partial update of the clock's parameters: each field present replaces
/// the clock's value, each field absent leaves it as it is.
pub struct FractalClockSettings<F> {
    pub zoom: Option<F>,
    pub start_line_width: Option<F>,
    pub depth: Option<usize>,
    pub length_factor: Option<F>,
    pub luminance_factor: Option<F>,
    pub width_factor: Option<F>,
}

impl<F: Copy> FractalClockSettings<F> {
    pub fn new(
        zoom: Option<F>,
        start_line_width: Option<F>,
        depth: Option<usize>,
        length_factor: Option<F>,
        luminance_factor: Option<F>,
        width_factor: Option<F>,
    ) -> (r: FractalClockSettings<F>)
        ensures
            r.zoom == zoom,
            r.start_line_width == start_line_width,
            r.depth == depth,
            r.length_factor == length_factor,
            r.luminance_factor == luminance_factor,
            r.width_factor == width_factor,
    {
        FractalClockSettings {
            zoom,
            start_line_width,
            depth,
            length_factor,
            luminance_factor,
            width_factor,
        }
    }
}

/// Value of a parameter after an update that may or may not carry it.
pub open spec fn updated<T>(current: T, incoming: Option<T>) -> T {
    match incoming {
        Some(v) => v,
        None => current,
    }
}

/// State of one fractal clock.
pub struct FractalClock<F> {
    /// While paused, the clock keeps showing `time`.
    pub paused: bool,
    /// The time of day shown, in nanoseconds since midnight.
    pub time: u64,
    /// Scale of the picture: the shorter side of the view spans `2 / zoom`.
    pub zoom: F,
    /// Width of the hands; each level multiplies it by `width_factor`.
    pub start_line_width: F,
    /// Most levels of branches drawn.
    pub depth: usize,
    /// Length of the second and minute hands; the hour hand has length 0.5.
    pub length_factor: F,
    /// Each level multiplies the branch brightness by this factor.
    pub luminance_factor: F,
    /// Each level multiplies the branch width by this factor.
    pub width_factor: F,
    /// Number of strokes the last frame drew.
    pub line_count: usize,
}

/// `after` is `before` with `settings` applied.
pub open spec fn settings_applied<F>(
    before: FractalClock<F>,
    settings: FractalClockSettings<F>,
    after: FractalClock<F>,
) -> bool {
    after == FractalClock::<F> {
        zoom: updated(before.zoom, settings.zoom),
        start_line_width: updated(before.start_line_width, settings.start_line_width),
        depth: updated(before.depth, settings.depth),
        length_factor: updated(before.length_factor, settings.length_factor),
        luminance_factor: updated(before.luminance_factor, settings.luminance_factor),
        width_factor: updated(before.width_factor, settings.width_factor),
        ..before
    }
}

/// `after` is `before` advanced to the time of day `now`.
pub open spec fn advanced<F>(before: FractalClock<F>, now: u64, after: FractalClock<F>) -> bool {
    after == FractalClock::<F> { time: if before.paused { before.time } else { now }, ..before }
}

/// `after` is `before` with its pause switched.
pub open spec fn toggled<F>(before: FractalClock<F>, after: FractalClock<F>) -> bool {
    after == FractalClock::<F> { paused: !before.paused, ..before }
}

/// Moves an optional value out of a shared reference.
fn pick<T: Copy>(current: T, incoming: &Option<T>) -> (r: T)
    ensures
        r == updated(current, *incoming),
{
    match incoming {
        Some(v) => *v,
        None => current,
    }
}

impl<F: Copy> FractalClock<F> {
    /// A running clock at midnight with the given parameters.
    pub fn new(
        zoom: F,
        start_line_width: F,
        depth: usize,
        length_factor: F,
        luminance_factor: F,
        width_factor: F,
    ) -> (r: FractalClock<F>)
        ensures
            !r.paused,
            r.time == 0,
            r.zoom == zoom,
            r.start_line_width == start_line_width,
            r.depth == depth,
            r.length_factor == length_factor,
            r.luminance_factor == luminance_factor,
            r.width_factor == width_factor,
            r.line_count == 0,
    {
        FractalClock {
            paused: false,
            time: 0,
            zoom,
            start_line_width,
            depth,
            length_factor,
            luminance_factor,
            width_factor,
            line_count: 0,
        }
    }

    /// Replaces each parameter that `settings` carries.
    pub fn apply_clock_settings(&mut self, settings: &FractalClockSettings<F>)
        ensures
            settings_applied(*old(self), *settings, *final(self)),
    {
        self.zoom = pick(self.zoom, &settings.zoom);
        self.start_line_width = pick(self.start_line_width, &settings.start_line_width);
        self.depth = pick(self.depth, &settings.depth);
        self.length_factor = pick(self.length_factor, &settings.length_factor);
        self.luminance_factor = pick(self.luminance_factor, &settings.luminance_factor);
        self.width_factor = pick(self.width_factor, &settings.width_factor);
    }

    /// Takes the current time of day `now`, unless paused. Returns whether the
    /// clock is running, in which case the host should draw again soon.
    pub fn advance(&mut self, now: u64) -> (repaint: bool)
        ensures
            advanced(*old(self), now, *final(self)),
            repaint == !old(self).paused,
    {
        if !self.paused {
            self.time = now;
            true
        } else {
            false
        }
    }

    /// Pauses a running clock, or resumes a paused one.
    pub fn toggle_pause(&mut self)
        ensures
            toggled(*old(self), *final(self)),
    {
        self.paused = !self.paused;
    }

    /// Records how many strokes the last frame drew.
    pub fn record_line_count(&mut self, count: usize)
        ensures
            *final(self) == (FractalClock::<F> { line_count: count, ..*old(self) }),
    {
        self.line_count = count;
    }

    /// The strokes of the next frame, for levels of the given 8-bit
    /// luminances (see `expansion::frame_plan`).
    pub fn frame_plan(&self, level_luminance: &Vec<u8>) -> (r: Vec<Stroke>)
        requires
            level_luminance@.len() <= MAX_LEVELS,
        ensures
            is_frame_plan(r@, level_luminance@, lit_levels(self.depth as nat, level_luminance@)),
    {
        frame_plan(self.depth, level_luminance)
    }
}

/// Settings that carry no field change nothing.
pub proof fn law_empty_settings<F>(
    before: FractalClock<F>,
    settings: FractalClockSettings<F>,
    after: FractalClock<F>,
)
    requires
        settings.zoom is None,
        settings.start_line_width is None,
        settings.depth is None,
        settings.length_factor is None,
        settings.luminance_factor is None,
        settings.width_factor is None,
        settings_applied(before, settings, after),
    ensures
        after == before,
{
}

/// Settings that carry the depth alone change the depth alone.
pub proof fn law_depth_only_settings<F>(
    before: FractalClock<F>,
    settings: FractalClockSettings<F>,
    after: FractalClock<F>,
    depth: usize,
)
    requires
        settings.zoom is None,
        settings.start_line_width is None,
        settings.depth == Some(depth),
        settings.length_factor is None,
        settings.luminance_factor is None,
        settings.width_factor is None,
        settings_applied(before, settings, after),
    ensures
        after == (FractalClock::<F> { depth, ..before }),
{
}

/// A running clock that is paused keeps its time when advanced; once
/// resumed, advancing it takes the new time.
pub proof fn law_pause_holds_time<F>(
    running: FractalClock<F>,
    paused: FractalClock<F>,
    held: FractalClock<F>,
    resumed: FractalClock<F>,
    running_again: FractalClock<F>,
    now: u64,
    later: u64,
)
    requires
        !running.paused,
        toggled(running, paused),
        advanced(paused, now, held),
        toggled(held, resumed),
        advanced(resumed, later, running_again),
    ensures
        held.time == running.time,
        running_again.time == later,
{
}

} // verus!
