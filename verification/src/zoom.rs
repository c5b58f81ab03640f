//! The zoom ladder: a percentage that moves in steps of ten between fixed
//! bounds, and the font size that follows from it.

use vstd::prelude::*;

verus! {

/// Smallest zoom percentage.
pub const ZOOM_MIN: usize = 10;

/// Largest zoom percentage.
pub const ZOOM_MAX: usize = 500;

/// Zoom percentage at start-up and after a reset.
pub const ZOOM_DEFAULT: usize = 100;

/// Distance between two neighbouring rungs of the ladder.
pub const ZOOM_STEP: usize = 10;

/// A percentage is on the ladder when it is a multiple of the step within
/// the bounds.
pub open spec fn on_ladder(percent: int) -> bool {
    &&& ZOOM_MIN <= percent <= ZOOM_MAX
    &&& percent % (ZOOM_STEP as int) == 0
}

/// The rung above `percent`, or `percent` itself at the top.
pub open spec fn step_up(percent: int) -> int {
    if percent < ZOOM_MAX {
        percent + ZOOM_STEP
    } else {
        percent
    }
}

/// The rung below `percent`, or `percent` itself at the bottom.
pub open spec fn step_down(percent: int) -> int {
    if percent > ZOOM_MIN {
        percent - ZOOM_STEP
    } else {
        percent
    }
}

/// A pinch or scroll gesture, reduced to its direction: the toolkit reports
/// a scale factor, and only its position relative to one matters.
#[derive(Clone, Copy, Debug, PartialEq, Eq, Structural)]
pub enum Gesture {
    /// The factor is above one.
    Grow,
    /// The factor is below one.
    Shrink,
    /// The factor is exactly one, or not a number.
    Still,
}

/// The percentage after one gesture: a whole step in its direction.
pub open spec fn after_gesture(percent: int, gesture: Gesture) -> int {
    match gesture {
        Gesture::Grow => step_up(percent),
        Gesture::Shrink => step_down(percent),
        Gesture::Still => percent,
    }
}

/// What the keyboard and the pointer asked of the zoom in one frame. The
/// parts are handled in the order of the fields.
#[derive(Clone, Copy, Debug, PartialEq, Eq, Structural)]
pub struct ZoomInput {
    /// The direction of the frame's zoom gesture.
    pub gesture: Gesture,
    /// The shortcut that restores the default zoom was pressed.
    pub reset: bool,
    /// The shortcut for one step up was pressed.
    pub step_in: bool,
    /// The shortcut for one step down was pressed.
    pub step_out: bool,
}

/// The percentage after one frame's zoom input: the gesture first, then the
/// reset, then the step up, then the step down.
pub open spec fn after_input(percent: int, input: ZoomInput) -> int {
    let pinched = after_gesture(percent, input.gesture);
    let restored = if input.reset {
        ZOOM_DEFAULT as int
    } else {
        pinched
    };
    let raised = if input.step_in {
        step_up(restored)
    } else {
        restored
    };
    if input.step_out {
        step_down(raised)
    } else {
        raised
    }
}

/// The percentage after a run of frames, each with its own zoom input.
pub open spec fn after_inputs(percent: int, inputs: Seq<ZoomInput>) -> int
    decreases inputs.len(),
{
    if inputs.len() == 0 {
        percent
    } else {
        after_input(after_inputs(percent, inputs.drop_last()), inputs.last())
    }
}

/// A font size in points, exact to the hundredth.
#[derive(Clone, Copy, Debug, PartialEq, Eq, Structural)]
pub struct FontSize {
    /// Whole points.
    pub points: u64,
    /// Hundredths of a point beyond the whole points, below one hundred.
    pub hundredths: u64,
}

impl FontSize {
    /// The size in hundredths of a point.
    pub open spec fn in_hundredths(self) -> int {
        self.points * 100 + self.hundredths
    }

    /// The fraction is a proper one.
    pub open spec fn normal(self) -> bool {
        self.hundredths < 100
    }
}

/// The font size that a base size of `base` points takes at `percent`
/// percent: `base * percent / 100`, held as whole points and hundredths so
/// that nothing is rounded.
pub open spec fn scaled_size(base: int, percent: int) -> FontSize {
    FontSize {
        points: ((base * percent) / 100) as u64,
        hundredths: ((base * percent) % 100) as u64,
    }
}

/// The zoom percentage of the editor. Every value of this type is on the
/// ladder.
#[derive(Debug)]
pub struct ZoomState {
    percent: usize,
}

impl View for ZoomState {
    type V = int;

    closed spec fn view(&self) -> int {
        self.percent as int
    }
}

impl ZoomState {
    /// What every zoom state satisfies: its percentage is on the ladder.
    #[verifier::type_invariant]
    pub open spec fn inv(&self) -> bool {
        on_ladder(self@)
    }

    /// The default zoom.
    pub fn new() -> (zoom: Self)
        ensures
            zoom@ == ZOOM_DEFAULT,
    {
        ZoomState { percent: ZOOM_DEFAULT }
    }

    /// The current percentage.
    pub fn percent(&self) -> (percent: usize)
        ensures
            percent == self@,
            on_ladder(self@),
    {
        proof {
            use_type_invariant(self);
        }
        self.percent
    }

    /// One step up, unless already at the top.
    pub fn zoom_in(&mut self)
        ensures
            final(self)@ == step_up(old(self)@),
            on_ladder(final(self)@),
        no_unwind
    {
        proof {
            use_type_invariant(&*self);
        }
        if self.percent < ZOOM_MAX {
            self.percent += ZOOM_STEP;
        }
    }

    /// One step down, unless already at the bottom.
    pub fn zoom_out(&mut self)
        ensures
            final(self)@ == step_down(old(self)@),
            on_ladder(final(self)@),
        no_unwind
    {
        proof {
            use_type_invariant(&*self);
        }
        if self.percent > ZOOM_MIN {
            self.percent -= ZOOM_STEP;
        }
    }

    /// Back to the default, whatever the zoom was.
    pub fn zoom_reset(&mut self)
        ensures
            final(self)@ == ZOOM_DEFAULT,
            on_ladder(final(self)@),
        no_unwind
    {
        self.percent = ZOOM_DEFAULT;
    }

    /// One whole step in the direction of the gesture; a still gesture
    /// changes nothing.
    pub fn apply_gesture(&mut self, gesture: Gesture)
        ensures
            final(self)@ == after_gesture(old(self)@, gesture),
            on_ladder(final(self)@),
        no_unwind
    {
        proof {
            use_type_invariant(&*self);
        }
        match gesture {
            Gesture::Grow => self.zoom_in(),
            Gesture::Shrink => self.zoom_out(),
            Gesture::Still => {},
        }
    }

    /// Handles one frame's zoom input.
    pub fn handle_input(&mut self, input: ZoomInput)
        ensures
            final(self)@ == after_input(old(self)@, input),
            on_ladder(final(self)@),
        no_unwind
    {
        self.apply_gesture(input.gesture);
        if input.reset {
            self.zoom_reset();
        }
        if input.step_in {
            self.zoom_in();
        }
        if input.step_out {
            self.zoom_out();
        }
    }

    /// The size at which text of base size `base` is drawn under this zoom.
    /// It is computed from the percentage on every call and stored nowhere.
    pub fn effective_font_size(&self, base: u32) -> (size: FontSize)
        ensures
            size == scaled_size(base as int, self@),
            size.normal(),
            size.in_hundredths() == base * self@,
    {
        proof {
            use_type_invariant(self);
        }
        let wide: u64 = base as u64;
        let percent: u64 = self.percent as u64;
        assert(wide * percent <= 0xffff_ffff * 500) by (nonlinear_arith)
            requires
                wide <= 0xffff_ffff,
                percent <= 500,
        ;
        let scaled: u64 = wide * percent;
        FontSize { points: scaled / 100, hundredths: scaled % 100 }
    }
}

/// Every operation of the ladder leads from a rung to a rung.
pub proof fn lemma_ladder_is_closed(percent: int, gesture: Gesture, input: ZoomInput)
    requires
        on_ladder(percent),
    ensures
        on_ladder(step_up(percent)),
        on_ladder(step_down(percent)),
        on_ladder(ZOOM_DEFAULT as int),
        on_ladder(after_gesture(percent, gesture)),
        on_ladder(after_input(percent, input)),
{
}

/// However many steps, gestures and resets follow one another, a percentage
/// that started on the ladder is still on it.
pub proof fn lemma_inputs_stay_on_ladder(percent: int, inputs: Seq<ZoomInput>)
    requires
        on_ladder(percent),
    ensures
        on_ladder(after_inputs(percent, inputs)),
    decreases inputs.len(),
{
    if inputs.len() > 0 {
        lemma_inputs_stay_on_ladder(percent, inputs.drop_last());
    }
}

/// At the top a step up changes nothing, at the bottom a step down changes
/// nothing, and a gesture in either direction is the matching step.
pub proof fn lemma_steps_stop_at_the_bounds(percent: int)
    ensures
        step_up(ZOOM_MAX as int) == ZOOM_MAX,
        step_down(ZOOM_MIN as int) == ZOOM_MIN,
        after_gesture(percent, Gesture::Grow) == step_up(percent),
        after_gesture(percent, Gesture::Shrink) == step_down(percent),
        after_gesture(percent, Gesture::Still) == percent,
{
}

/// The scaled size is a function of base size and percentage alone, and it
/// is exactly their product over one hundred.
pub proof fn lemma_scaled_size_is_exact(base: int, percent: int)
    requires
        0 <= base <= u32::MAX,
        on_ladder(percent),
    ensures
        scaled_size(base, percent).normal(),
        scaled_size(base, percent).in_hundredths() == base * percent,
        percent == 100 ==> scaled_size(base, percent) == (FontSize { points: base as u64, hundredths: 0 }),
{
    assert(0 <= base * percent <= 0xffff_ffff * 500) by (nonlinear_arith)
        requires
            0 <= base <= 0xffff_ffff,
            10 <= percent <= 500,
    ;
    if percent == 100 {
        assert(base * percent == base * 100);
    }
}

} // verus!
