//! What one frame does to one camera.
//!
//! A frame can turn the camera around its pivot, slide camera and pivot
//! together, and change the camera's distance from the pivot. Which of these
//! take place depends on the camera's controls, on the buttons that are held,
//! and on whether the pointer moved and the wheel turned since the last frame.

use vstd::prelude::*;
use bevy::input::Input;
use crate::controls::Controls;
use crate::input::{button_held, held_buttons};

verus! {

/// One movement of the camera.
#[derive(Clone, Copy, Debug, PartialEq, Eq, Structural)]
pub enum Step {
    /// Turn around the pivot by the pointer's motion and face the pivot.
    Rotate,
    /// Slide camera and pivot by the same vector.
    Pan,
    /// Rescale the distance from the pivot along the present direction.
    Zoom,
}

/// The movements that one frame applies to one camera.
#[derive(Clone, Copy, Debug, PartialEq, Eq, Structural)]
pub struct FramePlan {
    pub rotate: bool,
    pub pan: bool,
    pub zoom: bool,
}

/// The plan for a camera with these controls, given which of its two buttons
/// are held and what input the frame brought.
///
/// A camera that is not enabled does nothing. The pointer's motion turns the
/// camera while the rotate button is held and slides it while the pan button
/// is held; both may happen in one frame. The wheel zooms whatever is held.
pub open spec fn planned(
    controls: Controls,
    rotate_held: bool,
    pan_held: bool,
    moved: bool,
    scrolled: bool,
) -> FramePlan {
    FramePlan {
        rotate: controls.enabled && moved && rotate_held,
        pan: controls.enabled && moved && pan_held,
        zoom: controls.enabled && scrolled,
    }
}

/// The place of a movement in the order of a frame.
pub open spec fn step_rank(step: Step) -> int {
    match step {
        Step::Rotate => 0,
        Step::Pan => 1,
        Step::Zoom => 2,
    }
}

impl FramePlan {
    /// The plan that leaves the camera as it is.
    pub open spec fn idle() -> FramePlan {
        FramePlan { rotate: false, pan: false, zoom: false }
    }

    /// The movements in the order in which they are applied: the turn first,
    /// so that the slide follows the camera's new axes, and the zoom last, so
    /// that it measures from the pivot's new place.
    pub open spec fn spec_steps(self) -> Seq<Step> {
        (if self.rotate { seq![Step::Rotate] } else { Seq::<Step>::empty() })
            + (if self.pan { seq![Step::Pan] } else { Seq::<Step>::empty() })
            + (if self.zoom { seq![Step::Zoom] } else { Seq::<Step>::empty() })
    }

    /// Whether the plan leaves the camera as it is.
    pub fn is_idle(&self) -> (r: bool)
        ensures
            r == (*self == FramePlan::idle()),
            r == (self.spec_steps().len() == 0),
    {
        !self.rotate && !self.pan && !self.zoom
    }

    /// The movements to apply, in order.
    pub fn steps(&self) -> (v: Vec<Step>)
        ensures
            v@ == self.spec_steps(),
    {
        let mut v: Vec<Step> = Vec::new();
        if self.rotate {
            v.push(Step::Rotate);
        }
        if self.pan {
            v.push(Step::Pan);
        }
        if self.zoom {
            v.push(Step::Zoom);
        }
        assert(v@ =~= self.spec_steps());
        v
    }
}

/// Plans one frame for one camera from the state of its two buttons.
///
/// `moved` says that the pointer's motion since the last frame is not zero,
/// `scrolled` that the wheel's total is not zero.
pub fn plan_from_held(
    controls: &Controls,
    rotate_held: bool,
    pan_held: bool,
    moved: bool,
    scrolled: bool,
) -> (plan: FramePlan)
    ensures
        plan == planned(*controls, rotate_held, pan_held, moved, scrolled),
{
    if !controls.enabled {
        return FramePlan { rotate: false, pan: false, zoom: false };
    }
    FramePlan { rotate: moved && rotate_held, pan: moved && pan_held, zoom: scrolled }
}

/// Plans one frame for one camera from the host's record of held buttons.
///
/// `moved` says that the pointer's motion since the last frame is not zero,
/// `scrolled` that the wheel's total is not zero. Of the record only the
/// camera's own two buttons matter.
pub fn plan_frame(
    controls: &Controls,
    input: &Input<bevy::input::mouse::MouseButton>,
    moved: bool,
    scrolled: bool,
) -> (plan: FramePlan)
    ensures
        plan == planned(
            *controls,
            held_buttons(*input).contains(controls.rotate_button),
            held_buttons(*input).contains(controls.pan_button),
            moved,
            scrolled,
        ),
{
    let rotate_held = button_held(input, controls.rotate_button);
    let pan_held = button_held(input, controls.pan_button);
    plan_from_held(controls, rotate_held, pan_held, moved, scrolled)
}

/// Plans one frame for every camera of a scene: one plan for each camera, in
/// the cameras' order, each made as `plan_frame` makes it.
pub fn plan_pass(
    cameras: &Vec<Controls>,
    input: &Input<bevy::input::mouse::MouseButton>,
    moved: bool,
    scrolled: bool,
) -> (plans: Vec<FramePlan>)
    ensures
        plans@.len() == cameras@.len(),
        forall|i: int|
            0 <= i < cameras@.len() ==> #[trigger] plans@[i] == planned(
                cameras@[i],
                held_buttons(*input).contains(cameras@[i].rotate_button),
                held_buttons(*input).contains(cameras@[i].pan_button),
                moved,
                scrolled,
            ),
{
    let mut plans: Vec<FramePlan> = Vec::new();
    let mut k: usize = 0;
    while k < cameras.len()
        invariant
            k <= cameras@.len(),
            plans@.len() == k,
            forall|i: int|
                0 <= i < k ==> #[trigger] plans@[i] == planned(
                    cameras@[i],
                    held_buttons(*input).contains(cameras@[i].rotate_button),
                    held_buttons(*input).contains(cameras@[i].pan_button),
                    moved,
                    scrolled,
                ),
        decreases cameras@.len() - k,
    {
        let plan = plan_frame(&cameras[k], input, moved, scrolled);
        plans.push(plan);
        k = k + 1;
    }
    plans
}

/// A camera that is not enabled is left as it is, whatever the input.
pub proof fn lemma_disabled_is_idle(
    controls: Controls,
    rotate_held: bool,
    pan_held: bool,
    moved: bool,
    scrolled: bool,
)
    requires
        !controls.enabled,
    ensures
        planned(controls, rotate_held, pan_held, moved, scrolled) == FramePlan::idle(),
        planned(controls, rotate_held, pan_held, moved, scrolled).spec_steps() =~= Seq::<Step>::empty(),
{
}

/// A frame without motion and without scrolling leaves the camera as it is,
/// whatever is held.
pub proof fn lemma_no_input_is_idle(controls: Controls, rotate_held: bool, pan_held: bool)
    ensures
        planned(controls, rotate_held, pan_held, false, false) == FramePlan::idle(),
        planned(controls, rotate_held, pan_held, false, false).spec_steps() =~= Seq::<Step>::empty(),
{
}

/// With neither of its buttons held, the pointer's motion does not move the
/// camera: only the wheel can.
pub proof fn lemma_motion_needs_button(controls: Controls, moved: bool, scrolled: bool)
    ensures
        !planned(controls, false, false, moved, scrolled).rotate,
        !planned(controls, false, false, moved, scrolled).pan,
        planned(controls, false, false, moved, scrolled).zoom == (controls.enabled && scrolled),
{
}

/// A plan's steps hold each movement that the plan calls for, once, and no
/// other; the turn comes before the slide, and the zoom last.
pub proof fn lemma_steps_follow_plan(plan: FramePlan)
    ensures
        plan.spec_steps().contains(Step::Rotate) == plan.rotate,
        plan.spec_steps().contains(Step::Pan) == plan.pan,
        plan.spec_steps().contains(Step::Zoom) == plan.zoom,
        plan.spec_steps().no_duplicates(),
        forall|i: int, j: int|
            0 <= i < j < plan.spec_steps().len() ==> step_rank(#[trigger] plan.spec_steps()[i])
                < step_rank(#[trigger] plan.spec_steps()[j]),
{
    let s = plan.spec_steps();
    if plan.rotate {
        assert(s[0] == Step::Rotate);
    }
    if plan.pan {
        let i = if plan.rotate { 1int } else { 0int };
        assert(s[i] == Step::Pan);
    }
    if plan.zoom {
        let i = s.len() - 1;
        assert(s[i] == Step::Zoom);
    }
}

} // verus!
