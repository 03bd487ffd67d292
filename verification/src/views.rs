//! The two views, the action that a frame ends in, and the two-state machine
//! that a driver walks by obeying those actions.

use vstd::prelude::*;
use crate::context::{Color, Context, DrawCommand, Input};

verus! {

/// The red view. It holds nothing.
#[derive(Clone, Copy, Debug, PartialEq, Eq, Structural)]
pub struct ViewA;

/// The blue view. It holds nothing.
#[derive(Clone, Copy, Debug, PartialEq, Eq, Structural)]
pub struct ViewB;

/// The view that a driver currently holds: always exactly one of the two.
#[derive(Clone, Copy, Debug, PartialEq, Eq, Structural)]
pub enum ActiveView {
    A(ViewA),
    B(ViewB),
}

/// What a view tells the driver at the end of a frame.
#[derive(Clone, Copy, Debug, PartialEq, Eq, Structural)]
pub enum ViewAction {
    /// Go on with the same view.
    Stay,
    /// End the loop.
    Quit,
    /// Go on with the given view, which the driver now owns.
    ChangeView(ActiveView),
}

impl ActiveView {
    /// The colour that this view clears the surface to.
    pub open spec fn clear_color(self) -> Color {
        match self {
            ActiveView::A(_) => Color { r: 255, g: 0, b: 0 },
            ActiveView::B(_) => Color { r: 0, g: 0, b: 255 },
        }
    }

    /// The view that this view hands over to.
    pub open spec fn switch_target(self) -> ActiveView {
        match self {
            ActiveView::A(_) => ActiveView::B(ViewB),
            ActiveView::B(_) => ActiveView::A(ViewA),
        }
    }

    /// The action that a frame of this view ends in. Leaving is tested
    /// before switching.
    pub open spec fn action_on(self, input: Input) -> ViewAction {
        if input.quit_requested() {
            ViewAction::Quit
        } else if input.switch_requested() {
            ViewAction::ChangeView(self.switch_target())
        } else {
            ViewAction::Stay
        }
    }

    /// The calls that a frame of this view issues to the surface, in order:
    /// none unless the frame ends in `ViewAction::Stay`.
    pub open spec fn draws_on(self, input: Input) -> Seq<DrawCommand> {
        if self.action_on(input) == ViewAction::Stay {
            seq![DrawCommand::SetClearColor(self.clear_color()), DrawCommand::Clear]
        } else {
            Seq::empty()
        }
    }

    /// Renders one frame of whichever view this is.
    pub fn render(&mut self, context: &mut Context, elapsed_ms: u64) -> (action: ViewAction)
        ensures
            action == old(self).action_on(old(context).input),
            final(context).surface@ == old(context).surface@ + old(self).draws_on(
                old(context).input,
            ),
            final(context).input == old(context).input,
            *final(self) == *old(self),
    {
        match self {
            ActiveView::A(view) => view.render(context, elapsed_ms),
            ActiveView::B(view) => view.render(context, elapsed_ms),
        }
    }

    /// The view that a driver holding this view holds after obeying
    /// `action`, or `None` once the loop has ended.
    pub open spec fn after(self, action: ViewAction) -> Option<ActiveView> {
        match action {
            ViewAction::Stay => Some(self),
            ViewAction::Quit => None,
            ViewAction::ChangeView(next) => Some(next),
        }
    }

    /// Obeys `action` on behalf of a driver that holds this view.
    pub fn advance(self, action: ViewAction) -> (next: Option<ActiveView>)
        ensures
            next == self.after(action),
    {
        match action {
            ViewAction::Stay => Some(self),
            ViewAction::Quit => None,
            ViewAction::ChangeView(next) => Some(next),
        }
    }
}

impl ViewA {
    /// Renders one frame of the red view. The elapsed time is not looked at.
    pub fn render(&mut self, context: &mut Context, _elapsed_ms: u64) -> (action: ViewAction)
        ensures
            action == ActiveView::A(ViewA).action_on(old(context).input),
            final(context).surface@ == old(context).surface@ + ActiveView::A(ViewA).draws_on(
                old(context).input,
            ),
            final(context).input == old(context).input,
            *final(self) == *old(self),
    {
        let input = context.input;

        if input.quit || Some(true) == input.key_escape {
            return ViewAction::Quit;
        }

        if Some(true) == input.key_space {
            return ViewAction::ChangeView(ActiveView::B(ViewB));
        }

        context.surface.set_clear_color(Color { r: 255, g: 0, b: 0 });
        context.surface.clear();

        ViewAction::Stay
    }
}

impl ViewB {
    /// Renders one frame of the blue view. The elapsed time is not looked at.
    pub fn render(&mut self, context: &mut Context, _elapsed_ms: u64) -> (action: ViewAction)
        ensures
            action == ActiveView::B(ViewB).action_on(old(context).input),
            final(context).surface@ == old(context).surface@ + ActiveView::B(ViewB).draws_on(
                old(context).input,
            ),
            final(context).input == old(context).input,
            *final(self) == *old(self),
    {
        let input = context.input;

        if input.quit || Some(true) == input.key_escape {
            return ViewAction::Quit;
        }

        if Some(true) == input.key_space {
            return ViewAction::ChangeView(ActiveView::A(ViewA));
        }

        context.surface.set_clear_color(Color { r: 0, g: 0, b: 255 });
        context.surface.clear();

        ViewAction::Stay
    }
}

/// Closing the window ends the loop, whatever the keys did, and nothing is
/// drawn.
pub proof fn lemma_quit_ends_the_loop(view: ActiveView, input: Input)
    requires
        input.quit,
    ensures
        view.action_on(input) == ViewAction::Quit,
        view.draws_on(input) == Seq::<DrawCommand>::empty(),
        view.after(view.action_on(input)) == None::<ActiveView>,
{
}

/// Escape going down ends the loop, whatever else happened, and nothing is
/// drawn.
pub proof fn lemma_escape_ends_the_loop(view: ActiveView, input: Input)
    requires
        input.key_escape == Some(true),
    ensures
        view.action_on(input) == ViewAction::Quit,
        view.draws_on(input) == Seq::<DrawCommand>::empty(),
        view.after(view.action_on(input)) == None::<ActiveView>,
{
}

/// Space going down, in a frame that does not ask to leave, hands over to
/// the other view: the red view to the blue one and the blue view to the red
/// one. Nothing is drawn.
pub proof fn lemma_space_switches_to_the_other_view(view: ActiveView, input: Input)
    requires
        !input.quit,
        input.key_escape != Some(true),
        input.key_space == Some(true),
    ensures
        view.action_on(input) == ViewAction::ChangeView(view.switch_target()),
        view is A ==> view.switch_target() == ActiveView::B(ViewB),
        view is B ==> view.switch_target() == ActiveView::A(ViewA),
        view.draws_on(input) == Seq::<DrawCommand>::empty(),
        view.after(view.action_on(input)) == Some(view.switch_target()),
{
}

/// A frame in which nothing was asked for goes on with the same view, and
/// the surface receives exactly two calls: the view's colour is set, then the
/// surface is cleared. The red view's colour is (255, 0, 0), the blue view's
/// is (0, 0, 255).
pub proof fn lemma_idle_frame_clears_to_the_view_colour(view: ActiveView, input: Input)
    requires
        !input.quit,
        input.key_escape != Some(true),
        input.key_space != Some(true),
    ensures
        view.action_on(input) == ViewAction::Stay,
        view.draws_on(input) == seq![
            DrawCommand::SetClearColor(view.clear_color()),
            DrawCommand::Clear,
        ],
        view is A ==> view.clear_color() == (Color { r: 255, g: 0, b: 0 }),
        view is B ==> view.clear_color() == (Color { r: 0, g: 0, b: 255 }),
        view.after(view.action_on(input)) == Some(view),
{
}

/// Leaving wins over switching: a frame that asks for both ends the loop.
pub proof fn lemma_quit_wins_over_switch(view: ActiveView, input: Input)
    requires
        input.quit || input.key_escape == Some(true),
        input.key_space == Some(true),
    ensures
        view.action_on(input) == ViewAction::Quit,
        view.draws_on(input) == Seq::<DrawCommand>::empty(),
{
}

/// The two views form a cycle: each hands over to the other, so a driver
/// that obeys two switches in a row holds the view it started with.
pub proof fn lemma_two_switches_return(view: ActiveView, first: Input, second: Input)
    requires
        !first.quit_requested() && first.switch_requested(),
        !second.quit_requested() && second.switch_requested(),
    ensures
        view.switch_target() != view,
        view.switch_target().switch_target() == view,
        view.after(view.action_on(first)) == Some(view.switch_target()),
        view.switch_target().after(view.switch_target().action_on(second)) == Some(view),
{
}

} // verus!
