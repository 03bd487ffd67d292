//! What a view is handed for one frame: the input snapshot it reads and the
//! drawing surface it issues calls to.

use vstd::prelude::*;

verus! {

/// An opaque colour by its red, green and blue parts.
#[derive(Clone, Copy, Debug, PartialEq, Eq, Structural)]
pub struct Color {
    pub r: u8,
    pub g: u8,
    pub b: u8,
}

/// One call that a drawing surface received.
#[derive(Clone, Copy, Debug, PartialEq, Eq, Structural)]
pub enum DrawCommand {
    /// The colour that the next clear fills with.
    SetClearColor(Color),
    /// Fill the whole surface with the current clear colour.
    Clear,
}

/// A drawing surface that keeps, in order, the calls it received. Whoever
/// owns the real screen replays them there.
pub struct Surface {
    commands: Vec<DrawCommand>,
}

impl View for Surface {
    type V = Seq<DrawCommand>;

    /// The calls received so far, oldest first.
    closed spec fn view(&self) -> Seq<DrawCommand> {
        self.commands@
    }
}

impl Surface {
    /// A surface that has received no call.
    pub fn new() -> (surface: Surface)
        ensures
            surface@ == Seq::<DrawCommand>::empty(),
    {
        Surface { commands: Vec::new() }
    }

    /// Receives a call that sets the clear colour.
    pub fn set_clear_color(&mut self, color: Color)
        ensures
            final(self)@ == old(self)@.push(DrawCommand::SetClearColor(color)),
    {
        self.commands.push(DrawCommand::SetClearColor(color));
    }

    /// Receives a call that clears the surface.
    pub fn clear(&mut self)
        ensures
            final(self)@ == old(self)@.push(DrawCommand::Clear),
    {
        self.commands.push(DrawCommand::Clear);
    }

    /// The calls received so far, oldest first.
    pub fn commands(&self) -> (commands: &Vec<DrawCommand>)
        ensures
            commands@ == self@,
    {
        &self.commands
    }

    /// Hands out the calls received so far, oldest first, and forgets them.
    pub fn take_commands(&mut self) -> (commands: Vec<DrawCommand>)
        ensures
            commands@ == old(self)@,
            final(self)@ == Seq::<DrawCommand>::empty(),
    {
        let mut taken: Vec<DrawCommand> = Vec::new();
        std::mem::swap(&mut self.commands, &mut taken);
        taken
    }
}

/// What the player did during one frame. A key field is `Some(true)` when
/// the key went down in this frame, `Some(false)` when it came up, and `None`
/// when it did not change.
#[derive(Clone, Copy, Debug, PartialEq, Eq, Structural)]
pub struct Input {
    pub quit: bool,
    pub key_escape: Option<bool>,
    pub key_space: Option<bool>,
}

impl Input {
    /// The player asked to leave: the window was closed or escape went down.
    pub open spec fn quit_requested(self) -> bool {
        self.quit || self.key_escape == Some(true)
    }

    /// The player asked for the other view: space went down.
    pub open spec fn switch_requested(self) -> bool {
        self.key_space == Some(true)
    }
}

/// The state shared between the driver and the active view during one frame.
pub struct Context {
    pub surface: Surface,
    pub input: Input,
}

} // verus!
