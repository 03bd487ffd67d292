//! Two game screens that swap into each other on a keypress and otherwise
//! clear the drawing surface to a flat colour.
//!
//! A driver owns one [`views::ActiveView`] and, once per frame, hands it a
//! [`context::Context`] made of the frame's input snapshot and a drawing
//! surface. The view answers with a [`views::ViewAction`] and leaves on the
//! surface the calls it issued, in order.

pub mod context;
pub mod views;
