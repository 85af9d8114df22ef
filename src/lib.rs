//! Wobbly bars: a row of vertical bars whose heights move like damped
//! springs and which the mouse can push upward.
//!
//! The physics runs on integers: heights are whole pixels, velocities are
//! thousandths of a pixel per tick, and the spring, damping and push rates
//! are given in thousandths as well. A physics loop advances the bars at a
//! fixed pace and a presentation loop draws them; the two exchange values
//! through single-slot mailboxes that keep only the latest message.
pub mod bar;
pub mod clock;
pub mod config;
pub mod frame;
pub mod mailbox;
pub mod physics;
