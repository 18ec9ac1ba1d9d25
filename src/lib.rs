//! Scene state machine and frame production for an LED matrix that shows
//! one of a few scenes, chosen by commands from a message bus.
pub mod scene;
pub mod engine;
pub mod mailbox;
pub mod command;
