//! The scheduling engine of a tray pet: an animated icon in the notification
//! area that runs the faster the busier the processor is.
//!
//! The engine decides and leaves the doing to its caller. It is made of
//!
//! - the load sampler ([`sampler`], [`load`]), which keeps the processor load
//!   and lets a new measurement through only every few seconds;
//! - the selection ([`selection`]): which pet is shown, in which theme;
//! - the frame source registry ([`registry`], [`frames`], [`assets`]): the
//!   frames of every pet in every theme, built once from what was found on
//!   disk;
//! - the animation scheduler ([`scheduler`], [`cursor`], [`pacing`],
//!   [`tooltip`], [`traces`]): which frame comes next and how long it stays;
//! - the command dispatcher ([`dispatcher`]): what a click in the menu changes;
//! - the theme look-up ([`theme`]): what the platform's answers say about its
//!   appearance setting.

pub mod assets;
pub mod cursor;
pub mod dispatcher;
pub mod frames;
pub mod load;
pub mod pacing;
pub mod registry;
pub mod sampler;
pub mod scheduler;
pub mod selection;
pub mod text;
pub mod theme;
pub mod tooltip;
pub mod traces;
