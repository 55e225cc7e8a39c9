//! Ambient TV playback for a media-center player: the resolution of a show
//! title to one playable episode, the shared TV-mode state with its control
//! operations, and the scheduler that keeps something playing.
pub mod api;
pub mod catalog;
pub mod index;
pub mod json;
pub mod jukectl;
pub mod mode;
pub mod resolver;
pub mod routing;
pub mod rpc;
pub mod scheduler;
