//! The decisions of a chat bot that streams a media library: the playback
//! queue with the controller that drives the media pipeline through it, and
//! the texts, menus and requests that the bot's commands are made of.
//!
//! Nothing here performs input or output. The controller in [`queue`] is
//! told what was observed of the pipeline and answers with the requests to
//! carry out; [`pipeline`] holds the pipeline's state machine, and [`laws`]
//! what is proved of the two together. The other modules serve the bot's
//! commands: [`item`] makes queue items, [`emby`] and [`menu`] turn the media
//! library's records into names, menus and requests, [`paging`] cuts long
//! menus into pages, [`interaction`] names and reads the player's components,
//! [`commands`] and [`error`] hold the rest, and [`text`] the work on
//! characters that they share.
pub mod commands;
pub mod emby;
pub mod error;
pub mod interaction;
pub mod item;
pub mod laws;
pub mod menu;
pub mod paging;
pub mod pipeline;
pub mod queue;
pub mod text;
