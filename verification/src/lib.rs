//! The rules of a small chat bot: which weekly affixes are active at a given
//! instant, how an affix is displayed, and how the bot's text commands are
//! read and answered.

pub mod affix;
mod clock;
pub mod command;
pub mod error;
pub mod number;
pub mod roll;
pub mod text;
pub mod words;
