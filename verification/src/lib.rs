//! The core of a music player: the register of the track that is currently
//! selected, the lookup of the lyric file that accompanies a track, and the
//! choice of the tracks among the files of a directory.
//!
//! The library reads no file and keeps no state of its own. Whoever calls it
//! owns the [`register::TrackRegister`] and hands [`lyrics::resolve`] the
//! function that reads a text file. What the library decides is stated over
//! sequences of characters: a path is text in which `/` separates the
//! components, on every system.

pub mod greeting;
pub mod library;
pub mod lyrics;
pub mod path;
pub mod register;
pub mod user;
