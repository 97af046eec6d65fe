//! Decoder library for the osu! client's binary database and replay formats:
//! the installed-beatmap listing (`osu!.db`), beatmap collections
//! (`collection.db`), local score listings (`scores.db`) and standalone
//! replays (`.osr`), together with the accuracy and grade arithmetic that
//! operates on decoded score records.
//!
//! Every decoder consumes a byte buffer strictly left to right and is
//! specified against a mathematical description of the wire format; a decode
//! either returns a fully populated structure or an error naming the offset
//! at which the input went wrong.

pub mod beatmaps;
pub mod collections;
pub mod common;
pub mod error;
pub mod prelude;
pub mod reader;
pub mod scores;
