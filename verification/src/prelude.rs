//! Convenience re-exports of the library's data model and entry points.

pub use crate::beatmaps::{BeatmapEntry, BeatmapListing, RankedStatus, StarRating, TimingPoint};
pub use crate::collections::{Collection, CollectionListing};
pub use crate::common::{
    CalendarDateTime, GameplayMode, Mods, OsuString, WindowsDateTime,
};
pub use crate::error::Error;
pub use crate::scores::{
    BeatmapScores, Grade, LifebarGraph, LifebarPoint, ScoreListing, ScoreReplay,
};
