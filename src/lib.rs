//! Enrichment of battle-royale match telemetry for a fixed roster of players:
//! squad resolution, kill attribution, armor/distance/speed
//! correlation and a bounded history of match summaries.
pub mod vocab;
pub mod event;
pub mod geometry;
pub mod squad;
pub mod kills;
pub mod history;
pub mod correlate;
pub mod pipeline;
