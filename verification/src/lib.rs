//! Engagement statistics and live-notification fan-out for a content site.
//!
//! The library keeps per-entity view statistics (view counts, cumulative
//! scroll height and time on page, concurrent-viewer counters), applies the
//! update rules for client view reports, and maintains the registry of live
//! connections that engagement events are broadcast to.  Scroll heights are
//! kept as fixed-point hundredths, so stored values are always exact at two
//! decimal places.

pub mod auth;
pub mod chat;
pub mod errors;
pub mod feedback;
pub mod forms;
pub mod history;
pub mod item;
pub mod media;
pub mod order;
pub mod serve;
pub mod stat;
pub mod tag;
pub mod text;
pub mod utils;
pub mod websocket;
