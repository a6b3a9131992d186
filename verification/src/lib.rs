//! A confirmation dialog widget for a small fixed-size display: a title, a
//! message body, an optional alert line, an optional leading icon, two action
//! buttons (cancel/confirm), and an optional secondary info overlay toggled by
//! a corner button.
//!
//! The crate covers the widget's layout algorithm, its interaction state
//! machine, and its paint composition. Rasterisation, touch digitisation and
//! asset storage belong to the host.

pub mod component;
pub mod confirm;
pub mod geometry;
pub mod laws;
pub mod theme;
