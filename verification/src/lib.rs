//! A terminal media viewer library: quality profiles, ASCII-art conversion,
//! frame caching with least-recently-used eviction, and playback pacing,
//! together with the small widgets of the surrounding user interface.

pub mod app_state;
pub mod ascii;
pub mod cache;
pub mod config;
pub mod decimal;
pub mod form;
pub mod frame;
pub mod gamma;
pub mod input;
pub mod journal;
pub mod journal_enhanced;
pub mod playback;
pub mod quality;
pub mod resample;
pub mod screen;
pub mod source;
pub mod table;
pub mod widget;

pub use frame::Frame;
pub use quality::ImageQuality;
pub use source::ImageError;
pub use widget::ImageWidget;
