//! Cluv: a timeline composition engine.
//!
//! The library models a virtual stage with materials, tracks and segments,
//! validates a composition session, persists it as a protocol document, and
//! compiles it into a deterministic filter graph for an external media engine.

pub mod codec;
pub mod editor;
pub mod error;
pub mod ffmpeg;
pub mod ffprobe;
pub mod filter;
pub mod ident;
pub mod input;
pub mod kvlist;
pub mod material;
pub mod numeric;
pub mod options;
pub mod output;
pub mod protocol;
pub mod segment;
pub mod session;
pub mod stage;
pub mod stream;
pub mod strutil;
pub mod track;
pub mod util;

pub use editor::{Editor, ExportOptions};
pub use error::CluvError;
pub use material::{AudioMaterial, Dimension, ImageMaterial, Material, MaterialType, VideoMaterial};
pub use options::{CluvOptions, FFmpegOptions, FFprobeOptions, LogLevel};
pub use protocol::{CutProtocol, ExportConfig, ExportType};
pub use segment::{Position, Scale, Segment, SegmentType, TimeRange};
pub use session::EditSession;
pub use stage::Stage;
pub use track::{Track, TrackType};
