//! A logging core with verified behaviour: an ordered severity model, a
//! declarative format configuration built incrementally, a per-record
//! renderer with target allow/deny filtering, padding, coloring and
//! configurable line endings, a set of destination adapters (basic, plain
//! writable, colored terminal, in-memory capture), and a combinator that
//! fans records out to many adapters behind one severity gate.
//!
//! Every rendering decision is specified against a mathematical model of
//! the configuration and the record; the clock, the terminal and the
//! standard streams are reached only through small trusted wrappers.

pub mod ansi;
pub mod comblog;
pub mod config;
pub mod format;
pub mod laws;
pub mod level;
pub mod record;
pub mod render;
pub mod simplelog;
pub mod sinks;
pub mod termlog;
pub mod testlog;
pub mod text;
pub mod timefmt;
pub mod writelog;

pub use comblog::Adapter;
pub use comblog::CombinedLogger;
pub use comblog::SharedLogger;
pub use config::Color;
pub use config::Config;
pub use config::ConfigBuilder;
pub use config::LevelPadding;
pub use config::LineEnding;
pub use config::TargetPadding;
pub use config::ThreadLogMode;
pub use config::ThreadPadding;
pub use config::TimeFormat;
pub use format::Format;
pub use format::FormatBuilder;
pub use format::FormatPart;
pub use format::FormatPartType;
pub use level::Level;
pub use level::LevelFilter;
pub use record::LogRecord;
pub use render::RenderOp;
pub use simplelog::SimpleLogger;
pub use sinks::LogError;
pub use sinks::WriteSink;
pub use termlog::ColorChoice;
pub use termlog::TermLogError;
pub use termlog::TermLogger;
pub use termlog::TerminalMode;
pub use testlog::TestLogger;
pub use timefmt::time_pattern_is_valid;
pub use writelog::WriteLogger;
