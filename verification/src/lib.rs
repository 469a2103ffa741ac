//! Verified core of a wrapper around the ExifTool command-line program.
//!
//! ExifTool runs as one long-lived process in `-stay_open` mode. This
//! library holds what can be said without running it: the argument lists
//! that each operation sends, the framing of commands and responses, the
//! reading of ExifTool's answers, batch scripts and the shell's commands,
//! and the bookkeeping around them.

pub mod advanced;
pub mod args;
pub mod batch;
pub mod binary;
pub mod config;
pub mod error;
pub mod file_ops;
pub mod format;
pub mod geo;
pub mod paths;
pub mod process;
pub mod query;
pub mod repl;
pub mod retry;
pub mod session;
pub mod stream;
pub mod structs;
pub mod text;
pub mod types;
pub mod write;

pub use advanced::{DateShiftDirection, DateTimeOffset, NumericOperation, TimeUnit};
pub use binary::{BinaryTag, BinaryWriteBuilder, BinaryWriteResult};
pub use config::{DiffResult, HexDumpOptions, MetadataEntry, VerboseOptions};
pub use error::{Error, IoFailure, Result};
pub use file_ops::{OrganizeOptions, RenamePattern};
pub use format::{FormattedOutput, OutputFormat, ReadOptions};
pub use process::{CommandId, CommandRequest, Response};
pub use query::{BatchQueryBuilder, EscapeFormat, QueryBuilder};
pub use retry::{BatchResult, Recoverable};
pub use session::{CapabilitySnapshot, ExifToolBuilder};
pub use stream::{AsyncBatchResult, AsyncStreamOptions, PerformanceStats, ProgressTracker};
pub use types::TagId;
pub use write::{WriteBuilder, WriteMode, WriteResult};
