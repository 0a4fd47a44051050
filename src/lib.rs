//! Resource-safety core for a native HEIF codec engine: translation of the
//! engine's result records, ownership of its processing context, and the
//! adapters through which the engine reads from an application's reader and
//! writes into an in-memory buffer.
pub mod context;
pub mod enums;
pub mod error;
pub mod reader;
pub mod writer;

pub use context::{ContextLifecycle, HandleState, Release};
pub use enums::CompressionFormat;
pub use error::{HeifError, HeifErrorCode, HeifErrorSubCode};
pub use reader::{GrowStatus, ReadRequest, ReaderBridge};
pub use writer::VectorWriter;
