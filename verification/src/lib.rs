//! A compiler from a declarative interface schema (messages, enumerations and
//! services) to source declarations: records, discriminated enumerations and
//! service interfaces with asynchronous method signatures.

pub mod builder;
pub mod enum_tokens;
pub mod error;
pub mod laws;
pub mod message_tokens;
pub mod names;
pub mod render;
pub mod schema;
pub mod sequence;
pub mod service_tokens;
pub mod text;
pub mod tokens;
pub mod unit;

pub use builder::Builder;
pub use error::{CompileError, Failure, TypeError};
pub use schema::SchemaValue;
