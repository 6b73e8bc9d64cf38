pub mod bytecode;
pub mod context;
pub mod encoding;
pub mod error;
pub mod gas_schedule;
pub mod interpreter;
pub mod operations;
pub mod primitives;
pub mod storage;

pub use context::Context;
pub use encoding::parse_hex;
pub use error::Error;
pub use interpreter::Interpreter;
