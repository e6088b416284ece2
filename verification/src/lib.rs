pub mod config;
pub mod crypto;
pub mod decision;
pub mod execute;
pub mod ingest;
pub mod json;
pub mod positions;
pub mod text;
pub mod types;
pub mod msgpack;
