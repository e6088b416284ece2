pub mod info;
pub mod ws;
