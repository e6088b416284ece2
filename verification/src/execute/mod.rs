pub mod exchange;
pub mod signer;
