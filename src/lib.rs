pub mod error;
pub mod extract;
pub mod header;
pub mod meter;
pub mod redirect;
pub mod resolve;
pub mod playlist;
