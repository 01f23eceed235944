pub mod archive;
pub mod bundle;
pub mod error;
pub mod layout;
pub mod parser;
pub mod readme;
pub mod unpack;
