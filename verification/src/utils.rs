//! Text handling, URL normalisation and status messages.
pub mod output;
pub mod path;
pub mod text;
pub mod url;
pub mod validation;
