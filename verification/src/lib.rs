//! Verified RPC response types of a Solana-style JSON RPC interface, with the
//! text encodings they use and the decisions a validator front end makes.

pub mod text;
pub mod commit;
pub mod api_version;
pub mod response;
pub mod validator;
