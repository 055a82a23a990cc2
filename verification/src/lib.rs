//! Login handshake for a Zhengfang-style academic-affairs portal: token
//! discovery, credential encryption and response classification, with the
//! network transport left to the caller.

pub mod classify;
pub mod client;
pub mod codec;
pub mod crypto;
pub mod decimal;
pub mod error;
pub mod login;
pub mod number;
pub mod text;
