//! Authentication core of a record-management application: credential
//! validation, password digests, signed identity claims, server-side
//! sessions and one-shot flash messages.

pub mod codec;
mod text;
pub mod claims;
pub mod error;
pub mod flash;
pub mod gateway;
pub mod password;
pub mod session;
pub mod username;
pub mod users;
