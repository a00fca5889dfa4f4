//! Configuration constants shared by the services.
use vstd::prelude::*;

verus! {

/// Default port of the RPC service.
pub const GRPC_PORT: u16 = 50051;

/// Default port of the web service.
pub const WEB_PORT: u16 = 3000;

/// Maximum length of a task title, in characters.
pub const MAX_TITLE_LENGTH: usize = 200;

/// Maximum length of a task description, in characters.
pub const MAX_DESCRIPTION_LENGTH: usize = 2000;

/// Maximum length of a username, in characters.
pub const MAX_USERNAME_LENGTH: usize = 50;

/// Minimum length of a username, in characters.
pub const MIN_USERNAME_LENGTH: usize = 3;

/// Minimum length of a password, in characters.
pub const MIN_PASSWORD_LENGTH: usize = 8;

} // verus!
