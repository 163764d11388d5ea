//! Account registration, credential verification and token-based sessions.
//!
//! Passwords are kept only as salted digests, session tokens are digests of
//! random strings, and every session carries an expiry instant after which it
//! no longer resolves.

pub mod error;
pub mod laws;
pub mod secret;
pub mod session;
pub mod store;
pub mod user;

pub use error::AuthError;
pub use secret::{make_pwd_encode, sha3_256_encode};
pub use session::{
    destroy_session, now_seconds, resolve_session, set_session, SessionStore, DEFAULT_SESSION_TTL,
};
pub use store::{RecordStore, Ruser, SectionCreate};
pub use user::{
    GithubUserInfo, UpdateUserNickname, UserChangePassword, UserEdit, UserLogin, UserSignUp,
};
