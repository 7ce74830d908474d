//! An authentication core: session validity, revocation, and refresh-token
//! rotation with reuse detection.
pub mod auth;
pub mod decision;
pub mod error;
pub mod guarantees;
pub mod store;
pub mod session;
pub mod time;
pub mod token;

pub use auth::Authenticator;
pub use decision::AuthDecision;
pub use error::AuthError;
pub use store::{InMemorySessionStore, SessionStore};
pub use session::{Session, SessionId};
pub use token::{AccessToken, RefreshToken, RefreshTokenId};
