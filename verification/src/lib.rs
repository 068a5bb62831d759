//! Small, provider-neutral OIDC and browser-session primitives for server apps.
//!
//! Applications own persistence and product roles. This crate owns the
//! security-sensitive protocol mechanics shared by the applications: what is
//! decided, computed and checked between two exchanges with a browser or a
//! provider. The exchanges themselves are left to the caller. Each step says in
//! its result what is to be done next, and the step after it takes what came
//! of that.

pub mod client;
pub mod clock;
pub mod completion;
pub mod crypto;
pub mod encoding;
pub mod error;
pub mod flow_state;
pub mod groups;
pub mod identity;
pub mod provider;
pub mod return_to;
pub mod session;
pub mod text;
pub mod transaction;

pub use client::{
    AuthorizationRequest, Discovery, FlowSecrets, HttpLimits, MetadataRequest, OidcClient,
    OidcConfig, ProviderDocuments,
};
pub use clock::unix_time_seconds;
pub use completion::{CodeExchange, TokenReply, UserInfoReply, UserInfoRequest};
pub use error::AuthError;
pub use flow_state::SignedFlowState;
pub use identity::{UserInfo, VerifiedIdentity};
pub use return_to::sanitize_return_to;
pub use session::SessionToken;
pub use transaction::{Callback, LoginTransaction};
