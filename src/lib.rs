//! Browser-delegated login for a command-line client: PKCE material and the
//! authorization URL, the redirect check, endpoint discovery, token
//! expiration tracking and the refresh decision.

mod error;
mod secret;
mod lifecycle;
mod pkce;
mod redirect;
mod discovery;
mod session;
mod apps;
mod arguments;

pub use error::{AuthError, RefreshFailure};
pub use secret::Secret;
pub use lifecycle::{calculate_token_expiration_date, is_valid, TokenPair};
pub use pkce::{
    authorization_request, begin, code_challenge, PkceSession, CLIENT_ID, OFFLINE_SCOPE,
};
pub use redirect::{
    handle_redirect, parse_redirect, AuthorizationResponse, ACK_PAGE, REDIRECT_URL, REFUSED_PAGE,
    SERVER_PORT,
};
pub use discovery::{
    parse_provider_endpoints, parse_service_endpoints, provider_metadata_url, service_metadata_url,
};
pub use session::{
    login, refresh_grant, refresh_token, verify_token_validity, Context, Endpoints, TokenCheck,
    SAFETY_MARGIN,
};
pub use apps::{craft_url, create, delete, get_app_id, put, read, AppRequest, HttpMethod};
pub use arguments::{
    Context_subcommands, Other_commands, Other_flags, Parameters, Resources, Set_args,
    Set_targets, Trust_subcommands, Verbs,
};
