use crate::secret::Secret;
use crate::session::Context;
use vstd::prelude::*;
use vstd::string::*;

verus! {

/// The HTTP methods of the registry's application API.
#[derive(Debug, Clone, Copy, PartialEq, Eq, Structural)]
pub enum HttpMethod {
    Get,
    Post,
    Put,
    Delete,
}

/// A call to make on the registry, authenticated with a bearer token.
#[derive(Clone)]
pub struct AppRequest {
    pub method: HttpMethod,
    pub url: String,
    pub bearer_token: Secret,
}

/// The collection of applications under a registry URL.
pub open spec fn apps_url(base: Seq<char>) -> Seq<char> {
    base + "api/v1/apps"@
}

/// One application under a registry URL.
pub open spec fn app_url(base: Seq<char>, app_id: Seq<char>) -> Seq<char> {
    base + "api/v1/apps/"@ + app_id
}

/// The URL of the application `app_id` under the registry URL `base`.
pub fn craft_url(base: &str, app_id: &str) -> (r: String)
    ensures
        r@ == app_url(base@, app_id@),
{
    String::from_str(base).concat("api/v1/apps/").concat(app_id)
}

/// The request of `method` on `url` with the context's access token.
pub open spec fn request_is(r: AppRequest, method: HttpMethod, url: Seq<char>, config: Context) -> bool {
    r.method == method && r.url@ == url && r.bearer_token@ == config.token.access_token@
}

/// The request that creates an application; its body is the application's
/// JSON document.
pub fn create(config: &Context) -> (r: AppRequest)
    ensures
        request_is(r, HttpMethod::Post, apps_url(config.endpoints.registry_url@), *config),
{
    AppRequest {
        method: HttpMethod::Post,
        url: String::from_str(config.endpoints.registry_url.as_str()).concat("api/v1/apps"),
        bearer_token: config.token.access_token.duplicate(),
    }
}

/// The request that reads the application `app`.
pub fn read(config: &Context, app: &str) -> (r: AppRequest)
    ensures
        request_is(r, HttpMethod::Get, app_url(config.endpoints.registry_url@, app@), *config),
{
    AppRequest {
        method: HttpMethod::Get,
        url: craft_url(config.endpoints.registry_url.as_str(), app),
        bearer_token: config.token.access_token.duplicate(),
    }
}

/// The request that replaces the application `app`.
pub fn put(config: &Context, app: &str) -> (r: AppRequest)
    ensures
        request_is(r, HttpMethod::Put, app_url(config.endpoints.registry_url@, app@), *config),
{
    AppRequest {
        method: HttpMethod::Put,
        url: craft_url(config.endpoints.registry_url.as_str(), app),
        bearer_token: config.token.access_token.duplicate(),
    }
}

/// The request that deletes the application `app`.
pub fn delete(config: &Context, app: &str) -> (r: AppRequest)
    ensures
        request_is(r, HttpMethod::Delete, app_url(config.endpoints.registry_url@, app@), *config),
{
    AppRequest {
        method: HttpMethod::Delete,
        url: craft_url(config.endpoints.registry_url.as_str(), app),
        bearer_token: config.token.access_token.duplicate(),
    }
}

/// The application to work on: the one given, else the context's default,
/// else none.
pub fn get_app_id(given: Option<String>, config: &Context) -> (r: Option<String>)
    ensures
        r == (match given {
            Some(a) => Some(a),
            None => config.default_app,
        }),
{
    match given {
        Some(a) => Some(a),
        None => config.default_app.clone(),
    }
}

} // verus!
