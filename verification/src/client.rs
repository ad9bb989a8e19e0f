//! The decisions behind building a client: which settings are required,
//! the defaults of the others, the base path of the API, and the retry
//! policy that a configuration asks for.

use vstd::prelude::*;

use crate::error::Error;
use crate::models::instances::{lookup, lookup_entry};
use crate::text::push_str;

verus! {

/// Configuration object for a cognite client.
#[derive(Clone, Copy, PartialEq, Eq, Structural)]
pub struct ClientConfig {
    /// Maximum number of retries per request.
    pub max_retries: u32,
    /// Maximum delay between retries.
    pub max_retry_delay_ms: Option<u64>,
    /// Request timeout in milliseconds.
    pub timeout_ms: Option<u64>,
    /// Initial delay for exponential backoff, defaults to 125 milliseconds.
    pub initial_delay_ms: Option<u64>,
}

impl Default for ClientConfig {
    /// No retries, and every delay and timeout unset.
    fn default() -> (r: Self)
        ensures
            r == (ClientConfig {
                max_retries: 0,
                max_retry_delay_ms: None,
                timeout_ms: None,
                initial_delay_ms: None,
            }),
    {
        ClientConfig { max_retries: 0, max_retry_delay_ms: None, timeout_ms: None, initial_delay_ms: None }
    }
}

/// How requests are retried: how many times at most, the longest delay
/// between two tries, and the first delay of the exponential backoff, in
/// milliseconds.
#[derive(Clone, Copy, PartialEq, Eq, Structural)]
pub struct RetryPolicy {
    /// Maximum number of retries per request.
    pub max_retries: u32,
    /// Maximum delay between retries, in milliseconds.
    pub max_delay_ms: u64,
    /// Initial delay, in milliseconds.
    pub initial_delay_ms: u64,
}

/// The longest delay between retries when none is configured: five minutes.
pub open spec fn default_max_retry_delay_ms() -> u64 {
    300000
}

/// The first delay of the backoff when none is configured.
pub open spec fn default_initial_delay_ms() -> u64 {
    125
}

/// The retry policy a configuration asks for: none when no retries are
/// allowed; otherwise the configured delays, or the default ones.
pub open spec fn retry_policy_spec(config: ClientConfig) -> Option<RetryPolicy> {
    if config.max_retries == 0 {
        None
    } else {
        Some(
            RetryPolicy {
                max_retries: config.max_retries,
                max_delay_ms: match config.max_retry_delay_ms {
                    Some(d) => d,
                    None => default_max_retry_delay_ms(),
                },
                initial_delay_ms: match config.initial_delay_ms {
                    Some(d) => d,
                    None => default_initial_delay_ms(),
                },
            },
        )
    }
}

/// The retry policy a configuration asks for (see [`retry_policy_spec`]).
pub fn retry_policy(config: &ClientConfig) -> (r: Option<RetryPolicy>)
    ensures
        r == retry_policy_spec(*config),
        r is None <==> config.max_retries == 0,
        r matches Some(p) ==> p.max_retries == config.max_retries,
        r matches Some(p) ==> p.max_delay_ms == match config.max_retry_delay_ms {
            Some(d) => d,
            None => 300000,
        },
        r matches Some(p) ==> p.initial_delay_ms == match config.initial_delay_ms {
            Some(d) => d,
            None => 125,
        },
{
    if config.max_retries > 0 {
        Some(
            RetryPolicy {
                max_retries: config.max_retries,
                max_delay_ms: match config.max_retry_delay_ms {
                    Some(d) => d,
                    None => 300000,
                },
                initial_delay_ms: match config.initial_delay_ms {
                    Some(d) => d,
                    None => 125,
                },
            },
        )
    } else {
        None
    }
}

/// The base URL of the API when none is given.
pub fn default_base_url() -> (r: String)
    ensures
        r@ == "https://api.cognitedata.com/"@,
{
    "https://api.cognitedata.com/".to_owned()
}

/// The base path of the API of a project: `{base_url}/api/v1/projects/{project}`.
pub open spec fn api_base_path_spec(base_url: Seq<char>, project: Seq<char>) -> Seq<char> {
    base_url + "/api/v1/projects/"@ + project
}

/// The base path of the API of a project (see [`api_base_path_spec`]).
pub fn api_base_path(base_url: &str, project: &str) -> (r: String)
    ensures
        r@ == api_base_path_spec(base_url@, project@),
{
    let mut path = String::new();
    push_str(&mut path, base_url);
    push_str(&mut path, "/api/v1/projects/");
    push_str(&mut path, project);
    assert(path@ =~= api_base_path_spec(base_url@, project@));
    path
}

/// What a client builder has been given, but for the authentication and the
/// HTTP machinery themselves.
pub struct BuilderSettings {
    /// Whether some form of authentication was given.
    pub has_auth: bool,
    /// Configuration for retries and timeouts.
    pub config: Option<ClientConfig>,
    /// Value of the `x-cdp-app` header.
    pub app_name: Option<String>,
    /// CDF project.
    pub project: Option<String>,
    /// Base URL of the API.
    pub base_url: Option<String>,
}

/// The settings a client is built from.
pub struct ResolvedSettings {
    /// Configuration for retries and timeouts.
    pub config: ClientConfig,
    /// Value of the `x-cdp-app` header.
    pub app_name: String,
    /// CDF project.
    pub project: String,
    /// Base URL of the API.
    pub base_url: String,
}

/// Whether `r` is a configuration error with message `message`.
pub open spec fn is_config_error<X>(r: Result<X, Error>, message: Seq<char>) -> bool {
    match r {
        Err(Error::Config(m)) => m@ == message,
        _ => false,
    }
}

impl BuilderSettings {
    /// The settings a client is built from. Authentication, an app name and
    /// a project are required, checked in that order; the configuration
    /// defaults to no retries and the base URL to the public API.
    pub fn resolve(self) -> (r: Result<ResolvedSettings, Error>)
        ensures
            !self.has_auth ==> is_config_error(r, "Some form of auth is required"@),
            self.has_auth && self.app_name.is_none() ==> is_config_error(r, "App name is required"@),
            self.has_auth && self.app_name.is_some() && self.project.is_none() ==> is_config_error(
                r,
                "Project is required"@,
            ),
            self.has_auth && self.app_name.is_some() && self.project.is_some() ==> match r {
                Ok(s) => {
                    &&& Some(s.app_name) == self.app_name
                    &&& Some(s.project) == self.project
                    &&& s.config == match self.config {
                        Some(c) => c,
                        None => ClientConfig {
                            max_retries: 0,
                            max_retry_delay_ms: None,
                            timeout_ms: None,
                            initial_delay_ms: None,
                        },
                    }
                    &&& match self.base_url {
                        Some(b) => s.base_url == b,
                        None => s.base_url@ == "https://api.cognitedata.com/"@,
                    }
                },
                Err(_) => false,
            },
    {
        if !self.has_auth {
            return Err(Error::Config("Some form of auth is required".to_owned()));
        }
        let config = match self.config {
            Some(c) => c,
            None => ClientConfig::default(),
        };
        let app_name = match self.app_name {
            Some(a) => a,
            None => {
                return Err(Error::Config("App name is required".to_owned()));
            },
        };
        let project = match self.project {
            Some(p) => p,
            None => {
                return Err(Error::Config("Project is required".to_owned()));
            },
        };
        let base_url = match self.base_url {
            Some(b) => b,
            None => default_base_url(),
        };
        Ok(ResolvedSettings { config, app_name, project, base_url })
    }
}

/// The settings of a client configured from the environment, with OIDC
/// client credentials.
pub struct OidcSettings {
    /// Base URL of the API.
    pub base_url: String,
    /// CDF project.
    pub project: String,
    /// OIDC client ID.
    pub client_id: String,
    /// URL of the token endpoint.
    pub token_url: String,
    /// OIDC client secret.
    pub secret: String,
    /// Resource to request a token for, if any.
    pub resource: Option<String>,
    /// Audience to request a token for, if any.
    pub audience: Option<String>,
    /// Scopes to request, if any.
    pub scopes: Option<String>,
}

/// The message of the error for a required variable `name` that is absent.
pub open spec fn missing_variable_message(name: Seq<char>) -> Seq<char> {
    name + " is not defined in the environment. Error: environment variable not found"@
}

/// Whether `r` is the error for the absent required variable `name`.
pub open spec fn is_missing_variable(r: Result<OidcSettings, Error>, name: Seq<char>) -> bool {
    match r {
        Err(Error::EnvironmentVariableMissing(m)) => m@ == missing_variable_message(name),
        _ => false,
    }
}

/// The value of the variable `name` in `vars`, if it is set.
pub open spec fn variable(vars: Seq<(String, String)>, name: Seq<char>) -> Option<Seq<char>> {
    match lookup(vars, name) {
        Some(v) => Some(v@),
        None => None,
    }
}

/// Whether `o` holds the text `t`, if any.
pub open spec fn opt_text_is(o: Option<String>, t: Option<Seq<char>>) -> bool {
    match (o, t) {
        (Some(a), Some(b)) => a@ == b,
        (None, None) => true,
        _ => false,
    }
}

fn variable_value(vars: &[(String, String)], name: &str) -> (r: Option<String>)
    ensures
        opt_text_is(r, variable(vars@, name@)),
{
    match lookup_entry(vars, name) {
        Some(v) => Some(v.clone()),
        None => None,
    }
}

fn required_variable(vars: &[(String, String)], name: &str) -> (r: Result<String, Error>)
    ensures
        match variable(vars@, name@) {
            Some(v) => r matches Ok(s) && s@ == v,
            None => r matches Err(Error::EnvironmentVariableMissing(m)) && m@ == missing_variable_message(name@),
        },
{
    match variable_value(vars, name) {
        Some(v) => Ok(v),
        None => {
            let mut m = String::new();
            push_str(&mut m, name);
            push_str(&mut m, " is not defined in the environment. Error: environment variable not found");
            Err(Error::EnvironmentVariableMissing(m))
        },
    }
}

/// The settings of a client configured from environment variables, given
/// as name and value (the first entry with a name is read):
/// `COGNITE_BASE_URL` (defaults to the public API), `COGNITE_PROJECT`,
/// `COGNITE_CLIENT_ID`, `COGNITE_TOKEN_URL`, `COGNITE_CLIENT_SECRET`, and
/// the optional `COGNITE_RESOURCE`, `COGNITE_AUDIENCE`, `COGNITE_SCOPES`.
/// The first required variable that is absent, in that order, is reported.
pub fn oidc_settings_from_vars(vars: &[(String, String)]) -> (r: Result<OidcSettings, Error>)
    ensures
        variable(vars@, "COGNITE_PROJECT"@).is_none() ==> is_missing_variable(r, "COGNITE_PROJECT"@),
        variable(vars@, "COGNITE_PROJECT"@).is_some() && variable(vars@, "COGNITE_CLIENT_ID"@).is_none()
            ==> is_missing_variable(r, "COGNITE_CLIENT_ID"@),
        variable(vars@, "COGNITE_PROJECT"@).is_some() && variable(vars@, "COGNITE_CLIENT_ID"@).is_some()
            && variable(vars@, "COGNITE_TOKEN_URL"@).is_none() ==> is_missing_variable(r, "COGNITE_TOKEN_URL"@),
        variable(vars@, "COGNITE_PROJECT"@).is_some() && variable(vars@, "COGNITE_CLIENT_ID"@).is_some()
            && variable(vars@, "COGNITE_TOKEN_URL"@).is_some() && variable(vars@, "COGNITE_CLIENT_SECRET"@).is_none()
            ==> is_missing_variable(r, "COGNITE_CLIENT_SECRET"@),
        variable(vars@, "COGNITE_PROJECT"@).is_some() && variable(vars@, "COGNITE_CLIENT_ID"@).is_some()
            && variable(vars@, "COGNITE_TOKEN_URL"@).is_some() && variable(vars@, "COGNITE_CLIENT_SECRET"@).is_some()
            ==> match r {
            Ok(s) => {
                &&& s.base_url@ == match variable(vars@, "COGNITE_BASE_URL"@) {
                    Some(b) => b,
                    None => "https://api.cognitedata.com/"@,
                }
                &&& Some(s.project@) == variable(vars@, "COGNITE_PROJECT"@)
                &&& Some(s.client_id@) == variable(vars@, "COGNITE_CLIENT_ID"@)
                &&& Some(s.token_url@) == variable(vars@, "COGNITE_TOKEN_URL"@)
                &&& Some(s.secret@) == variable(vars@, "COGNITE_CLIENT_SECRET"@)
                &&& opt_text_is(s.resource, variable(vars@, "COGNITE_RESOURCE"@))
                &&& opt_text_is(s.audience, variable(vars@, "COGNITE_AUDIENCE"@))
                &&& opt_text_is(s.scopes, variable(vars@, "COGNITE_SCOPES"@))
            },
            Err(_) => false,
        },
{
    let base_url = match variable_value(vars, "COGNITE_BASE_URL") {
        Some(b) => b,
        None => default_base_url(),
    };
    let project = required_variable(vars, "COGNITE_PROJECT")?;
    let client_id = required_variable(vars, "COGNITE_CLIENT_ID")?;
    let token_url = required_variable(vars, "COGNITE_TOKEN_URL")?;
    let secret = required_variable(vars, "COGNITE_CLIENT_SECRET")?;
    let resource = variable_value(vars, "COGNITE_RESOURCE");
    let audience = variable_value(vars, "COGNITE_AUDIENCE");
    let scopes = variable_value(vars, "COGNITE_SCOPES");
    Ok(OidcSettings { base_url, project, client_id, token_url, secret, resource, audience, scopes })
}

} // verus!
