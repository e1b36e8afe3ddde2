//! Client configuration: credentials, the environment they resolve to,
//! and the signed transport-level request built from them.
use vstd::prelude::*;
use vstd::string::StrSliceExecFns;
use vstd::string::StringExecFns;
use crate::ids::DeliveryId;
use crate::markets::Language;
use crate::markets::Market;
use crate::signing::sign_request;
use crate::signing::spec_signature;
use crate::text::spec_u64_dec;
use crate::text::u64_to_string;
use crate::transport::ApiRequest;
use crate::transport::Header;
use crate::transport::HttpMethod;

verus! {

/// The deployment target a credential belongs to.
#[derive(Clone, Copy, Debug, PartialEq, Eq, Structural)]
pub enum ApiEnvironment {
    Sandbox,
    Production,
}

/// Failure to read a deployment environment out of a credential.
#[derive(Clone, Debug, PartialEq, Eq, Structural)]
pub enum ApiEnvironmentError {
    InvalidApiKeyOrApiSecret,
}

/// Rejection of a configuration at construction time.
#[derive(Clone, Debug, PartialEq, Eq, Structural)]
pub enum ConfigError {
    /// The API key and the API secret resolve to different environments.
    IncompatibleKeyAndSecret,
    /// A credential resolves to no environment at all.
    ApiEnvironmentError(ApiEnvironmentError),
}

impl ApiEnvironment {
    /// The environment a credential denotes: after a fixed three-character
    /// prefix, `test` means the sandbox and `prod` means production.
    pub open spec fn spec_from_credential(s: Seq<char>) -> Option<ApiEnvironment> {
        let t = if s.len() >= 3 {
            s.skip(3)
        } else {
            Seq::empty()
        };
        if t.len() >= 4 && t.take(4) == "test"@ {
            Some(ApiEnvironment::Sandbox)
        } else if t.len() >= 4 && t.take(4) == "prod"@ {
            Some(ApiEnvironment::Production)
        } else {
            None
        }
    }

    /// Resolves a credential's environment: exactly the credentials whose
    /// fourth character starts `test` or `prod` are accepted.
    pub fn from_str(api_key_or_api_secret: &str) -> (r: Result<ApiEnvironment, ApiEnvironmentError>)
        ensures
            match Self::spec_from_credential(api_key_or_api_secret@) {
                Some(environment) => r == Ok::<ApiEnvironment, ApiEnvironmentError>(environment),
                None => r == Err::<ApiEnvironment, ApiEnvironmentError>(
                    ApiEnvironmentError::InvalidApiKeyOrApiSecret,
                ),
            },
    {
        proof {
            reveal_strlit("test");
            reveal_strlit("prod");
        }
        let s = api_key_or_api_secret;
        let len = s.unicode_len();
        if len < 7 {
            return Err(ApiEnvironmentError::InvalidApiKeyOrApiSecret);
        }
        let ghost t = s@.skip(3);
        let c3 = s.get_char(3);
        let c4 = s.get_char(4);
        let c5 = s.get_char(5);
        let c6 = s.get_char(6);
        proof {
            assert(t[0] == s@[3] && t[1] == s@[4] && t[2] == s@[5] && t[3] == s@[6]);
        }
        if c3 == 't' && c4 == 'e' && c5 == 's' && c6 == 't' {
            proof {
                assert(t.take(4) =~= "test"@);
            }
            Ok(ApiEnvironment::Sandbox)
        } else if c3 == 'p' && c4 == 'r' && c5 == 'o' && c6 == 'd' {
            proof {
                assert(t.take(4) =~= "prod"@);
            }
            Ok(ApiEnvironment::Production)
        } else {
            proof {
                assert(t.take(4)[0] == t[0] && t.take(4)[1] == t[1] && t.take(4)[2] == t[2]
                    && t.take(4)[3] == t[3]);
            }
            Err(ApiEnvironmentError::InvalidApiKeyOrApiSecret)
        }
    }

    /// The base URL every request of this environment is sent to.
    pub open spec fn spec_base_url(&self) -> Seq<char> {
        match self {
            ApiEnvironment::Sandbox => "https://rest.sandbox.lalamove.com"@,
            ApiEnvironment::Production => "https://rest.lalamove.com"@,
        }
    }

    /// The base URL every request of this environment is sent to.
    pub fn base_url(&self) -> (r: &'static str)
        ensures
            r@ == self.spec_base_url(),
    {
        match self {
            ApiEnvironment::Sandbox => "https://rest.sandbox.lalamove.com",
            ApiEnvironment::Production => "https://rest.lalamove.com",
        }
    }
}

/// The paths of the four API operations.
#[derive(Clone, Copy, Debug, PartialEq, Eq, Structural)]
pub enum ApiPaths {
    Cities,
    Quotations,
    Orders,
    Order(DeliveryId),
}

impl ApiPaths {
    /// The request path, relative to the environment's base URL.
    pub open spec fn spec_path(&self) -> Seq<char> {
        match self {
            ApiPaths::Cities => "/v3/cities"@,
            ApiPaths::Quotations => "/v3/quotations"@,
            ApiPaths::Orders => "/v3/orders"@,
            ApiPaths::Order(id) => "/v3/orders/"@ + spec_u64_dec(id.0 as nat),
        }
    }

    /// The request path, relative to the environment's base URL.
    pub fn path(&self) -> (r: String)
        ensures
            r@ == self.spec_path(),
    {
        match self {
            ApiPaths::Cities => String::from_str("/v3/cities"),
            ApiPaths::Quotations => String::from_str("/v3/quotations"),
            ApiPaths::Orders => String::from_str("/v3/orders"),
            ApiPaths::Order(id) => {
                let mut s = String::from_str("/v3/orders/");
                let id_text = u64_to_string(id.0);
                s.append(id_text.as_str());
                s
            },
        }
    }
}

/// The body text a request carries: a present payload is wrapped in the
/// envelope's `data` key; an absent one is the empty string.
pub open spec fn spec_wrapped_body(body: Option<Seq<char>>) -> Seq<char> {
    match body {
        Some(b) => "{\"data\":"@ + b + "}"@,
        None => Seq::empty(),
    }
}

/// Credentials and language for one client, with the environment the
/// credentials resolve to. Immutable after construction.
#[derive(Debug)]
pub struct Config<M: Market> {
    pub api_key: String,
    pub api_secret: String,
    pub language: M::Languages,
    pub environment: ApiEnvironment,
}

impl<M: Market> Config<M> {
    /// Accepts exactly the credential pairs that resolve to one common
    /// environment: a key or secret resolving to none fails with the
    /// environment error, and a pair resolving to different environments
    /// fails as incompatible.
    pub fn new(api_key: String, api_secret: String, language: M::Languages) -> (r: Result<
        Self,
        ConfigError,
    >)
        ensures
            ApiEnvironment::spec_from_credential(api_key@) is None ==> r == Err::<
                Self,
                ConfigError,
            >(ConfigError::ApiEnvironmentError(ApiEnvironmentError::InvalidApiKeyOrApiSecret)),
            ApiEnvironment::spec_from_credential(api_key@) is Some && ApiEnvironment::spec_from_credential(
                api_secret@,
            ) is None ==> r == Err::<Self, ConfigError>(
                ConfigError::ApiEnvironmentError(ApiEnvironmentError::InvalidApiKeyOrApiSecret),
            ),
            ApiEnvironment::spec_from_credential(api_key@) is Some
                && ApiEnvironment::spec_from_credential(api_secret@) is Some ==> {
                let key_environment = ApiEnvironment::spec_from_credential(api_key@)->Some_0;
                let secret_environment = ApiEnvironment::spec_from_credential(api_secret@)->Some_0;
                if key_environment != secret_environment {
                    r == Err::<Self, ConfigError>(ConfigError::IncompatibleKeyAndSecret)
                } else {
                    r matches Ok(c) && c.api_key == api_key && c.api_secret == api_secret
                        && c.language == language && c.environment == key_environment
                }
            },
    {
        let api_key_environment = match ApiEnvironment::from_str(api_key.as_str()) {
            Ok(environment) => environment,
            Err(e) => {
                return Err(ConfigError::ApiEnvironmentError(e));
            },
        };
        let api_secret_environment = match ApiEnvironment::from_str(api_secret.as_str()) {
            Ok(environment) => environment,
            Err(e) => {
                return Err(ConfigError::ApiEnvironmentError(e));
            },
        };
        if api_key_environment != api_secret_environment {
            return Err(ConfigError::IncompatibleKeyAndSecret);
        }
        Ok(Config { api_key, api_secret, language, environment: api_key_environment })
    }

    /// Builds the signed transport-level request for one call: the URL is
    /// the environment's base URL and the path; the body is the payload
    /// wrapped in the envelope's `data` key, or empty; and the four
    /// headers carry the content type, the authorization line with the
    /// key, the timestamp and the signature, and the market's country
    /// code.
    pub fn build_request(&self, path: ApiPaths, method: HttpMethod, body: Option<String>, time_ms: u64) -> (r: ApiRequest)
        ensures
            r.method == method,
            r.url@ == self.environment.spec_base_url() + path.spec_path(),
            r.body@ == spec_wrapped_body(
                match body {
                    Some(b) => Some(b@),
                    None => None,
                },
            ),
            r.headers@.len() == 4,
            r.headers@[0].name@ == "Accept"@ && r.headers@[0].value@ == "application/json"@,
            r.headers@[1].name@ == "Content-Type"@ && r.headers@[1].value@
                == "application/json"@,
            r.headers@[2].name@ == "Authorization"@ && r.headers@[2].value@ == "hmac "@
                + self.api_key@ + ":"@ + spec_u64_dec(time_ms as nat) + ":"@ + spec_signature(
                self.api_secret@,
                time_ms,
                method.spec_name(),
                path.spec_path(),
                r.body@,
            ),
            r.headers@[3].name@ == "Market"@ && r.headers@[3].value@
                == M::spec_country().spec_country_code(),
    {
        let body_text = match body {
            Some(b) => {
                let mut wrapped = String::from_str("{\"data\":");
                wrapped.append(b.as_str());
                wrapped.append("}");
                wrapped
            },
            None => String::new(),
        };
        let path_text = path.path();
        let signature = sign_request(
            self.api_secret.as_str(),
            time_ms,
            method.name(),
            path_text.as_str(),
            body_text.as_str(),
        );
        let mut url = String::from_str(self.environment.base_url());
        url.append(path_text.as_str());
        let mut authorization = String::from_str("hmac ");
        authorization.append(self.api_key.as_str());
        authorization.append(":");
        let time_text = u64_to_string(time_ms);
        authorization.append(time_text.as_str());
        authorization.append(":");
        authorization.append(signature.as_str());
        let mut headers: Vec<Header> = Vec::new();
        headers.push(
            Header {
                name: String::from_str("Accept"),
                value: String::from_str("application/json"),
            },
        );
        headers.push(
            Header {
                name: String::from_str("Content-Type"),
                value: String::from_str("application/json"),
            },
        );
        headers.push(Header { name: String::from_str("Authorization"), value: authorization });
        let country = M::country();
        headers.push(
            Header { name: String::from_str("Market"), value: String::from_str(country.country_code()) },
        );
        ApiRequest { method, url, headers, body: body_text }
    }
}

} // verus!
