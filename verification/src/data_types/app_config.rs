use vstd::prelude::*;
use vstd::string::StringExecFns;

use super::response::text_of;
use crate::text::{trim_char, trimmed};
use crate::urls::{push_path_segment, pushed};

verus! {

#[derive(Clone, Copy, Debug, PartialEq, Eq, Structural)]
pub enum Protocol {
    Http,
    Https,
}

impl Protocol {
    /// The scheme as it stands in a URL.
    pub open spec fn scheme(self) -> Seq<char> {
        match self {
            Protocol::Http => "http"@,
            Protocol::Https => "https"@,
        }
    }

    /// The scheme as it stands in a URL.
    pub fn as_str(&self) -> (name: &'static str)
        ensures
            name@ == self.scheme(),
    {
        match self {
            Protocol::Http => "http",
            Protocol::Https => "https",
        }
    }

    /// The scheme as a string.
    pub fn to_string(&self) -> (name: String)
        ensures
            name@ == self.scheme(),
    {
        self.as_str().to_owned()
    }
}

/// Where the service is and how it lets us in.
#[derive(Clone, Debug, PartialEq, Eq)]
pub struct AppConfig {
    pub protocol: Protocol,
    pub host: String,
    pub port: Option<String>,
    pub base_url: String,
    pub api_key: String,
}

/// Why the settings that were read do not make a configuration.
#[derive(Clone, Copy, Debug, PartialEq, Eq, Structural)]
pub enum ConfigError {
    /// No API key is given.
    MissingApiKey,
}

/// The text of an optional setting, or `default` where it is not given.
pub open spec fn text_or(value: Option<String>, default: Seq<char>) -> Seq<char> {
    match value {
        Some(text) => text@,
        None => default,
    }
}

/// An optional setting, or `default` where it is not given.
fn setting_or(value: Option<String>, default: &str) -> (text: String)
    ensures
        text@ == text_or(value, default@),
{
    match value {
        Some(text) => text,
        None => default.to_owned(),
    }
}

impl AppConfig {
    /// The configuration made of the settings that were read. A setting that
    /// is not given takes its default: plain HTTP, the host `0.0.0.0` and no
    /// base path. There is no default for the API key.
    pub fn new(
        protocol: Option<Protocol>,
        host: Option<String>,
        port: Option<String>,
        base_url: Option<String>,
        api_key: Option<String>,
    ) -> (config: Result<Self, ConfigError>)
        ensures
            api_key is None <==> config == Err::<Self, ConfigError>(ConfigError::MissingApiKey),
            config matches Ok(made) ==> {
                &&& made.protocol == match protocol {
                    Some(given) => given,
                    None => Protocol::Http,
                }
                &&& made.host@ == text_or(host, "0.0.0.0"@)
                &&& made.port == port
                &&& made.base_url@ == text_or(base_url, ""@)
                &&& Some(made.api_key) == api_key
            },
    {
        match api_key {
            None => Err(ConfigError::MissingApiKey),
            Some(api_key) => Ok(
                AppConfig {
                    protocol: match protocol {
                        Some(given) => given,
                        None => Protocol::Http,
                    },
                    host: setting_or(host, "0.0.0.0"),
                    port,
                    base_url: setting_or(base_url, ""),
                    api_key,
                },
            ),
        }
    }

    /// Scheme, host and port of the service, as the start of a URL.
    pub open spec fn origin(&self) -> Seq<char> {
        let plain = self.protocol.scheme() + "://"@ + self.host@;
        match self.port {
            Some(port) => plain + ":"@ + port@,
            None => plain,
        }
    }

    /// The root of the service's API: the origin, then the base path
    /// without the slashes around it, then `api`.
    pub open spec fn api_root(&self) -> Option<Seq<char>> {
        match pushed(self.origin(), trimmed(self.base_url@, '/')) {
            Some(url) => pushed(url, "api"@),
            None => None,
        }
    }

    /// The root of the service's API as a URL, or nothing where the
    /// configuration does not give one.
    pub fn construct_url(&self) -> (url: Option<String>)
        ensures
            text_of(url) == self.api_root(),
    {
        let mut origin = self.protocol.to_string().concat("://").concat(self.host.as_str());
        match &self.port {
            Some(port) => {
                origin = origin.concat(":").concat(port.as_str());
            },
            None => {},
        }
        let clean_base_url = trim_char(self.base_url.as_str(), '/');
        match push_path_segment(origin.as_str(), clean_base_url.as_str()) {
            Some(url) => push_path_segment(url.as_str(), "api"),
            None => None,
        }
    }
}

} // verus!
