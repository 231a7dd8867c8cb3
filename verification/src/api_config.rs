//! The API endpoint configuration: a one-field JSON file holding the URL
//! the remote credential service is reached at. The manager works on the
//! file's content; reading and writing the real file is the caller's
//! side.

use vstd::prelude::*;

use crate::config::IdentityConfig;
use crate::jsontext::{json_obj, json_str_of, JsonError};

verus! {

/// The endpoint the remote credential service is fetched from when no
/// config file overrides it.
pub fn default_api_url() -> (r: String)
    ensures
        r@ == "https://cursor-account-api.vercel.app/account/random"@,
{
    "https://cursor-account-api.vercel.app/account/random".to_owned()
}

/// The API endpoint configuration.
pub struct ApiConfig {
    pub url: String,
}

impl Default for ApiConfig {
    /// The configuration pointing at the default endpoint.
    fn default() -> (r: ApiConfig)
        ensures
            r.url@ == "https://cursor-account-api.vercel.app/account/random"@,
    {
        ApiConfig { url: default_api_url() }
    }
}

/// Whether a config file text denotes an endpoint configuration: a JSON
/// object whose `url` is a string.
pub open spec fn spec_api_config_text_ok(s: Seq<char>) -> bool {
    &&& json_obj(s) is Some
    &&& json_obj(s)->0.contains_key("url"@)
    &&& json_str_of(json_obj(s)->0["url"@]) is Some
}

/// The URL a valid config file text denotes.
pub open spec fn spec_api_config_url(s: Seq<char>) -> Seq<char> {
    json_str_of(json_obj(s)->0["url"@])->0
}

/// The manager of the endpoint config file: it holds the file's path and
/// the file's current content, `None` while the file does not exist.
pub struct ApiConfigManager {
    pub config_path: String,
    pub stored: Option<String>,
}

impl ApiConfigManager {
    /// A manager over the given file path and current file content.
    pub fn new(config_path: String, stored: Option<String>) -> (r: ApiConfigManager)
        ensures
            r.config_path@ == config_path@,
            r.stored == stored,
    {
        ApiConfigManager { config_path, stored }
    }

    /// Loads the configuration: the default while no file exists, else
    /// the parsed file; fails exactly when the file text does not denote
    /// an endpoint configuration.
    pub fn load(&self) -> (r: Result<ApiConfig, JsonError>)
        ensures
            self.stored is None ==> r is Ok && r->Ok_0.url@
                == "https://cursor-account-api.vercel.app/account/random"@,
            self.stored is Some ==> (r is Ok <==> spec_api_config_text_ok(self.stored->0@)),
            self.stored is Some && r is Ok ==> r->Ok_0.url@ == spec_api_config_url(
                self.stored->0@,
            ),
    {
        let text = match &self.stored {
            Some(t) => t,
            None => {
                return Ok(ApiConfig { url: default_api_url() });
            },
        };
        let cfg = match IdentityConfig::from_text(text.as_str()) {
            Ok(c) => c,
            Err(e) => {
                return Err(e);
            },
        };
        match cfg.get_string_key("url") {
            Some(url) => Ok(ApiConfig { url }),
            None => Err(JsonError),
        }
    }

    /// Saves a configuration: afterwards the stored text denotes exactly
    /// this URL. Serializing a one-string object cannot fail.
    pub fn save(&mut self, config: &ApiConfig) -> (r: Result<(), JsonError>)
        ensures
            r is Ok,
            final(self).stored is Some,
            spec_api_config_text_ok(final(self).stored->0@),
            spec_api_config_url(final(self).stored->0@) == config.url@,
            final(self).config_path@ == old(self).config_path@,
    {
        let mut cfg = IdentityConfig::new();
        cfg.set_string_key("url", config.url.as_str());
        let text = cfg.to_text();
        self.stored = Some(text);
        Ok(())
    }

    /// Resets the stored configuration to the default endpoint and
    /// returns it.
    pub fn reset(&mut self) -> (r: Result<ApiConfig, JsonError>)
        ensures
            r is Ok,
            r->Ok_0.url@ == "https://cursor-account-api.vercel.app/account/random"@,
            final(self).stored is Some,
            spec_api_config_text_ok(final(self).stored->0@),
            spec_api_config_url(final(self).stored->0@) == r->Ok_0.url@,
            final(self).config_path@ == old(self).config_path@,
    {
        let config = ApiConfig { url: default_api_url() };
        match self.save(&config) {
            Ok(()) => Ok(config),
            Err(e) => Err(e),
        }
    }
}

} // verus!
