//! How the server shows the backend who it is.

use vstd::prelude::*;
use crate::config::{ConfigError, ConfigFault, LokiConfig};
use crate::text::same_text;

verus! {

#[derive(Debug)]
pub enum LokiAuth {
    /// No credentials are sent.
    Anonymous,
    Basic { username: String, password: String },
    Bearer { token: String },
}

/// What the configuration asks for, or the rule it breaks.
pub open spec fn auth_of(config: &LokiConfig) -> Result<LokiAuth, (ConfigFault, Seq<char>)> {
    if config.auth_type@ == "none"@ {
        Ok(LokiAuth::Anonymous)
    } else if config.auth_type@ == "basic"@ {
        if config.username is None {
            Err((ConfigFault::MissingUsername, Seq::empty()))
        } else if config.password is None {
            Err((ConfigFault::MissingPassword, Seq::empty()))
        } else {
            Ok(LokiAuth::Basic { username: config.username->0, password: config.password->0 })
        }
    } else if config.auth_type@ == "bearer"@ {
        if config.token is None {
            Err((ConfigFault::MissingToken, Seq::empty()))
        } else {
            Ok(LokiAuth::Bearer { token: config.token->0 })
        }
    } else {
        Err((ConfigFault::AuthKind, config.auth_type@))
    }
}

impl LokiAuth {
    pub fn from_config(config: &LokiConfig) -> (r: Result<Self, ConfigError>)
        ensures
            match r {
                Ok(auth) => auth_of(config) == Ok::<_, (ConfigFault, Seq<char>)>(auth),
                Err(e) => auth_of(config) == Err::<LokiAuth, _>(e@),
            },
    {
        let kind = config.auth_type.as_str();
        if same_text(kind, "none") {
            Ok(LokiAuth::Anonymous)
        } else if same_text(kind, "basic") {
            let username = match &config.username {
                Some(u) => u.clone(),
                None => {
                    return Err(ConfigError::of(ConfigFault::MissingUsername));
                },
            };
            let password = match &config.password {
                Some(p) => p.clone(),
                None => {
                    return Err(ConfigError::of(ConfigFault::MissingPassword));
                },
            };
            Ok(LokiAuth::Basic { username, password })
        } else if same_text(kind, "bearer") {
            let token = match &config.token {
                Some(t) => t.clone(),
                None => {
                    return Err(ConfigError::of(ConfigFault::MissingToken));
                },
            };
            Ok(LokiAuth::Bearer { token })
        } else {
            Err(ConfigError::about(ConfigFault::AuthKind, kind))
        }
    }
}

} // verus!
