//! The four settings of the updater and how they are gathered at startup.

use vstd::prelude::*;

verus! {

/// One of the environment variables the updater reads its settings from.
#[derive(Clone, Copy, Debug, PartialEq, Eq, Structural)]
pub enum Variable {
    /// Bearer token for the provider's API.
    ApiToken,
    /// Identifier of the zone that holds the record.
    ZoneId,
    /// Identifier of the record to keep current.
    RecordId,
    /// DNS name written into every update.
    RecordName,
}

impl Variable {
    /// The name under which the environment holds this setting.
    pub open spec fn name_text(self) -> Seq<char> {
        match self {
            Variable::ApiToken => "CLOUDFLARE_API_TOKEN"@,
            Variable::ZoneId => "CLOUDFLARE_ZONE_ID"@,
            Variable::RecordId => "CLOUDFLARE_RECORD_ID"@,
            Variable::RecordName => "DNS_RECORD_NAME"@,
        }
    }

    /// The name under which the environment holds this setting.
    pub fn name(self) -> (name: &'static str)
        ensures
            name@ == self.name_text(),
    {
        match self {
            Variable::ApiToken => "CLOUDFLARE_API_TOKEN",
            Variable::ZoneId => "CLOUDFLARE_ZONE_ID",
            Variable::RecordId => "CLOUDFLARE_RECORD_ID",
            Variable::RecordName => "DNS_RECORD_NAME",
        }
    }
}

/// Why no configuration could be built.
#[derive(Clone, Copy, Debug, PartialEq, Eq, Structural)]
pub enum ConfigError {
    /// The named variable is not set.
    Missing(Variable),
}

impl ConfigError {
    /// What [`ConfigError::message`] returns.
    pub open spec fn message_text(self) -> Seq<char> {
        match self {
            ConfigError::Missing(variable) => "environment variable not found: "@
                + variable.name_text(),
        }
    }

    /// A line that names the missing variable.
    pub fn message(self) -> (line: String)
        ensures
            line@ == self.message_text(),
    {
        match self {
            ConfigError::Missing(variable) => {
                let mut line = String::from_str("environment variable not found: ");
                line.append(variable.name());
                line
            },
        }
    }
}

/// The settings of one updater. They are fixed once the updater runs.
#[derive(Clone, Debug)]
pub struct Config {
    /// Bearer token for the provider's API.
    pub api_token: String,
    /// Identifier of the zone that holds the record.
    pub zone_id: String,
    /// Identifier of the record to keep current.
    pub record_id: String,
    /// DNS name written into every update.
    pub record_name: String,
}

/// A [`Config`] as plain text values.
pub struct ConfigView {
    pub api_token: Seq<char>,
    pub zone_id: Seq<char>,
    pub record_id: Seq<char>,
    pub record_name: Seq<char>,
}

impl View for Config {
    type V = ConfigView;

    open spec fn view(&self) -> ConfigView {
        ConfigView {
            api_token: self.api_token@,
            zone_id: self.zone_id@,
            record_id: self.record_id@,
            record_name: self.record_name@,
        }
    }
}

/// The variable reported when some settings are absent: the first absent one
/// in the order zone, record, token, name. `None` when all four are present.
pub open spec fn first_missing(
    api_token: bool,
    zone_id: bool,
    record_id: bool,
    record_name: bool,
) -> Option<Variable> {
    if !zone_id {
        Some(Variable::ZoneId)
    } else if !record_id {
        Some(Variable::RecordId)
    } else if !api_token {
        Some(Variable::ApiToken)
    } else if !record_name {
        Some(Variable::RecordName)
    } else {
        None
    }
}

impl Config {
    /// Builds the configuration from what a lookup of each variable gave.
    ///
    /// All four settings are required: the result is a configuration exactly
    /// when every lookup found a value, and otherwise names the first
    /// variable that is absent.
    pub fn from_lookups(
        api_token: Option<String>,
        zone_id: Option<String>,
        record_id: Option<String>,
        record_name: Option<String>,
    ) -> (loaded: Result<Config, ConfigError>)
        ensures
            loaded is Ok <==> api_token is Some && zone_id is Some && record_id is Some
                && record_name is Some,
            loaded is Ok ==> loaded->Ok_0@ == (ConfigView {
                api_token: api_token->Some_0@,
                zone_id: zone_id->Some_0@,
                record_id: record_id->Some_0@,
                record_name: record_name->Some_0@,
            }),
            loaded is Err ==> Some(loaded->Err_0->Missing_0) == first_missing(
                api_token is Some,
                zone_id is Some,
                record_id is Some,
                record_name is Some,
            ),
    {
        let zone_id = match zone_id {
            Some(value) => value,
            None => { return Err(ConfigError::Missing(Variable::ZoneId)); },
        };
        let record_id = match record_id {
            Some(value) => value,
            None => { return Err(ConfigError::Missing(Variable::RecordId)); },
        };
        let api_token = match api_token {
            Some(value) => value,
            None => { return Err(ConfigError::Missing(Variable::ApiToken)); },
        };
        let record_name = match record_name {
            Some(value) => value,
            None => { return Err(ConfigError::Missing(Variable::RecordName)); },
        };
        Ok(Config { api_token, zone_id, record_id, record_name })
    }
}

} // verus!
