//! The stored configuration: its rules, its names for the sensitivities, and the
//! copy of it that the daemon works on.

use vstd::prelude::*;
use vstd::string::StringExecFns;
use crate::core_logic::Sensitivity;
use crate::error::ConfigError;
use crate::text::decimal;
use crate::text::decimal_string;
use crate::text::join;
use crate::text::join_path;
use crate::text::joined_path;
use crate::text::same_text;

verus! {

/// Lowest refresh rate a configuration may name.
pub const CONFIG_MIN_HZ: u32 = 40;

/// Highest refresh rate a configuration may name.
pub const CONFIG_MAX_HZ: u32 = 90;

/// The sensitivity that a name stands for, if it is one of the three names.
pub open spec fn sensitivity_named(name: Seq<char>) -> Option<Sensitivity> {
    if name == "conservative"@ {
        Some(Sensitivity::Conservative)
    } else if name == "balanced"@ {
        Some(Sensitivity::Balanced)
    } else if name == "aggressive"@ {
        Some(Sensitivity::Aggressive)
    } else {
        None
    }
}

impl Sensitivity {
    /// The name of the sensitivity in stored and transmitted data.
    pub open spec fn name_text(self) -> Seq<char> {
        match self {
            Sensitivity::Conservative => "conservative"@,
            Sensitivity::Balanced => "balanced"@,
            Sensitivity::Aggressive => "aggressive"@,
        }
    }

    /// The name of the sensitivity in stored and transmitted data.
    pub fn name(&self) -> (s: &'static str)
        ensures
            s@ == self.name_text(),
    {
        match self {
            Sensitivity::Conservative => "conservative",
            Sensitivity::Balanced => "balanced",
            Sensitivity::Aggressive => "aggressive",
        }
    }

    /// The sensitivity with the given name; the name is taken letter for letter.
    pub fn from_name(name: &str) -> (r: Option<Sensitivity>)
        ensures
            r == sensitivity_named(name@),
    {
        if same_text(name, "conservative") {
            Some(Sensitivity::Conservative)
        } else if same_text(name, "balanced") {
            Some(Sensitivity::Balanced)
        } else if same_text(name, "aggressive") {
            Some(Sensitivity::Aggressive)
        } else {
            None
        }
    }

    /// What to tell the writer of stored data that names no sensitivity.
    pub fn unknown_name_message(name: &str) -> (s: String)
        ensures
            s@ == "invalid sensitivity: "@ + name@
                + ", expected one of: conservative, balanced, aggressive"@,
    {
        let mut s: String = join("invalid sensitivity: ", name);
        s.append(", expected one of: conservative, balanced, aggressive");
        s
    }
}

/// Every sensitivity is found again under its own name.
pub proof fn lemma_sensitivity_name_round_trip(s: Sensitivity)
    ensures
        sensitivity_named(s.name_text()) == Some(s),
{
    reveal_strlit("conservative");
    reveal_strlit("balanced");
    reveal_strlit("aggressive");
    assert("conservative"@.len() == 12);
    assert("balanced"@.len() == 8);
    assert("aggressive"@.len() == 10);
}

/// What the daemon is configured to do.
#[derive(Debug, Clone, Copy, PartialEq, Eq, Structural)]
pub struct Config {
    /// Lower end of the range of refresh rates.
    pub min_hz: u32,
    /// Upper end of the range of refresh rates.
    pub max_hz: u32,
    /// How long a condition must last before the rate follows.
    pub sensitivity: Sensitivity,
    /// Whether the daemon changes the rate at all.
    pub enabled: bool,
}

impl Default for Config {
    fn default() -> (c: Self)
        ensures
            c == (Config {
                min_hz: 40,
                max_hz: 90,
                sensitivity: Sensitivity::Balanced,
                enabled: true,
            }),
    {
        Config { min_hz: 40, max_hz: 90, sensitivity: Sensitivity::Balanced, enabled: true }
    }
}

impl Config {
    /// The range is in order and lies between 40 and 90.
    pub open spec fn valid(self) -> bool {
        CONFIG_MIN_HZ <= self.min_hz <= self.max_hz <= CONFIG_MAX_HZ
    }

    /// What is wrong with a configuration that is not valid: the first of the three
    /// rules that it breaks.
    pub open spec fn complaint(self) -> Seq<char> {
        if self.min_hz > self.max_hz {
            "min_hz ("@ + decimal(self.min_hz as nat) + ") cannot be greater than max_hz ("@
                + decimal(self.max_hz as nat) + ")"@
        } else if self.min_hz < CONFIG_MIN_HZ {
            "min_hz ("@ + decimal(self.min_hz as nat) + ") must be at least 40Hz"@
        } else {
            "max_hz ("@ + decimal(self.max_hz as nat) + ") must not exceed 90Hz"@
        }
    }

    /// Accepts a valid configuration and says of any other what is wrong with it.
    pub fn validate(&self) -> (r: Result<(), ConfigError>)
        ensures
            r is Ok <==> self.valid(),
            r matches Err(e) ==> e matches ConfigError::ValidationError(detail) && detail@
                == self.complaint(),
    {
        if self.min_hz > self.max_hz {
            let low: String = decimal_string(self.min_hz as u64);
            let high: String = decimal_string(self.max_hz as u64);
            let mut s: String = join("min_hz (", low.as_str());
            s.append(") cannot be greater than max_hz (");
            s.append(high.as_str());
            s.append(")");
            return Err(ConfigError::ValidationError(s));
        }
        if self.min_hz < CONFIG_MIN_HZ {
            let low: String = decimal_string(self.min_hz as u64);
            let mut s: String = join("min_hz (", low.as_str());
            s.append(") must be at least 40Hz");
            return Err(ConfigError::ValidationError(s));
        }
        if self.max_hz > CONFIG_MAX_HZ {
            let high: String = decimal_string(self.max_hz as u64);
            let mut s: String = join("max_hz (", high.as_str());
            s.append(") must not exceed 90Hz");
            return Err(ConfigError::ValidationError(s));
        }
        Ok(())
    }
}

/// The configuration the daemon works on, and where it is stored.
#[derive(Debug)]
pub struct ConfigManager {
    config: Config,
    path: String,
}

impl ConfigManager {
    /// The configuration held.
    pub closed spec fn config(&self) -> Config {
        self.config
    }

    /// The place the configuration is stored at.
    pub closed spec fn location(&self) -> Seq<char> {
        self.path@
    }

    /// A manager for the configuration stored at `path`. `stored` is what was read
    /// there: nothing, where there is no file, and then the defaults are taken. A
    /// stored configuration that is not valid is refused.
    pub fn load_or_default(path: String, stored: Option<Config>) -> (r: Result<
        Self,
        ConfigError,
    >)
        ensures
            match stored {
                Some(config) => r is Ok <==> config.valid(),
                None => r is Ok,
            },
            r matches Ok(manager) ==> manager.location() == path@ && manager.config() == (
            match stored {
                Some(config) => config,
                None => Config { min_hz: 40, max_hz: 90, sensitivity: Sensitivity::Balanced, enabled: true },
            }),
            r matches Err(e) ==> stored matches Some(config) && e matches ConfigError::ValidationError(
                detail,
            ) && detail@ == config.complaint(),
    {
        let config: Config = match stored {
            Some(config) => {
                match config.validate() {
                    Ok(()) => config,
                    Err(e) => {
                        return Err(e);
                    },
                }
            },
            None => Config::default(),
        };
        Ok(Self { config, path })
    }

    /// The configuration held.
    pub fn get(&self) -> (c: Config)
        ensures
            c == self.config(),
    {
        self.config
    }

    /// Takes a new configuration if it is valid, and leaves the old one otherwise.
    pub fn update(&mut self, config: Config) -> (r: Result<(), ConfigError>)
        ensures
            r is Ok <==> config.valid(),
            r is Ok ==> final(self).config() == config,
            r is Err ==> final(self).config() == old(self).config(),
            r matches Err(e) ==> e matches ConfigError::ValidationError(detail) && detail@
                == config.complaint(),
            final(self).location() == old(self).location(),
    {
        match config.validate() {
            Ok(()) => {
                self.config = config;
                Ok(())
            },
            Err(e) => Err(e),
        }
    }

    /// The place the configuration is stored at.
    pub fn path(&self) -> (p: &str)
        ensures
            p@ == self.location(),
    {
        self.path.as_str()
    }

    /// The directory that holds the daemon's files: under the home directory where
    /// there is one, under `/tmp` where there is none.
    pub open spec fn config_dir(home: Option<Seq<char>>) -> Seq<char> {
        match home {
            Some(home) => joined_path(joined_path(home, ".config"@), "smart-refresh"@),
            None => "/tmp/smart-refresh"@,
        }
    }

    /// The place the configuration is stored at unless told otherwise.
    pub fn default_path(home: Option<&str>) -> (p: String)
        ensures
            p@ == joined_path(
                Self::config_dir(
                    match home {
                        Some(home) => Some(home@),
                        None => None,
                    },
                ),
                "config.json"@,
            ),
    {
        let dir: String = dirs_config_path(home);
        join_path(dir.as_str(), "config.json")
    }
}

/// The directory that holds the daemon's files.
pub fn dirs_config_path(home: Option<&str>) -> (p: String)
    ensures
        p@ == ConfigManager::config_dir(
            match home {
                Some(home) => Some(home@),
                None => None,
            },
        ),
{
    match home {
        Some(home) => {
            let under: String = join_path(home, ".config");
            join_path(under.as_str(), "smart-refresh")
        },
        None => String::from_str("/tmp/smart-refresh"),
    }
}

} // verus!
