//! The command line.

use vstd::prelude::*;
use crate::config::{AppConfig, Config, ConfigView, from_toml_spec};

verus! {

/// What the command line gives.
pub struct Cli {
    pub store: String,
    pub log_path: String,
    pub port: u16,
    /// A TOML settings file that overrides the defaults.
    pub config: Option<String>,
}

/// The settings a command line selects, given what its settings file held.
pub open spec fn to_config_spec(cli: Cli, loaded: Option<AppConfig>) -> ConfigView {
    match cli.config {
        Some(_) => ConfigView {
            store_root: cli.store@,
            log_dir: cli.log_path@,
            port: cli.port,
            ..from_toml_spec(loaded)
        },
        None => ConfigView {
            store_root: cli.store@,
            log_dir: cli.log_path@,
            port: cli.port,
            ..crate::config::default_config()
        },
    }
}

impl Cli {
    /// The settings this command line selects. `loaded` is what its settings
    /// file held where it names one that could be read and parsed; it is not
    /// looked at where the command line names no settings file.
    pub fn to_config(&self, loaded: Option<&AppConfig>) -> (c: Config)
        ensures
            c@ == to_config_spec(*self, match loaded {
                Some(a) => Some(*a),
                None => None,
            }),
    {
        let mut config = Config::new(Some(self.store.clone()), Some(self.log_path.clone()), self.port);
        if self.config.is_some() {
            config = Config::from_toml(loaded);
            config.store_root = self.store.clone();
            config.log_dir = self.log_path.clone();
            config.port = self.port;
        }
        config
    }
}

/// The store root, log directory and port that the command line gives are
/// the ones the service runs with, whatever its settings file says.
pub proof fn law_command_line_wins(cli: Cli, loaded: Option<AppConfig>)
    ensures
        to_config_spec(cli, loaded).store_root == cli.store@,
        to_config_spec(cli, loaded).log_dir == cli.log_path@,
        to_config_spec(cli, loaded).port == cli.port,
{
}

/// Naming a settings file changes nothing but the host names, and only
/// where the file gives some.
pub proof fn law_settings_file_changes_only_hostnames(cli: Cli, loaded: Option<AppConfig>)
    requires
        cli.config is Some,
    ensures
        ({
            let with_file = to_config_spec(cli, loaded);
            let without = to_config_spec(Cli { config: None, ..cli }, loaded);
            &&& with_file.host == without.host
            &&& with_file.store_root == without.store_root
            &&& with_file.log_dir == without.log_dir
            &&& with_file.port == without.port
            &&& (match loaded {
                Some(a) => match a.defaults {
                    Some(d) => match d.hostnames {
                        Some(h) => with_file.hostnames == crate::config::texts(h@),
                        None => with_file.hostnames == without.hostnames,
                    },
                    None => with_file.hostnames == without.hostnames,
                },
                None => with_file.hostnames == without.hostnames,
            })
        }),
{
}

} // verus!
