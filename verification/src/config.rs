//! The settings the service runs with, and how a TOML settings file
//! overrides them.

use vstd::prelude::*;

verus! {

pub const VERSION: &'static str = "1.0.0";
pub const VERSION_STRING: &'static str = "Emulator V1.0.0";

pub const LOG_FILE_NAME: &'static str = "s3-oss.log";
pub const LOG_DIR: &'static str = "/opt/aio/logs/tools/oss-emulator";
pub const STORE_ROOT_DIR: &'static str = "store";

pub const OBJECT_CONTENT: &'static str = ".data";
pub const OBJECT_CONTENT_TWO: &'static str = ".data2";
pub const BUCKET_CONFIG: &'static str = ".config.toml";

pub const DEFAULT_PORT: u16 = 80;

pub const MAX_BUCKET_NUM: usize = 30;
pub const MAX_OBJECT_FILE_SIZE: i64 = 5 * 1024 * 1024 * 1024;
pub const STREAM_CHUNK_SIZE: usize = 32 * 1024;

pub const HOST: &'static str = "localhost";
pub const ALIYUN_OSS_SERVER: &'static str = "AliyunOSS";
pub const XMLNS: &'static str = "http://doc.oss-cn-hangzhou.aliyuncs.com";
pub const OWNER_ID: &'static str = "00220120222";
pub const OWNER_DISPLAY_NAME: &'static str = "1390402650033798";

/// The host names the service answers to by default.
pub open spec fn default_hostnames_spec() -> Seq<Seq<char>> {
    seq!["localhost"@, "oss.aliyun.com"@, "oss.localhost"@]
}

/// The views of a list of strings.
pub open spec fn texts(v: Seq<String>) -> Seq<Seq<char>> {
    v.map_values(|s: String| s@)
}

fn strings_of(v: Vec<&'static str>) -> (r: Vec<String>)
    ensures
        texts(r@) == v@.map_values(|s: &'static str| s@),
{
    let mut r: Vec<String> = Vec::new();
    let mut i: usize = 0;
    while i < v.len()
        invariant
            i <= v@.len(),
            texts(r@) == v@.take(i as int).map_values(|s: &'static str| s@),
        decreases v@.len() - i,
    {
        let ghost before = r@;
        r.push(v[i].to_string());
        proof {
            assert(v@.take(i + 1) =~= v@.take(i as int).push(v@[i as int]));
            assert(texts(r@) =~= texts(before).push(v@[i as int]@));
            assert(v@.take(i + 1).map_values(|s: &'static str| s@) =~= v@.take(i as int).map_values(|s: &'static str| s@).push(v@[i as int]@));
        }
        i = i + 1;
    }
    assert(v@.take(v@.len() as int) =~= v@);
    r
}

/// The host names the service answers to by default.
pub fn default_hostnames() -> (r: Vec<String>)
    ensures
        texts(r@) == default_hostnames_spec(),
{
    let r = strings_of(vec!["localhost", "oss.aliyun.com", "oss.localhost"]);
    assert(texts(r@) =~= default_hostnames_spec());
    r
}

/// Every access control an object may have.
pub fn oss_acl() -> (r: Vec<String>)
    ensures
        texts(r@) == seq!["public-read-write"@, "public-read"@, "private"@, "default"@],
{
    let r = strings_of(vec!["public-read-write", "public-read", "private", "default"]);
    assert(texts(r@) =~= seq!["public-read-write"@, "public-read"@, "private"@, "default"@]);
    r
}

/// Every access control a bucket may have.
pub fn bucket_acl_list() -> (r: Vec<String>)
    ensures
        texts(r@) == seq!["public-read-write"@, "public-read"@, "private"@],
{
    let r = strings_of(vec!["public-read-write", "public-read", "private"]);
    assert(texts(r@) =~= seq!["public-read-write"@, "public-read"@, "private"@]);
    r
}

/// Every access control an object may be given.
pub fn object_acl_list() -> (r: Vec<String>)
    ensures
        texts(r@) == seq!["public-read-write"@, "public-read"@, "private"@, "default"@],
{
    oss_acl()
}

/// A settings file.
pub struct AppConfig {
    pub storage: Option<StorageConfig>,
    pub defaults: Option<DefaultsConfig>,
    pub limits: Option<LimitsConfig>,
}

impl Default for AppConfig {
    fn default() -> (c: AppConfig)
        ensures
            c.storage is None,
            c.defaults is None,
            c.limits is None,
    {
        AppConfig { storage: None, defaults: None, limits: None }
    }
}

pub struct StorageConfig {
    pub bucket_metadata: Option<String>,
    pub object_metadata: Option<String>,
    pub object_content_prefix: Option<String>,
    pub object_content: Option<String>,
    pub object_content_two: Option<String>,
    pub bucket_config: Option<String>,
}

pub struct DefaultsConfig {
    pub hostnames: Option<Vec<String>>,
    pub owner_id: Option<String>,
    pub owner_display_name: Option<String>,
}

pub struct LimitsConfig {
    pub max_bucket_num: Option<usize>,
    pub max_object_file_size: Option<i64>,
    pub stream_chunk_size: Option<usize>,
}

/// The settings the service runs with.
pub struct Config {
    pub store_root: String,
    pub log_dir: String,
    pub port: u16,
    pub host: String,
    pub hostnames: Vec<String>,
}

/// The content of a `Config`.
pub struct ConfigView {
    pub store_root: Seq<char>,
    pub log_dir: Seq<char>,
    pub port: u16,
    pub host: Seq<char>,
    pub hostnames: Seq<Seq<char>>,
}

impl View for Config {
    type V = ConfigView;

    open spec fn view(&self) -> ConfigView {
        ConfigView {
            store_root: self.store_root@,
            log_dir: self.log_dir@,
            port: self.port,
            host: self.host@,
            hostnames: texts(self.hostnames@),
        }
    }
}

/// The default settings.
pub open spec fn default_config() -> ConfigView {
    ConfigView {
        store_root: STORE_ROOT_DIR@,
        log_dir: LOG_DIR@,
        port: DEFAULT_PORT,
        host: HOST@,
        hostnames: default_hostnames_spec(),
    }
}

/// What a settings file changes: the host names, where it gives some.
pub open spec fn apply_spec(c: ConfigView, a: AppConfig) -> ConfigView {
    match a.defaults {
        Some(d) => match d.hostnames {
            Some(h) => ConfigView { hostnames: texts(h@), ..c },
            None => c,
        },
        None => c,
    }
}

/// The settings from a settings file that could be read, or the defaults.
pub open spec fn from_toml_spec(loaded: Option<AppConfig>) -> ConfigView {
    match loaded {
        Some(a) => apply_spec(default_config(), a),
        None => default_config(),
    }
}

fn clone_strings(v: &Vec<String>) -> (r: Vec<String>)
    ensures
        texts(r@) == texts(v@),
{
    let mut r: Vec<String> = Vec::new();
    let mut i: usize = 0;
    while i < v.len()
        invariant
            i <= v@.len(),
            texts(r@) == texts(v@.take(i as int)),
        decreases v@.len() - i,
    {
        let ghost before = r@;
        r.push(v[i].clone());
        proof {
            assert(v@.take(i + 1) =~= v@.take(i as int).push(v@[i as int]));
            assert(texts(r@) =~= texts(before).push(v@[i as int]@));
            assert(texts(v@.take(i + 1)) =~= texts(v@.take(i as int)).push(v@[i as int]@));
        }
        i = i + 1;
    }
    assert(v@.take(v@.len() as int) =~= v@);
    r
}

impl Default for Config {
    fn default() -> (c: Config)
        ensures
            c@ == default_config(),
    {
        Config {
            store_root: STORE_ROOT_DIR.to_string(),
            log_dir: LOG_DIR.to_string(),
            port: DEFAULT_PORT,
            host: HOST.to_string(),
            hostnames: default_hostnames(),
        }
    }
}

impl Config {
    /// The default settings with the given store root, log directory (each
    /// where given) and port.
    pub fn new(store: Option<String>, log_path: Option<String>, port: u16) -> (c: Config)
        ensures
            c@ == (ConfigView {
                store_root: match store {
                    Some(s) => s@,
                    None => STORE_ROOT_DIR@,
                },
                log_dir: match log_path {
                    Some(s) => s@,
                    None => LOG_DIR@,
                },
                port,
                ..default_config()
            }),
    {
        let d = Config::default();
        Config {
            store_root: match store {
                Some(s) => s,
                None => STORE_ROOT_DIR.to_string(),
            },
            log_dir: match log_path {
                Some(s) => s,
                None => LOG_DIR.to_string(),
            },
            port,
            host: d.host,
            hostnames: d.hostnames,
        }
    }

    /// The settings from a settings file that could be read and parsed
    /// (`None` where there was no file, or it could not be read or parsed).
    pub fn from_toml(loaded: Option<&AppConfig>) -> (c: Config)
        ensures
            c@ == from_toml_spec(match loaded {
                Some(a) => Some(*a),
                None => None,
            }),
    {
        let mut config = Config::default();
        if let Some(app_config) = loaded {
            config.apply_toml(app_config);
        }
        config
    }

    /// Applies what a settings file overrides: the host names. The other
    /// sections are read but change nothing.
    pub fn apply_toml(&mut self, app_config: &AppConfig)
        ensures
            final(self)@ == apply_spec(old(self)@, *app_config),
    {
        if let Some(defaults) = &app_config.defaults {
            if let Some(hostnames) = &defaults.hostnames {
                self.hostnames = clone_strings(hostnames);
            }
        }
    }
}

} // verus!
