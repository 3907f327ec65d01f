//! Configuration: the credentials file, the optional lifecycle file, and environment overrides.
//!
//! Reading files and the environment happens outside the library; the library is handed what
//! was read and decides what configuration, or which error, results.
use crate::desktop::{join, join_path};
use crate::error::{ConfigError, WinbridgeError};
use crate::text::{
    from_chars, owned, slice_range, starts_with, starts_with_at, strip_bounds_char,
    strip_bounds_ws, to_chars, trim, trim_char,
};
use vstd::prelude::*;

verus! {

broadcast use vstd::string::group_string_axioms;

/// What reading a file produced.
#[derive(Debug)]
pub enum FileRead {
    /// The file's text.
    Contents(String),
    /// The file does not exist.
    NotFound,
    /// Reading failed for another reason, described by the message.
    Failed(String),
}

/// What reading and decoding the lifecycle file produced.
#[derive(Debug)]
pub enum LifecycleSource {
    /// The file does not exist.
    NotFound,
    /// Reading failed; the message of the failure.
    ReadFailed(String),
    /// The file is not valid TOML for the expected shape; the message of the decoder.
    ParseFailed(String),
    /// The decoded file.
    Parsed(FileConfig),
}

/// The lifecycle file as decoded: every setting optional.
#[derive(Debug, Clone, Copy, PartialEq, Eq, Structural)]
pub struct FileConfig {
    pub lifecycle: Option<LifecycleFileConfig>,
}

/// The `[lifecycle]` table of the lifecycle file.
#[derive(Debug, Clone, Copy, PartialEq, Eq, Structural)]
pub struct LifecycleFileConfig {
    pub close_window: Option<CloseWindowPolicy>,
    pub quit: Option<QuitPolicy>,
    pub idle_timeout_minutes: Option<u64>,
}

/// The lifecycle file to consult: where it is and what reading it gave.
#[derive(Debug)]
pub struct ConfigFile {
    pub path: String,
    pub source: LifecycleSource,
}

/// Values of `WINBRIDGE_VM_NAME`, `WINBRIDGE_VM_IP` and `WINBRIDGE_LIBVIRT_URI`, where set.
#[derive(Debug, Clone)]
pub struct EnvOverrides {
    pub vm_name: Option<String>,
    pub vm_ip: Option<String>,
    pub libvirt_uri: Option<String>,
}

/// What happens to the VM when the RDP window closes.
#[derive(Debug, Clone, Copy, PartialEq, Eq, Structural)]
pub enum CloseWindowPolicy {
    KeepRunning,
    ManagedSave,
}

/// What happens to the VM when winbridge quits from the tray.
#[derive(Debug, Clone, Copy, PartialEq, Eq, Structural)]
pub enum QuitPolicy {
    ManagedSave,
    KeepRunning,
}

/// VM lifecycle settings.
#[derive(Debug, Clone, Copy, PartialEq, Eq, Structural)]
pub struct LifecycleConfig {
    pub close_window: CloseWindowPolicy,
    pub quit: QuitPolicy,
    pub idle_timeout_minutes: Option<u64>,
}

/// The loaded configuration.
#[derive(Debug, Clone)]
pub struct WinbridgeConfig {
    pub admin_password: String,
    pub vm_name: String,
    pub vm_ip: String,
    pub libvirt_uri: String,
    pub lifecycle: LifecycleConfig,
}

/// The lifecycle settings used when nothing is configured.
pub open spec fn default_lifecycle() -> LifecycleConfig {
    LifecycleConfig {
        close_window: CloseWindowPolicy::KeepRunning,
        quit: QuitPolicy::ManagedSave,
        idle_timeout_minutes: None,
    }
}

/// The lifecycle settings that a decoded lifecycle file gives: each setting present in the
/// file replaces the default.
pub open spec fn lifecycle_from_file(file: FileConfig) -> LifecycleConfig {
    match file.lifecycle {
        None => default_lifecycle(),
        Some(l) => LifecycleConfig {
            close_window: match l.close_window {
                Some(p) => p,
                None => CloseWindowPolicy::KeepRunning,
            },
            quit: match l.quit {
                Some(p) => p,
                None => QuitPolicy::ManagedSave,
            },
            idle_timeout_minutes: l.idle_timeout_minutes,
        },
    }
}

impl Default for LifecycleConfig {
    fn default() -> (r: Self)
        ensures
            r == default_lifecycle(),
    {
        LifecycleConfig {
            close_window: CloseWindowPolicy::KeepRunning,
            quit: QuitPolicy::ManagedSave,
            idle_timeout_minutes: None,
        }
    }
}

impl LifecycleConfig {
    /// Applies a decoded lifecycle file on top of the defaults.
    pub fn from_file(file: FileConfig) -> (r: Self)
        ensures
            r == lifecycle_from_file(file),
    {
        let mut lifecycle = LifecycleConfig::default();
        if let Some(config) = file.lifecycle {
            if let Some(close_window) = config.close_window {
                lifecycle.close_window = close_window;
            }
            if let Some(quit) = config.quit {
                lifecycle.quit = quit;
            }
            if config.idle_timeout_minutes.is_some() {
                lifecycle.idle_timeout_minutes = config.idle_timeout_minutes;
            }
        }
        lifecycle
    }

    /// The lifecycle settings from the lifecycle file at `path`: the defaults when the file does
    /// not exist, a parse error naming the path when it cannot be read or decoded.
    pub fn load_from(path: &str, source: LifecycleSource) -> (r: Result<Self, WinbridgeError>)
        ensures
            source is NotFound ==> (r matches Ok(l) && l == default_lifecycle()),
            source matches LifecycleSource::Parsed(file) ==> (r matches Ok(l) && l
                == lifecycle_from_file(file)),
            source matches LifecycleSource::ReadFailed(reason) ==> r matches Err(
                WinbridgeError::Config(ConfigError::ParseError { path: p, reason: q }),
            ) && p@ == path@ && q@ == reason@,
            source matches LifecycleSource::ParseFailed(reason) ==> r matches Err(
                WinbridgeError::Config(ConfigError::ParseError { path: p, reason: q }),
            ) && p@ == path@ && q@ == reason@,
    {
        match source {
            LifecycleSource::NotFound => Ok(LifecycleConfig::default()),
            LifecycleSource::ReadFailed(reason) => Err(
                WinbridgeError::Config(ConfigError::ParseError { path: owned(path), reason }),
            ),
            LifecycleSource::ParseFailed(reason) => Err(
                WinbridgeError::Config(ConfigError::ParseError { path: owned(path), reason }),
            ),
            LifecycleSource::Parsed(file) => Ok(LifecycleConfig::from_file(file)),
        }
    }
}

/// The key of the password line in the credentials file.
pub open spec fn password_key() -> Seq<char> {
    "WINBRIDGE_ADMIN_PASSWORD="@
}

/// The password that one line of the credentials file sets, if it sets one: the trimmed line
/// starts with the key, and the value is the rest, trimmed, with surrounding double quotes
/// removed.
pub open spec fn line_password(line: Seq<char>) -> Option<Seq<char>> {
    let t = trim(line);
    if starts_with(t, password_key()) {
        Some(trim_char(trim(t.skip(password_key().len() as int)), '"'))
    } else {
        None
    }
}

/// The index of the last `c` in `s`, or -1.
pub open spec fn last_index_of(s: Seq<char>, c: char) -> int
    decreases s.len(),
{
    if s.len() == 0 {
        -1
    } else if s.last() == c {
        s.len() - 1
    } else {
        last_index_of(s.drop_last(), c)
    }
}

/// The administrator password that a credentials file sets: that of the last line setting one.
/// Lines are separated by `'\n'`.
pub open spec fn admin_password(text: Seq<char>) -> Option<Seq<char>>
    decreases text.len(),
{
    let k = last_index_of(text, '\n');
    let value = line_password(text.skip(k + 1));
    if value is Some {
        value
    } else if k < 0 {
        None
    } else {
        proof {
            lemma_last_index_bounds(text, '\n');
        }
        admin_password(text.take(k))
    }
}

/// Where `last_index_of` lands: at an occurrence of `c`, with none after it, or at -1.
pub proof fn lemma_last_index_bounds(s: Seq<char>, c: char)
    ensures
        -1 <= last_index_of(s, c) < s.len(),
        last_index_of(s, c) >= 0 ==> s[last_index_of(s, c)] == c,
        forall|j: int| last_index_of(s, c) < j < s.len() ==> s[j] != c,
    decreases s.len(),
{
    if s.len() > 0 && s.last() != c {
        lemma_last_index_bounds(s.drop_last(), c);
        assert forall|j: int| last_index_of(s, c) < j < s.len() implies s[j] != c by {
            if j < s.len() - 1 {
                assert(s[j] == s.drop_last()[j]);
            }
        }
    }
}

/// The index of the last `c` in `cs[..end]`.
fn rfind_char(cs: &[char], end: usize, c: char) -> (r: Option<usize>)
    requires
        end <= cs.len(),
    ensures
        r matches Some(k) ==> k < end && last_index_of(cs@.take(end as int), c) == k,
        r is None ==> last_index_of(cs@.take(end as int), c) == -1,
{
    let mut i = end;
    while i > 0
        invariant
            i <= end <= cs.len(),
            last_index_of(cs@.take(end as int), c) == last_index_of(cs@.take(i as int), c),
        decreases i,
    {
        if cs[i - 1] == c {
            return Some(i - 1);
        }
        assert(cs@.take(i as int).drop_last() == cs@.take(i - 1));
        i = i - 1;
    }
    None
}

/// The administrator password set in the credentials text, if any.
pub fn parse_admin_password(text: &str) -> (r: Option<String>)
    ensures
        r is None <==> admin_password(text@) is None,
        r matches Some(p) ==> admin_password(text@) == Some(p@),
{
    let cs = to_chars(text);
    let key = to_chars("WINBRIDGE_ADMIN_PASSWORD=");
    let mut end = cs.len();
    assert(cs@.take(cs@.len() as int) == cs@);
    loop
        invariant
            end <= cs.len(),
            cs@ == text@,
            key@ == password_key(),
            admin_password(text@) == admin_password(cs@.take(end as int)),
        decreases end,
    {
        let ghost t = cs@.take(end as int);
        let k = rfind_char(cs.as_slice(), end, '\n');
        let start = match k {
            Some(k) => k + 1,
            None => 0,
        };
        proof {
            lemma_last_index_bounds(t, '\n');
            assert(t.skip(last_index_of(t, '\n') + 1) == cs@.subrange(start as int, end as int));
        }
        let (lo, hi) = strip_bounds_ws(cs.as_slice(), start, end);
        let ghost line = cs@.subrange(lo as int, hi as int);
        if hi - lo >= key.len() && starts_with_at(cs.as_slice(), lo, key.as_slice()) {
            let (a, b) = strip_bounds_ws(cs.as_slice(), lo + key.len(), hi);
            let (c, d) = strip_bounds_char(cs.as_slice(), a, b, '"');
            proof {
                assert(line.take(key@.len() as int) == cs@.subrange(lo as int, lo + key@.len()));
                assert(line.skip(key@.len() as int) == cs@.subrange(lo + key@.len(), hi as int));
            }
            return Some(from_chars(slice_range(cs.as_slice(), c, d)));
        }
        proof {
            if hi - lo >= key@.len() {
                assert(line.take(key@.len() as int) == cs@.subrange(lo as int, lo + key@.len()));
            }
            assert(!starts_with(line, password_key()));
        }
        match k {
            None => {
                return None;
            },
            Some(k) => {
                assert(t.take(k as int) == cs@.take(k as int));
                end = k;
            },
        }
    }
}

impl WinbridgeConfig {
    pub const DEFAULT_VM_NAME: &'static str = "winbridge-srv2022";
    pub const DEFAULT_VM_IP: &'static str = "192.168.122.50";
    pub const DEFAULT_LIBVIRT_URI: &'static str = "qemu:///system";

    /// The configuration from the credentials file at `credentials_path`, the lifecycle file if
    /// one is given, and the environment overrides.
    ///
    /// A missing credentials file is `CredentialsMissing`; another read failure is a
    /// `ParseError`; a file without a password line is `PasswordMissing`; only then is the
    /// lifecycle file consulted, whose failures are passed on.
    pub fn load_from_paths(
        credentials_path: &str,
        credentials: FileRead,
        config: Option<ConfigFile>,
        env: EnvOverrides,
    ) -> (r: Result<Self, WinbridgeError>)
        ensures
            loaded_from(r, credentials_path@, credentials, config_view(config), env),
    {
        let text = match credentials {
            FileRead::Contents(text) => text,
            FileRead::NotFound => {
                return Err(
                    WinbridgeError::Config(
                        ConfigError::CredentialsMissing { path: owned(credentials_path) },
                    ),
                );
            },
            FileRead::Failed(reason) => {
                return Err(
                    WinbridgeError::Config(
                        ConfigError::ParseError { path: owned(credentials_path), reason },
                    ),
                );
            },
        };
        let admin_password = match parse_admin_password(text.as_str()) {
            Some(p) => p,
            None => {
                return Err(
                    WinbridgeError::Config(
                        ConfigError::PasswordMissing { path: owned(credentials_path) },
                    ),
                );
            },
        };
        let lifecycle = match config {
            Some(file) => match LifecycleConfig::load_from(file.path.as_str(), file.source) {
                Ok(l) => l,
                Err(e) => {
                    return Err(e);
                },
            },
            None => LifecycleConfig::default(),
        };
        let vm_name = match env.vm_name {
            Some(v) => v,
            None => owned(Self::DEFAULT_VM_NAME),
        };
        let vm_ip = match env.vm_ip {
            Some(v) => v,
            None => owned(Self::DEFAULT_VM_IP),
        };
        let libvirt_uri = match env.libvirt_uri {
            Some(v) => v,
            None => owned(Self::DEFAULT_LIBVIRT_URI),
        };
        Ok(WinbridgeConfig { admin_password, vm_name, vm_ip, libvirt_uri, lifecycle })
    }

    /// The configuration from the credentials file alone; the lifecycle settings are the
    /// defaults.
    pub fn load_from(credentials_path: &str, credentials: FileRead, env: EnvOverrides) -> (r:
        Result<Self, WinbridgeError>)
        ensures
            loaded_from(r, credentials_path@, credentials, None, env),
    {
        Self::load_from_paths(credentials_path, credentials, None, env)
    }

    /// The configuration from the credentials file and the lifecycle file at their standard
    /// places: `load_from_paths` with the paths that `credentials_path` and `config_path` give
    /// for the same overrides and configuration directory, and what the caller read there.
    pub fn load(
        credentials_override: Option<String>,
        config_override: Option<String>,
        config_dir: &str,
        credentials: FileRead,
        config_source: LifecycleSource,
        env: EnvOverrides,
    ) -> (r: Result<Self, WinbridgeError>)
        ensures
            loaded_from(
                r,
                standard_path(opt_chars(credentials_override), config_dir@, "credentials"@),
                credentials,
                Some(
                    (
                        standard_path(opt_chars(config_override), config_dir@, "config.toml"@),
                        config_source,
                    ),
                ),
                env,
            ),
    {
        let credentials_path = Self::credentials_path(credentials_override, config_dir);
        let config_path = Self::config_path(config_override, config_dir);
        Self::load_from_paths(
            credentials_path.as_str(),
            credentials,
            Some(ConfigFile { path: config_path, source: config_source }),
            env,
        )
    }
}

/// The lifecycle file handed to `load_from_paths`, as its path and what reading it gave.
pub open spec fn config_view(config: Option<ConfigFile>) -> Option<(Seq<char>, LifecycleSource)> {
    match config {
        None => None,
        Some(file) => Some((file.path@, file.source)),
    }
}

/// What loading gives from the credentials file at `credentials_path` (as read), the lifecycle
/// file if one is consulted (its path and what reading it gave), and the environment overrides.
///
/// A missing credentials file is `CredentialsMissing`; another read failure is a `ParseError`;
/// a file without a password line is `PasswordMissing`; only then is the lifecycle file
/// consulted, whose read and decode failures are `ParseError`s naming its path. Otherwise the
/// configuration holds the password, the lifecycle settings (the defaults when no file is
/// consulted or it does not exist) and the overrides where set.
pub open spec fn loaded_from(
    r: Result<WinbridgeConfig, WinbridgeError>,
    credentials_path: Seq<char>,
    credentials: FileRead,
    config: Option<(Seq<char>, LifecycleSource)>,
    env: EnvOverrides,
) -> bool {
    &&& credentials is NotFound ==> (r matches Err(
        WinbridgeError::Config(ConfigError::CredentialsMissing { path }),
    ) && path@ == credentials_path)
    &&& credentials matches FileRead::Failed(reason) ==> (r matches Err(
        WinbridgeError::Config(ConfigError::ParseError { path, reason: q }),
    ) && path@ == credentials_path && q@ == reason@)
    &&& credentials is Contents && credentials_password(credentials) is None ==> (r matches Err(
        WinbridgeError::Config(ConfigError::PasswordMissing { path }),
    ) && path@ == credentials_path)
    &&& credentials_password(credentials) matches Some(pw) ==> {
        match config {
            None => (r matches Ok(cfg) && cfg.lifecycle == default_lifecycle()
                && cfg.admin_password@ == pw && env_applied(cfg, env)),
            Some((config_path, source)) => match source {
                LifecycleSource::NotFound => (r matches Ok(cfg) && cfg.lifecycle
                    == default_lifecycle() && cfg.admin_password@ == pw && env_applied(cfg, env)),
                LifecycleSource::Parsed(f) => (r matches Ok(cfg) && cfg.lifecycle
                    == lifecycle_from_file(f) && cfg.admin_password@ == pw && env_applied(cfg, env)),
                LifecycleSource::ReadFailed(reason) => (r matches Err(
                    WinbridgeError::Config(ConfigError::ParseError { path, reason: q }),
                ) && path@ == config_path && q@ == reason@),
                LifecycleSource::ParseFailed(reason) => (r matches Err(
                    WinbridgeError::Config(ConfigError::ParseError { path, reason: q }),
                ) && path@ == config_path && q@ == reason@),
            },
        }
    }
}

/// An optional string as characters.
pub open spec fn opt_chars(s: Option<String>) -> Option<Seq<char>> {
    match s {
        Some(t) => Some(t@),
        None => None,
    }
}

/// Where a configuration file is: the override when set, otherwise `winbridge/<file>` under the
/// configuration directory.
pub open spec fn standard_path(env_override: Option<Seq<char>>, config_dir: Seq<char>, file: Seq<char>) -> Seq<char> {
    match env_override {
        Some(p) => p,
        None => join_path(join_path(config_dir, "winbridge"@), file),
    }
}

/// The password that the credentials file sets, when it was read.
pub open spec fn credentials_password(c: FileRead) -> Option<Seq<char>> {
    match c {
        FileRead::Contents(text) => admin_password(text@),
        _ => None,
    }
}

/// The VM name, address and libvirt URI of `cfg` are the overrides where set, else the
/// defaults.
pub open spec fn env_applied(cfg: WinbridgeConfig, env: EnvOverrides) -> bool {
    &&& cfg.vm_name@ == match env.vm_name {
        Some(v) => v@,
        None => WinbridgeConfig::DEFAULT_VM_NAME@,
    }
    &&& cfg.vm_ip@ == match env.vm_ip {
        Some(v) => v@,
        None => WinbridgeConfig::DEFAULT_VM_IP@,
    }
    &&& cfg.libvirt_uri@ == match env.libvirt_uri {
        Some(v) => v@,
        None => WinbridgeConfig::DEFAULT_LIBVIRT_URI@,
    }
}

impl WinbridgeConfig {
    /// The credentials file: `WINBRIDGE_CREDENTIALS_FILE` when set, otherwise
    /// `winbridge/credentials` under the user's configuration directory.
    pub fn credentials_path(env_override: Option<String>, config_dir: &str) -> (r: String)
        ensures
            r@ == standard_path(opt_chars(env_override), config_dir@, "credentials"@),
    {
        match env_override {
            Some(p) => p,
            None => join(join(config_dir, "winbridge").as_str(), "credentials"),
        }
    }

    /// The lifecycle file: `WINBRIDGE_CONFIG_FILE` when set, otherwise `winbridge/config.toml`
    /// under the user's configuration directory.
    pub fn config_path(env_override: Option<String>, config_dir: &str) -> (r: String)
        ensures
            r@ == standard_path(opt_chars(env_override), config_dir@, "config.toml"@),
    {
        match env_override {
            Some(p) => p,
            None => join(join(config_dir, "winbridge").as_str(), "config.toml"),
        }
    }
}

proof fn lemma_last_index_after_separator(a: Seq<char>, b: Seq<char>, c: char)
    requires
        !b.contains(c),
    ensures
        last_index_of(a + seq![c] + b, c) == a.len(),
    decreases b.len(),
{
    if b.len() == 0 {
        assert(a + seq![c] + b == (a + seq![c]));
        assert((a + seq![c]).last() == c);
    } else {
        let t = a + seq![c] + b;
        assert(t.last() == b.last());
        assert(b.last() != c) by {
            assert(b.contains(b.last()) || b.len() == 0);
        }
        assert(t.drop_last() == a + seq![c] + b.drop_last());
        assert forall|x: char| b.drop_last().contains(x) implies b.contains(x) by {
            let j = choose|j: int| 0 <= j < b.drop_last().len() && b.drop_last()[j] == x;
            assert(b[j] == x);
        }
        lemma_last_index_after_separator(a, b.drop_last(), c);
    }
}

/// A line setting the password overrides every earlier line: appending such a line to any
/// credentials text makes its value the password.
pub proof fn later_password_line_wins(text: Seq<char>, line: Seq<char>)
    requires
        !line.contains('\n'),
        line_password(line) is Some,
    ensures
        admin_password(text + seq!['\n'] + line) == line_password(line),
{
    let t = text + seq!['\n'] + line;
    lemma_last_index_after_separator(text, line, '\n');
    assert(t.skip(text.len() + 1 as int) == line);
}

} // verus!
