//! Application settings: the local-server port for the next launch.
//!
//! Settings live in their own versioned file, apart from the overlay
//! document. A missing file means the default port; a malformed, unsupported
//! or invalid file blocks only server startup. Saving changes the port for the
//! next launch and never rebinds a running server. The file system and the
//! JSON text are handled by the application; this module holds the rules.

use vstd::prelude::*;
use vstd::string::StringExecFns;
use crate::paths::{clone_path, config_local_dir, config_local_of, join_path, joined_path, project_dirs};
use crate::text::{
    chars_of, decimal_digits, is_ascii_digit, lemma_decimal_digits, lemma_digits_untrimmed,
    parse_u32, push_decimal, spec_parse_u32, string_from_str, trim_text, trimmed, unsigned_digits,
};

verus! {

/// The only settings format version this library reads and writes.
pub const FORMAT_VERSION: u32 = 1;

/// The settings file name below the platform's app-local config directory.
pub const FILE_NAME: &'static str = "settings.json";

/// The local-server port used when no settings file exists.
pub const DEFAULT_PORT: u16 = 51737;

/// The smallest valid server port.
pub const MIN_PORT: u16 = 1;

/// The largest valid server port.
pub const MAX_PORT: u16 = 65535;

/// The application name under which platform directories are resolved.
pub const APPLICATION: &'static str = "Chikachika";

/// An error resolving, reading, validating or writing the settings file.
/// Paths and underlying I/O or JSON errors are carried as their display text.
#[derive(Debug, PartialEq)]
pub enum SettingsError {
    AppLocalDirectoryUnavailable,
    NoParentDirectory { path: String },
    CreateDirectory { path: String, source: String },
    Read { path: String, source: String },
    Malformed { path: String, source: String },
    Serialize(String),
    UnsupportedVersion { found: u32, supported: u32 },
    InvalidPort { port: u32 },
    CreateTemporary { directory: String, source: String },
    WriteTemporary { path: String, source: String },
    Replace { path: String, source: String },
}

impl Clone for SettingsError {
    fn clone(&self) -> (copy: Self)
        ensures
            copy == *self,
    {
        match self {
            SettingsError::AppLocalDirectoryUnavailable => SettingsError::AppLocalDirectoryUnavailable,
            SettingsError::NoParentDirectory { path } => SettingsError::NoParentDirectory {
                path: path.clone(),
            },
            SettingsError::CreateDirectory { path, source } => SettingsError::CreateDirectory {
                path: path.clone(),
                source: source.clone(),
            },
            SettingsError::Read { path, source } => SettingsError::Read {
                path: path.clone(),
                source: source.clone(),
            },
            SettingsError::Malformed { path, source } => SettingsError::Malformed {
                path: path.clone(),
                source: source.clone(),
            },
            SettingsError::Serialize(source) => SettingsError::Serialize(source.clone()),
            SettingsError::UnsupportedVersion { found, supported } =>
                SettingsError::UnsupportedVersion { found: *found, supported: *supported },
            SettingsError::InvalidPort { port } => SettingsError::InvalidPort { port: *port },
            SettingsError::CreateTemporary { directory, source } => SettingsError::CreateTemporary {
                directory: directory.clone(),
                source: source.clone(),
            },
            SettingsError::WriteTemporary { path, source } => SettingsError::WriteTemporary {
                path: path.clone(),
                source: source.clone(),
            },
            SettingsError::Replace { path, source } => SettingsError::Replace {
                path: path.clone(),
                source: source.clone(),
            },
        }
    }
}

/// The user-facing text of a settings error.
pub open spec fn settings_message(error: SettingsError) -> Seq<char> {
    match error {
        SettingsError::AppLocalDirectoryUnavailable =>
            "the platform app-local settings directory is unavailable"@,
        SettingsError::NoParentDirectory { path } =>
            "settings path has no parent directory: "@ + path@,
        SettingsError::CreateDirectory { path, source } =>
            "could not create settings directory "@ + path@ + ": "@ + source@,
        SettingsError::Read { path, source } =>
            "could not read settings "@ + path@ + ": "@ + source@,
        SettingsError::Malformed { path, source } =>
            "settings "@ + path@ + " are malformed: "@ + source@,
        SettingsError::Serialize(source) => "could not serialize settings: "@ + source@,
        SettingsError::UnsupportedVersion { found, supported } =>
            "settings use unsupported format version "@ + decimal_digits(found as nat)
                + "; supported version is "@ + decimal_digits(supported as nat),
        SettingsError::InvalidPort { port } =>
            "settings specify invalid server port "@ + decimal_digits(port as nat)
                + "; valid ports are "@ + decimal_digits(MIN_PORT as nat) + "..="@
                + decimal_digits(MAX_PORT as nat),
        SettingsError::CreateTemporary { directory, source } =>
            "could not create temporary settings file in "@ + directory@ + ": "@ + source@,
        SettingsError::WriteTemporary { path, source } =>
            "could not write temporary settings file "@ + path@ + ": "@ + source@,
        SettingsError::Replace { path, source } =>
            "could not atomically replace settings "@ + path@ + ": "@ + source@,
    }
}

impl SettingsError {
    /// The user-facing text of this error, as `Display` writes it.
    pub fn message(&self) -> (text: String)
        ensures
            text@ == settings_message(*self),
    {
        let mut text = String::new();
        match self {
            SettingsError::AppLocalDirectoryUnavailable => {
                text.append("the platform app-local settings directory is unavailable");
            },
            SettingsError::NoParentDirectory { path } => {
                text.append("settings path has no parent directory: ");
                text.append(path.as_str());
            },
            SettingsError::CreateDirectory { path, source } => {
                text.append("could not create settings directory ");
                text.append(path.as_str());
                text.append(": ");
                text.append(source.as_str());
            },
            SettingsError::Read { path, source } => {
                text.append("could not read settings ");
                text.append(path.as_str());
                text.append(": ");
                text.append(source.as_str());
            },
            SettingsError::Malformed { path, source } => {
                text.append("settings ");
                text.append(path.as_str());
                text.append(" are malformed: ");
                text.append(source.as_str());
            },
            SettingsError::Serialize(source) => {
                text.append("could not serialize settings: ");
                text.append(source.as_str());
            },
            SettingsError::UnsupportedVersion { found, supported } => {
                text.append("settings use unsupported format version ");
                push_decimal(&mut text, *found as u64);
                text.append("; supported version is ");
                push_decimal(&mut text, *supported as u64);
            },
            SettingsError::InvalidPort { port } => {
                text.append("settings specify invalid server port ");
                push_decimal(&mut text, *port as u64);
                text.append("; valid ports are ");
                push_decimal(&mut text, MIN_PORT as u64);
                text.append("..=");
                push_decimal(&mut text, MAX_PORT as u64);
            },
            SettingsError::CreateTemporary { directory, source } => {
                text.append("could not create temporary settings file in ");
                text.append(directory.as_str());
                text.append(": ");
                text.append(source.as_str());
            },
            SettingsError::WriteTemporary { path, source } => {
                text.append("could not write temporary settings file ");
                text.append(path.as_str());
                text.append(": ");
                text.append(source.as_str());
            },
            SettingsError::Replace { path, source } => {
                text.append("could not atomically replace settings ");
                text.append(path.as_str());
                text.append(": ");
                text.append(source.as_str());
            },
        }
        assert(text@ =~= settings_message(*self));
        text
    }
}

/// Whether a port may be configured: every port from 1 to 65535.
pub open spec fn port_is_valid(port: u16) -> bool {
    MIN_PORT <= port <= MAX_PORT
}

/// Checks a server port; port zero is refused.
pub fn validate_port(port: u16) -> (result: Result<(), SettingsError>)
    ensures
        match result {
            Ok(()) => port_is_valid(port),
            Err(e) => !port_is_valid(port) && e == (SettingsError::InvalidPort { port: port as u32 }),
        },
{
    if MIN_PORT <= port && port <= MAX_PORT {
        Ok(())
    } else {
        Err(SettingsError::InvalidPort { port: port as u32 })
    }
}

/// A validated set of application settings.
#[derive(Clone, Copy, Debug, Eq, PartialEq, Structural)]
pub struct Settings {
    server_port: u16,
}

impl Settings {
    /// The configured local-server port.
    pub closed spec fn spec_server_port(self) -> u16 {
        self.server_port
    }

    /// Settings with the given port, which must be valid.
    pub fn new(server_port: u16) -> (settings: Result<Self, SettingsError>)
        ensures
            match settings {
                Ok(s) => port_is_valid(server_port) && s.spec_server_port() == server_port,
                Err(e) => !port_is_valid(server_port) && e == (SettingsError::InvalidPort {
                    port: server_port as u32,
                }),
            },
    {
        validate_port(server_port)?;
        Ok(Settings { server_port })
    }

    /// The configured local-server port.
    pub fn server_port(self) -> (port: u16)
        ensures
            port == self.spec_server_port(),
    {
        self.server_port
    }
}

impl Default for Settings {
    fn default() -> (settings: Self)
        ensures
            settings.spec_server_port() == DEFAULT_PORT,
    {
        Settings { server_port: DEFAULT_PORT }
    }
}

/// The stored form of the settings: the format version and the port, widened
/// so that out-of-range stored values can be reported as they were written.
#[derive(Clone, Copy, Debug, Eq, PartialEq, Structural)]
pub struct SettingsEnvelope {
    pub format_version: u32,
    pub server_port: u32,
}

/// The outcome of reading stored settings: the version is checked first, then
/// the port must fit in 16 bits and be a valid port.
pub open spec fn spec_settings_from(format_version: u32, server_port: u32) -> Result<u16, SettingsError> {
    if format_version != FORMAT_VERSION {
        Err(SettingsError::UnsupportedVersion { found: format_version, supported: FORMAT_VERSION })
    } else if server_port > 65535 || server_port == 0 {
        Err(SettingsError::InvalidPort { port: server_port })
    } else {
        Ok(server_port as u16)
    }
}

impl SettingsEnvelope {
    /// The stored form of validated settings.
    pub fn from_settings(settings: Settings) -> (envelope: Self)
        ensures
            envelope.format_version == FORMAT_VERSION,
            envelope.server_port == settings.spec_server_port() as u32,
    {
        SettingsEnvelope {
            format_version: FORMAT_VERSION,
            server_port: settings.server_port() as u32,
        }
    }

    /// The settings a stored envelope describes.
    pub fn into_settings(self) -> (settings: Result<Settings, SettingsError>)
        ensures
            match settings {
                Ok(s) => spec_settings_from(self.format_version, self.server_port) == Ok::<
                    u16,
                    SettingsError,
                >(s.spec_server_port()),
                Err(e) => spec_settings_from(self.format_version, self.server_port) == Err::<
                    u16,
                    SettingsError,
                >(e),
            },
    {
        if self.format_version != FORMAT_VERSION {
            return Err(
                SettingsError::UnsupportedVersion {
                    found: self.format_version,
                    supported: FORMAT_VERSION,
                },
            );
        }
        if self.server_port > 65535 {
            return Err(SettingsError::InvalidPort { port: self.server_port });
        }
        Settings::new(self.server_port as u16)
    }
}

/// Reading back the stored form of valid settings gives the same settings.
pub proof fn lemma_settings_round_trip(port: u16)
    requires
        port_is_valid(port),
    ensures
        spec_settings_from(FORMAT_VERSION, port as u32) == Ok::<u16, SettingsError>(port),
{
}

/// A settings store for one file path.
#[derive(Debug)]
pub struct Store {
    path: std::path::PathBuf,
}

impl Clone for Store {
    fn clone(&self) -> (copy: Self)
        ensures
            copy == *self,
    {
        Store { path: clone_path(&self.path) }
    }
}

impl Store {
    pub closed spec fn spec_path(&self) -> std::path::PathBuf {
        self.path
    }

    /// A store at `path`; nothing is read or written.
    pub fn at(path: std::path::PathBuf) -> (store: Self)
        ensures
            store.spec_path() == path,
    {
        Store { path }
    }

    /// The exact settings path of this store.
    pub fn path(&self) -> (path: &std::path::PathBuf)
        ensures
            *path == self.spec_path(),
    {
        &self.path
    }

    /// A store at `settings.json` in the platform's app-local config
    /// directory for this application; the working directory is never used.
    /// Which directory that is depends on the platform and the environment.
    pub fn app_local() -> (store: Result<Self, SettingsError>)
        ensures
            store is Err ==> store == Err::<Self, SettingsError>(
                SettingsError::AppLocalDirectoryUnavailable,
            ),
            store matches Ok(s) ==> exists|dirs: directories::ProjectDirs|
                s.spec_path() == joined_path(config_local_of(dirs), FILE_NAME@),
    {
        match project_dirs(APPLICATION) {
            Some(dirs) => Ok(Store::at(join_path(&config_local_dir(&dirs), FILE_NAME))),
            None => Err(SettingsError::AppLocalDirectoryUnavailable),
        }
    }
}

/// What the application knows about its settings: the store in use (if the
/// path could be resolved), the loaded port, and the load error.
pub struct SettingsStateView {
    pub has_store: bool,
    pub configured_port: Option<u16>,
    pub error: Option<SettingsError>,
}

/// The settings lifecycle seen by the user interface. `configured_port` is
/// present for a loaded file or a missing one (the default), and absent when
/// loading failed; then `display_port` still shows the default for a useful
/// label, but startup must not use it. Saving changes only the next-launch
/// port and never the running server.
#[derive(Debug)]
pub struct SettingsState {
    store: Option<Store>,
    configured_port: Option<u16>,
    error: Option<SettingsError>,
}

impl View for SettingsState {
    type V = SettingsStateView;

    closed spec fn view(&self) -> SettingsStateView {
        SettingsStateView {
            has_store: self.store is Some,
            configured_port: self.configured_port,
            error: self.error,
        }
    }
}

impl SettingsState {
    /// The store path in use, if any.
    pub closed spec fn spec_store_path(&self) -> Option<std::path::PathBuf> {
        match self.store {
            Some(s) => Some(s.spec_path()),
            None => None,
        }
    }

    /// The state after loading from `store` gave `loaded`.
    pub fn from_load_result(store: Store, loaded: Result<Settings, SettingsError>) -> (state: Self)
        ensures
            state@.has_store,
            state.spec_store_path() == Some(store.spec_path()),
            match loaded {
                Ok(s) => state@.configured_port == Some(s.spec_server_port()) && state@.error
                    is None,
                Err(e) => state@.configured_port is None && state@.error == Some(e),
            },
    {
        match loaded {
            Ok(settings) => SettingsState {
                store: Some(store),
                configured_port: Some(settings.server_port()),
                error: None,
            },
            Err(error) => SettingsState { store: Some(store), configured_port: None, error: Some(error) },
        }
    }

    /// The state when the settings path could not be resolved.
    pub fn unavailable(error: SettingsError) -> (state: Self)
        ensures
            !state@.has_store,
            state@.configured_port is None,
            state@.error == Some(error),
    {
        SettingsState { store: None, configured_port: None, error: Some(error) }
    }

    /// A loaded state with an explicit store and validated settings.
    pub fn from_settings(store: Store, settings: Settings) -> (state: Self)
        ensures
            state@.has_store,
            state.spec_store_path() == Some(store.spec_path()),
            state@.configured_port == Some(settings.spec_server_port()),
            state@.error is None,
    {
        SettingsState {
            store: Some(store),
            configured_port: Some(settings.server_port()),
            error: None,
        }
    }

    /// The loaded port, if settings loaded.
    pub fn configured_port(&self) -> (port: Option<u16>)
        ensures
            port == self@.configured_port,
    {
        self.configured_port
    }

    /// The port to show: the loaded one, or the default when loading failed
    /// (callers check `settings_error` before starting a server).
    pub fn display_port(&self) -> (port: u16)
        ensures
            port == match self@.configured_port {
                Some(p) => p,
                None => DEFAULT_PORT,
            },
    {
        match self.configured_port {
            Some(port) => port,
            None => DEFAULT_PORT,
        }
    }

    /// The settings path in use, when it could be resolved.
    pub fn settings_path(&self) -> (path: Option<&std::path::PathBuf>)
        ensures
            match path {
                Some(p) => self.spec_store_path() == Some(*p),
                None => self.spec_store_path() is None,
            },
    {
        match &self.store {
            Some(store) => Some(store.path()),
            None => None,
        }
    }

    /// The load error shown to the user, if any.
    pub fn settings_error(&self) -> (error: Option<&SettingsError>)
        ensures
            match error {
                Some(e) => self@.error == Some(*e),
                None => self@.error is None,
            },
    {
        match &self.error {
            Some(error) => Some(error),
            None => None,
        }
    }

    /// Whether a valid port was loaded, so the server may start.
    pub fn is_valid(&self) -> (valid: bool)
        ensures
            valid == (self@.configured_port is Some && self@.error is None),
    {
        self.configured_port.is_some() && self.error.is_none()
    }

    /// What a save of `port` for the next launch writes, and where: refused
    /// without a resolved store, or for an invalid port.
    pub fn save_request(&self, port: u16) -> (request: Result<(&Store, SettingsEnvelope), SettingsError>)
        ensures
            match request {
                Ok((store, envelope)) => self@.has_store && port_is_valid(port)
                    && self.spec_store_path() == Some(store.spec_path()) && envelope
                    == (SettingsEnvelope { format_version: FORMAT_VERSION, server_port: port as u32 }),
                Err(e) => if !self@.has_store {
                    e == SettingsError::AppLocalDirectoryUnavailable
                } else {
                    !port_is_valid(port) && e == (SettingsError::InvalidPort { port: port as u32 })
                },
            },
    {
        let store = match &self.store {
            Some(store) => store,
            None => return Err(SettingsError::AppLocalDirectoryUnavailable),
        };
        let settings = Settings::new(port)?;
        Ok((store, SettingsEnvelope::from_settings(settings)))
    }

    /// Records the outcome of writing a save of `port`: the state changes only
    /// when the write succeeded, and then the port is loaded and no error is
    /// shown.
    pub fn finish_save_port(&mut self, port: u16, written: Result<(), SettingsError>) -> (result:
        Result<(), SettingsError>)
        ensures
            final(self).spec_store_path() == old(self).spec_store_path(),
            final(self)@.has_store == old(self)@.has_store,
            match written {
                Ok(()) => result is Ok && final(self)@.configured_port == Some(port)
                    && final(self)@.error is None,
                Err(e) => result == Err::<(), SettingsError>(e) && final(self)@ == old(self)@,
            },
    {
        match written {
            Ok(()) => {
                self.configured_port = Some(port);
                self.error = None;
                Ok(())
            },
            Err(e) => Err(e),
        }
    }
}


/// The message shown for port text that is not a valid port.
pub const PORT_INPUT_MESSAGE: &'static str = "Port must be a whole number from 1 to 65535.";

/// The port that settings text names: surrounding whitespace is ignored, the
/// rest must be an unsigned decimal number (`str::parse::<u32>`) from 1 to
/// 65535.
pub open spec fn spec_port_input(input: Seq<char>) -> Option<u16> {
    match spec_parse_u32(trimmed(input)) {
        Some(v) => if 1 <= v <= 65535 {
            Some(v as u16)
        } else {
            None
        },
        None => None,
    }
}

/// Parses the port typed into the settings form.
pub fn parse_port_input(input: &str) -> (port: Result<u16, String>)
    ensures
        match port {
            Ok(p) => spec_port_input(input@) == Some(p),
            Err(message) => spec_port_input(input@) is None && message@ == PORT_INPUT_MESSAGE@,
        },
{
    let trimmed_input = trim_text(input);
    let chars = chars_of(trimmed_input.as_str());
    match parse_u32(&chars) {
        Some(value) => if 1 <= value && value <= 65535 {
            Ok(value as u16)
        } else {
            Err(string_from_str(PORT_INPUT_MESSAGE))
        },
        None => Err(string_from_str(PORT_INPUT_MESSAGE)),
    }
}


/// The text of a valid port, as the settings form shows it, reads back as
/// that port.
pub proof fn lemma_port_text_round_trip(port: u16)
    requires
        port_is_valid(port),
    ensures
        spec_port_input(decimal_digits(port as nat)) == Some(port),
{
    let s = decimal_digits(port as nat);
    lemma_decimal_digits(port as nat);
    lemma_digits_untrimmed(s);
    assert(is_ascii_digit(s[0]));
    assert(unsigned_digits(s) == s);
}

} // verus!
