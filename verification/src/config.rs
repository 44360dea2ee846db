//! The client/server configuration kept in `~/.config/clipshare.toml`, the errors met
//! while loading or creating it, and the decisions taken on each outcome.
//!
//! Reading, writing and TOML (de)serialisation are performed by the caller;
//! this module decides what each of their outcomes means.
use vstd::prelude::*;
use std::path::PathBuf;

verus! {

/// `std::path::PathBuf`, carried through opaque: the library never looks inside a path.
#[verifier::external_type_specification]
#[verifier::external_body]
pub struct ExPathBuf(PathBuf);

/// The path that `PathBuf::join` makes of `base` and the relative component `name`.
pub uninterp spec fn joined_path(base: PathBuf, name: Seq<char>) -> PathBuf;

/// The text that `path.display()` shows for `path`.
pub uninterp spec fn shown_path(path: PathBuf) -> Seq<char>;

/// The directory that `Path::parent` gives for `path`, if it has one.
pub uninterp spec fn parent_path(path: PathBuf) -> Option<PathBuf>;

/// Calls `dirs::home_dir`. What it returns depends on the environment
/// (`$HOME`, then the password database), so nothing is stated of it.
#[verifier::external_body]
fn home_dir() -> (home: Option<PathBuf>) {
    dirs::home_dir()
}

/// Calls `Path::join`: the result is a function of the base and the component,
/// named `joined_path`.
#[verifier::external_body]
fn join_path(base: &PathBuf, name: &str) -> (joined: PathBuf)
    ensures
        joined == joined_path(*base, name@),
{
    base.join(name)
}

/// Calls `Path::display` and renders it to a `String`: the text is a function
/// of the path, named `shown_path`.
#[verifier::external_body]
fn display_path(path: &PathBuf) -> (text: String)
    ensures
        text@ == shown_path(*path),
{
    path.display().to_string()
}

/// Calls `Path::parent` and copies the result: a function of the path, named
/// `parent_path`.
#[verifier::external_body]
fn parent_of(path: &PathBuf) -> (parent: Option<PathBuf>)
    ensures
        parent == parent_path(*path),
{
    match path.parent() {
        Some(dir) => Some(dir.to_path_buf()),
        None => None,
    }
}

/// The configuration file under the home directory `home`:
/// `home/.config/clipshare.toml`.
pub open spec fn config_file_in(home: PathBuf) -> PathBuf {
    joined_path(joined_path(home, ".config"@), "clipshare.toml"@)
}

/// The server address written into a freshly created configuration.
pub open spec fn default_server_ip() -> Seq<char> {
    "192.168.0.200"@
}

/// The server port written into a freshly created configuration.
pub open spec fn default_server_port() -> u16 {
    12345
}

/// Where the client connects to and where the server listens.
#[derive(Debug, PartialEq, Eq)]
pub struct Config {
    pub server_ip: String,
    pub server_port: u16,
}

impl Config {
    /// The configuration with the default server address and port.
    pub open spec fn is_default(self) -> bool {
        &&& self.server_ip@ == default_server_ip()
        &&& self.server_port == default_server_port()
    }
}

impl Clone for Config {
    fn clone(&self) -> (copy: Self)
        ensures
            copy == *self,
    {
        Config { server_ip: self.server_ip.clone(), server_port: self.server_port }
    }
}

/// What can go wrong while finding, reading, parsing or writing the configuration.
#[derive(Debug)]
pub enum ConfigError {
    NoHomeDir,
    FileNotFound(PathBuf),
    Parse(PathBuf, String),
    Serialize(String),
    Io(PathBuf, String),
}

/// The text of an error, as the program prints it, when its path (if it names
/// one) is shown as `shown`.
pub open spec fn error_text_showing(e: ConfigError, shown: Seq<char>) -> Seq<char> {
    match e {
        ConfigError::NoHomeDir => "cannot determine home directory"@,
        ConfigError::FileNotFound(_) => "config file not found: "@ + shown,
        ConfigError::Parse(_, msg) => "failed to parse config "@ + shown + ": "@ + msg@,
        ConfigError::Serialize(msg) => "failed to serialize config: "@ + msg@,
        ConfigError::Io(_, msg) => "IO error on "@ + shown + ": "@ + msg@,
    }
}

/// How the path an error names is shown; empty for an error that names none.
pub open spec fn error_path_text(e: ConfigError) -> Seq<char> {
    match e {
        ConfigError::FileNotFound(path) => shown_path(path),
        ConfigError::Parse(path, _) => shown_path(path),
        ConfigError::Io(path, _) => shown_path(path),
        _ => Seq::empty(),
    }
}

/// The human-readable text of an error, as the program prints it.
pub open spec fn error_text(e: ConfigError) -> Seq<char> {
    error_text_showing(e, error_path_text(e))
}

impl ConfigError {
    /// Renders the error for the user, showing the path it names as `shown`.
    pub fn message_showing(&self, shown: &str) -> (text: String)
        ensures
            text@ == error_text_showing(*self, shown@),
    {
        match self {
            ConfigError::NoHomeDir => "cannot determine home directory".to_owned(),
            ConfigError::FileNotFound(_) => {
                let text = "config file not found: ".to_owned();
                text.concat(shown)
            },
            ConfigError::Parse(_, msg) => {
                let text = "failed to parse config ".to_owned();
                let text = text.concat(shown);
                let text = text.concat(": ");
                text.concat(msg.as_str())
            },
            ConfigError::Serialize(msg) => {
                let text = "failed to serialize config: ".to_owned();
                text.concat(msg.as_str())
            },
            ConfigError::Io(_, msg) => {
                let text = "IO error on ".to_owned();
                let text = text.concat(shown);
                let text = text.concat(": ");
                text.concat(msg.as_str())
            },
        }
    }

    /// Renders the error for the user.
    pub fn message(&self) -> (text: String)
        ensures
            text@ == error_text(*self),
    {
        let shown = match self {
            ConfigError::FileNotFound(path) => display_path(path),
            ConfigError::Parse(path, _) => display_path(path),
            ConfigError::Io(path, _) => display_path(path),
            _ => String::new(),
        };
        self.message_showing(shown.as_str())
    }
}

/// The configuration file under the given home directory; `NoHomeDir` without one.
pub fn config_path_in(home: Option<PathBuf>) -> (path: Result<PathBuf, ConfigError>)
    ensures
        match home {
            Some(dir) => path == Ok::<PathBuf, ConfigError>(config_file_in(dir)),
            None => path == Err::<PathBuf, ConfigError>(ConfigError::NoHomeDir),
        },
{
    match home {
        Some(dir) => {
            let config_dir = join_path(&dir, ".config");
            Ok(join_path(&config_dir, "clipshare.toml"))
        },
        None => Err(ConfigError::NoHomeDir),
    }
}

/// The configuration file of the current user: `.config/clipshare.toml` in the home
/// directory that `dirs::home_dir` reports, or `NoHomeDir` when it reports none.
pub fn config_path() -> (path: Result<PathBuf, ConfigError>)
    ensures
        match path {
            Ok(p) => exists|dir: PathBuf| p == config_file_in(dir),
            Err(e) => e == ConfigError::NoHomeDir,
        },
{
    config_path_in(home_dir())
}

/// What became of reading the configuration file and, when it could be read,
/// of parsing its TOML text.
#[derive(Debug)]
pub enum ReadOutcome {
    /// The file was read and its text parsed into a configuration.
    Parsed(Config),
    /// The file was read but its text is not a valid configuration.
    Malformed(String),
    /// The file does not exist.
    Missing,
    /// Reading failed for another reason.
    Failed(String),
}

/// Loading from `path`: the parsed configuration, or the error that names
/// what went wrong and, except for a serialisation error, on which file.
pub open spec fn loaded_from(path: PathBuf, read: ReadOutcome) -> Result<Config, ConfigError> {
    match read {
        ReadOutcome::Parsed(c) => Ok(c),
        ReadOutcome::Malformed(msg) => Err(ConfigError::Parse(path, msg)),
        ReadOutcome::Missing => Err(ConfigError::FileNotFound(path)),
        ReadOutcome::Failed(msg) => Err(ConfigError::Io(path, msg)),
    }
}

impl Config {
    /// The result of loading the configuration from `path`, given what reading
    /// and parsing that file gave.
    pub fn from_read(path: PathBuf, read: ReadOutcome) -> (loaded: Result<Config, ConfigError>)
        ensures
            loaded == loaded_from(path, read),
    {
        match read {
            ReadOutcome::Parsed(c) => Ok(c),
            ReadOutcome::Malformed(msg) => Err(ConfigError::Parse(path, msg)),
            ReadOutcome::Missing => Err(ConfigError::FileNotFound(path)),
            ReadOutcome::Failed(msg) => Err(ConfigError::Io(path, msg)),
        }
    }

    fn default_values() -> (c: Config)
        ensures
            c.is_default(),
    {
        Config { server_ip: "192.168.0.200".to_owned(), server_port: 12345 }
    }

    /// The default configuration.
    pub fn test_default() -> (c: Config)
        ensures
            c.is_default(),
    {
        Config::default_values()
    }
}


/// Calls `PathBuf::clone`, whose copy equals the original.
#[verifier::external_body]
fn clone_path(path: &PathBuf) -> (copy: PathBuf)
    ensures
        copy == *path,
{
    path.clone()
}

/// The steps of writing the default configuration file.
#[derive(Debug, Clone, Copy, PartialEq, Eq)]
pub enum CreationStage {
    /// The directory that holds the file is being created.
    MakingDir,
    /// The default configuration is being rendered as TOML.
    Serializing,
    /// The TOML text is being written to the file.
    Writing,
    /// The outcome has been reported.
    Finished,
}

/// The outcome of the outside work that an action asked for.
#[derive(Debug)]
pub enum CreateEvent {
    DirCreated,
    DirFailed(String),
    Serialized(String),
    SerializeFailed(String),
    Written,
    WriteFailed(String),
}

/// The outside work to do next, or the final outcome.
#[derive(Debug)]
pub enum CreateAction {
    /// Create this directory and all its missing parents.
    CreateDir(PathBuf),
    /// Render this configuration as TOML.
    Serialize(Config),
    /// Write this text to the configuration file.
    Write(String),
    /// Creation is over, with this outcome.
    Finish(Result<Config, ConfigError>),
}

/// The creation of the default configuration file at `path`, one step at a time:
/// create the parent directory (when the path has one), render the default
/// configuration as TOML, write it, and report the configuration. The first
/// failure ends the creation with its error.
#[derive(Debug)]
pub struct DefaultCreation {
    pub path: PathBuf,
    pub config: Config,
    pub stage: CreationStage,
}

impl DefaultCreation {
    /// Whether `event` answers the action that the current stage asked for.
    pub open spec fn accepts(self, event: CreateEvent) -> bool {
        match self.stage {
            CreationStage::MakingDir => event is DirCreated || event is DirFailed,
            CreationStage::Serializing => event is Serialized || event is SerializeFailed,
            CreationStage::Writing => event is Written || event is WriteFailed,
            CreationStage::Finished => false,
        }
    }

    /// The next state and action once `event` answers the current stage.
    pub open spec fn after(self, event: CreateEvent) -> (DefaultCreation, CreateAction) {
        let finished = DefaultCreation { stage: CreationStage::Finished, ..self };
        match event {
            CreateEvent::DirCreated => (
                DefaultCreation { stage: CreationStage::Serializing, ..self },
                CreateAction::Serialize(self.config),
            ),
            CreateEvent::DirFailed(msg) => (
                finished,
                CreateAction::Finish(Err(ConfigError::Io(self.path, msg))),
            ),
            CreateEvent::Serialized(text) => (
                DefaultCreation { stage: CreationStage::Writing, ..self },
                CreateAction::Write(text),
            ),
            CreateEvent::SerializeFailed(msg) => (
                finished,
                CreateAction::Finish(Err(ConfigError::Serialize(msg))),
            ),
            CreateEvent::Written => (finished, CreateAction::Finish(Ok(self.config))),
            CreateEvent::WriteFailed(msg) => (
                finished,
                CreateAction::Finish(Err(ConfigError::Io(self.path, msg))),
            ),
        }
    }

    /// Starts creating the default configuration at `path`: the first action
    /// creates the parent directory, or, for a path without one, renders the
    /// configuration.
    pub fn start(path: PathBuf) -> (started: (DefaultCreation, CreateAction))
        ensures
            started.0.path == path,
            started.0.config.is_default(),
            match parent_path(path) {
                Some(dir) => started.0.stage == CreationStage::MakingDir && started.1
                    == CreateAction::CreateDir(dir),
                None => started.0.stage == CreationStage::Serializing && started.1
                    == CreateAction::Serialize(started.0.config),
            },
    {
        let config = Config::default_values();
        match parent_of(&path) {
            Some(dir) => (
                DefaultCreation { path, config, stage: CreationStage::MakingDir },
                CreateAction::CreateDir(dir),
            ),
            None => {
                let rendered = config.clone();
                (
                    DefaultCreation { path, config, stage: CreationStage::Serializing },
                    CreateAction::Serialize(rendered),
                )
            },
        }
    }

    /// Takes in the outcome of the last action and gives the next one. An
    /// event that does not answer the current stage changes nothing and gives
    /// no action.
    pub fn step(&mut self, event: CreateEvent) -> (action: Option<CreateAction>)
        ensures
            if old(self).accepts(event) {
                *final(self) == old(self).after(event).0 && action == Some(
                    old(self).after(event).1,
                )
            } else {
                *final(self) == *old(self) && action is None
            },
    {
        match (&self.stage, event) {
            (CreationStage::MakingDir, CreateEvent::DirCreated) => {
                self.stage = CreationStage::Serializing;
                Some(CreateAction::Serialize(self.config.clone()))
            },
            (CreationStage::MakingDir, CreateEvent::DirFailed(msg)) => {
                self.stage = CreationStage::Finished;
                Some(CreateAction::Finish(Err(ConfigError::Io(clone_path(&self.path), msg))))
            },
            (CreationStage::Serializing, CreateEvent::Serialized(text)) => {
                self.stage = CreationStage::Writing;
                Some(CreateAction::Write(text))
            },
            (CreationStage::Serializing, CreateEvent::SerializeFailed(msg)) => {
                self.stage = CreationStage::Finished;
                Some(CreateAction::Finish(Err(ConfigError::Serialize(msg))))
            },
            (CreationStage::Writing, CreateEvent::Written) => {
                self.stage = CreationStage::Finished;
                Some(CreateAction::Finish(Ok(self.config.clone())))
            },
            (CreationStage::Writing, CreateEvent::WriteFailed(msg)) => {
                self.stage = CreationStage::Finished;
                Some(CreateAction::Finish(Err(ConfigError::Io(clone_path(&self.path), msg))))
            },
            _ => None,
        }
    }
}

/// What to do once loading the configuration is over.
#[derive(Debug)]
pub enum LoadDecision {
    /// Go on with this configuration.
    Use(Config),
    /// The file does not exist: create it with the defaults.
    CreateDefault,
    /// Stop, printing this message.
    Abort(String),
}

/// The text printed when loading fails for another reason than a missing file.
pub open spec fn load_failure_text(e: ConfigError) -> Seq<char> {
    "Failed to load config: "@ + error_text(e)
}

/// The text printed when creating the default configuration fails.
pub open spec fn create_failure_text(e: ConfigError) -> Seq<char> {
    "Failed to create default config: "@ + error_text(e)
}

/// Whether `decision` is what follows the load outcome `loaded`.
pub open spec fn load_decided(loaded: Result<Config, ConfigError>, decision: LoadDecision) -> bool {
    match loaded {
        Ok(c) => decision == LoadDecision::Use(c),
        Err(ConfigError::FileNotFound(_)) => decision == LoadDecision::CreateDefault,
        Err(e) => decision matches LoadDecision::Abort(msg) && msg@ == load_failure_text(e),
    }
}

/// Decides what follows a load: use the configuration, create the default one
/// when the file is missing, or give up with a message on any other error.
pub fn after_load(loaded: Result<Config, ConfigError>) -> (decision: LoadDecision)
    ensures
        load_decided(loaded, decision),
{
    match loaded {
        Ok(c) => LoadDecision::Use(c),
        Err(ConfigError::FileNotFound(_)) => LoadDecision::CreateDefault,
        Err(e) => {
            let text = "Failed to load config: ".to_owned();
            let shown = e.message();
            LoadDecision::Abort(text.concat(shown.as_str()))
        },
    }
}

/// Decides what follows the creation of the default configuration: use it, or
/// give up with a message.
pub fn after_create(created: Result<Config, ConfigError>) -> (decision: Result<Config, String>)
    ensures
        match created {
            Ok(c) => decision == Ok::<Config, String>(c),
            Err(e) => decision matches Err(msg) && msg@ == create_failure_text(e),
        },
{
    match created {
        Ok(c) => Ok(c),
        Err(e) => {
            let text = "Failed to create default config: ".to_owned();
            let shown = e.message();
            Err(text.concat(shown.as_str()))
        },
    }
}

/// A missing configuration file is not an error: it leads to creating the
/// default configuration.
pub proof fn law_missing_file_is_created(path: PathBuf, decision: LoadDecision)
    requires
        load_decided(loaded_from(path, ReadOutcome::Missing), decision),
    ensures
        decision == LoadDecision::CreateDefault,
{
}

/// Loading is a function of the file's path and of what reading it gave:
/// equal inputs give equal results. A file that exists, well-formed or not,
/// never leads to creating one.
pub proof fn law_load_is_determined(
    path: PathBuf,
    read: ReadOutcome,
    first: LoadDecision,
    second: LoadDecision,
)
    requires
        load_decided(loaded_from(path, read), first),
        load_decided(loaded_from(path, read), second),
    ensures
        first == second || (first is Abort && second is Abort && first->Abort_0@
            == second->Abort_0@),
        !(read is Missing) ==> !(first is CreateDefault),
{
}

/// Two runs on an unchanged file agree. If the first run used the
/// configuration `used` (the file's own, or the default it wrote), and the
/// second run reads back that configuration, the second run uses the same
/// configuration and creates no file.
pub proof fn law_second_run_agrees(path: PathBuf, used: Config, second: LoadDecision)
    requires
        load_decided(loaded_from(path, ReadOutcome::Parsed(used)), second),
    ensures
        second matches LoadDecision::Use(c) && c.server_ip@ == used.server_ip@
            && c.server_port == used.server_port,
        !(second is CreateDefault),
{
}

/// A configuration file that cannot be read or parsed stops the program with
/// the error, which names the file; there is no silent fallback to defaults.
pub proof fn law_bad_file_stops(path: PathBuf, read: ReadOutcome, decision: LoadDecision)
    requires
        read is Malformed || read is Failed,
        load_decided(loaded_from(path, read), decision),
    ensures
        decision matches LoadDecision::Abort(msg) && msg@ == load_failure_text(
            loaded_from(path, read)->Err_0,
        ),
        match read {
            ReadOutcome::Malformed(m) => loaded_from(path, read) == Err::<Config, ConfigError>(
                ConfigError::Parse(path, m),
            ),
            ReadOutcome::Failed(m) => loaded_from(path, read) == Err::<Config, ConfigError>(
                ConfigError::Io(path, m),
            ),
            _ => false,
        },
{
}

/// When every step succeeds, the creation renders the configuration, writes
/// exactly the rendered text, and reports the default configuration.
pub proof fn law_creation_writes_then_reports_default(
    creation: DefaultCreation,
    text: String,
)
    requires
        creation.stage == CreationStage::MakingDir,
        creation.config.is_default(),
    ensures
        ({
            let (second, render) = creation.after(CreateEvent::DirCreated);
            let (third, write) = second.after(CreateEvent::Serialized(text));
            let (last, finish) = third.after(CreateEvent::Written);
            &&& second.accepts(CreateEvent::Serialized(text))
            &&& third.accepts(CreateEvent::Written)
            &&& render == CreateAction::Serialize(creation.config)
            &&& write == CreateAction::Write(text)
            &&& finish matches CreateAction::Finish(Ok(c)) && c.is_default()
            &&& last.stage == CreationStage::Finished
        }),
{
}

/// The creation reports success only after the file was written, and the first
/// failure ends it with that failure's error.
pub proof fn law_creation_outcome(creation: DefaultCreation, event: CreateEvent)
    requires
        creation.accepts(event),
    ensures
        (creation.after(event).1 matches CreateAction::Finish(Ok(_))) <==> (creation.stage
            == CreationStage::Writing && event == CreateEvent::Written),
        (event is DirFailed || event is SerializeFailed || event is WriteFailed) ==> {
            &&& creation.after(event).0.stage == CreationStage::Finished
            &&& creation.after(event).1 matches CreateAction::Finish(Err(_))
        },
        creation.after(event).0.path == creation.path,
        creation.after(event).0.config == creation.config,
{
}

} // verus!
