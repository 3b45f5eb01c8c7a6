//! The settings of one invocation and the choice of an authentication method.

use vstd::prelude::*;
use vstd::string::*;

use crate::paths::{join_local, join_local_spec};

verus! {

/// What to transfer, as given on the command line.
#[derive(Debug)]
pub enum Commands {
    /// Fetch files from the remote server.
    Download { remote_path: String, local_path: String, recursive: bool },
    /// Send files to the remote server.
    Upload { local_path: String, remote_path: String, recursive: bool },
}

/// The command line, parsed.
#[derive(Debug)]
pub struct Cli {
    /// Host name or address of the server.
    pub host: String,
    pub port: u16,
    pub username: String,
    /// Password, where one was given.
    pub password: Option<String>,
    /// Path of a private key file, where one was given.
    pub key_file: Option<String>,
    /// Authenticate through the running agent.
    pub use_agent: bool,
    /// Number of parallel workers.
    pub threads: usize,
    /// Chunk size in bytes.
    pub chunk_size: usize,
    /// Continue partial transfers.
    pub resume: bool,
    pub verbose: bool,
    pub command: Commands,
}

/// How the session authenticates.
#[derive(Debug)]
pub enum AuthMethod {
    Password(String),
    /// The path of a private key file.
    PublicKey(String),
    Agent,
}

/// The transfer to perform.
#[derive(Debug)]
pub enum Operation {
    Download { remote_path: String, local_path: String, recursive: bool },
    Upload { local_path: String, remote_path: String, recursive: bool },
}

/// The settings of one invocation.
#[derive(Debug)]
pub struct Config {
    pub host: String,
    pub port: u16,
    pub username: String,
    pub auth: AuthMethod,
    pub threads: usize,
    pub chunk_size: usize,
    pub resume: bool,
    pub verbose: bool,
    pub operation: Operation,
}

/// An authentication method as plain values.
pub enum AuthModel {
    Password(Seq<char>),
    PublicKey(Seq<char>),
    Agent,
}

/// A transfer as plain values. Commands and operations share this model.
pub enum OperationModel {
    Download { remote_path: Seq<char>, local_path: Seq<char>, recursive: bool },
    Upload { local_path: Seq<char>, remote_path: Seq<char>, recursive: bool },
}

/// A view of an optional string.
pub open spec fn opt_view(s: Option<String>) -> Option<Seq<char>> {
    match s {
        Some(text) => Some(text@),
        None => None,
    }
}

/// The command line as plain values.
pub struct CliModel {
    pub host: Seq<char>,
    pub port: u16,
    pub username: Seq<char>,
    pub password: Option<Seq<char>>,
    pub key_file: Option<Seq<char>>,
    pub use_agent: bool,
    pub threads: usize,
    pub chunk_size: usize,
    pub resume: bool,
    pub verbose: bool,
    pub command: OperationModel,
}

/// The settings as plain values.
pub struct ConfigModel {
    pub host: Seq<char>,
    pub port: u16,
    pub username: Seq<char>,
    pub auth: AuthModel,
    pub threads: usize,
    pub chunk_size: usize,
    pub resume: bool,
    pub verbose: bool,
    pub operation: OperationModel,
}

impl View for AuthMethod {
    type V = AuthModel;

    open spec fn view(&self) -> AuthModel {
        match self {
            AuthMethod::Password(password) => AuthModel::Password(password@),
            AuthMethod::PublicKey(path) => AuthModel::PublicKey(path@),
            AuthMethod::Agent => AuthModel::Agent,
        }
    }
}

impl View for Commands {
    type V = OperationModel;

    open spec fn view(&self) -> OperationModel {
        match self {
            Commands::Download { remote_path, local_path, recursive } => OperationModel::Download {
                remote_path: remote_path@,
                local_path: local_path@,
                recursive: *recursive,
            },
            Commands::Upload { local_path, remote_path, recursive } => OperationModel::Upload {
                local_path: local_path@,
                remote_path: remote_path@,
                recursive: *recursive,
            },
        }
    }
}

impl View for Operation {
    type V = OperationModel;

    open spec fn view(&self) -> OperationModel {
        match self {
            Operation::Download { remote_path, local_path, recursive } => OperationModel::Download {
                remote_path: remote_path@,
                local_path: local_path@,
                recursive: *recursive,
            },
            Operation::Upload { local_path, remote_path, recursive } => OperationModel::Upload {
                local_path: local_path@,
                remote_path: remote_path@,
                recursive: *recursive,
            },
        }
    }
}

impl View for Cli {
    type V = CliModel;

    open spec fn view(&self) -> CliModel {
        CliModel {
            host: self.host@,
            port: self.port,
            username: self.username@,
            password: opt_view(self.password),
            key_file: opt_view(self.key_file),
            use_agent: self.use_agent,
            threads: self.threads,
            chunk_size: self.chunk_size,
            resume: self.resume,
            verbose: self.verbose,
            command: self.command@,
        }
    }
}

impl View for Config {
    type V = ConfigModel;

    open spec fn view(&self) -> ConfigModel {
        ConfigModel {
            host: self.host@,
            port: self.port,
            username: self.username@,
            auth: self.auth@,
            threads: self.threads,
            chunk_size: self.chunk_size,
            resume: self.resume,
            verbose: self.verbose,
            operation: self.operation@,
        }
    }
}

/// The settings that a command line and an authentication method amount to.
pub open spec fn config_of(cli: CliModel, auth: AuthModel) -> ConfigModel {
    ConfigModel {
        host: cli.host,
        port: cli.port,
        username: cli.username,
        auth,
        threads: cli.threads,
        chunk_size: cli.chunk_size,
        resume: cli.resume,
        verbose: cli.verbose,
        operation: cli.command,
    }
}

/// The method that the command line itself settles: a password wins over the
/// agent, the agent over a key file. `None` where it names none of them.
pub open spec fn stated_auth(cli: CliModel) -> Option<AuthModel> {
    match cli.password {
        Some(password) => Some(AuthModel::Password(password)),
        None => if cli.use_agent {
            Some(AuthModel::Agent)
        } else {
            match cli.key_file {
                Some(path) => Some(AuthModel::PublicKey(path)),
                None => None,
            }
        },
    }
}

/// Why settings are refused.
#[derive(Clone, Copy, Debug, PartialEq, Eq, Structural)]
pub enum ConfigError {
    /// No worker would run.
    NoWorkers,
    /// No byte would fit in a chunk.
    EmptyChunk,
}

impl Config {
    /// Builds the settings from the command line and the authentication
    /// method that was chosen for it.
    pub fn from_cli(cli: &Cli, auth: AuthMethod) -> (config: Config)
        ensures
            config@ == config_of(cli@, auth@),
    {
        let operation = match &cli.command {
            Commands::Download { remote_path, local_path, recursive } => Operation::Download {
                remote_path: remote_path.clone(),
                local_path: local_path.clone(),
                recursive: *recursive,
            },
            Commands::Upload { local_path, remote_path, recursive } => Operation::Upload {
                local_path: local_path.clone(),
                remote_path: remote_path.clone(),
                recursive: *recursive,
            },
        };
        Config {
            host: cli.host.clone(),
            port: cli.port,
            username: cli.username.clone(),
            auth,
            threads: cli.threads,
            chunk_size: cli.chunk_size,
            resume: cli.resume,
            verbose: cli.verbose,
            operation,
        }
    }

    /// The authentication method that the command line settles without
    /// asking anybody, if it settles one.
    pub fn determine_auth_method(cli: &Cli) -> (r: Option<AuthMethod>)
        ensures
            match stated_auth(cli@) {
                Some(method) => r is Some && r->0@ == method,
                None => r is None,
            },
            r is None <==> cli@.password is None && !cli@.use_agent && cli@.key_file is None,
    {
        if let Some(password) = &cli.password {
            return Some(AuthMethod::Password(password.clone()));
        }
        if cli.use_agent {
            return Some(AuthMethod::Agent);
        }
        if let Some(path) = &cli.key_file {
            return Some(AuthMethod::PublicKey(path.clone()));
        }
        None
    }

    /// Checks that the settings allow any work at all.
    pub fn validate(&self) -> (r: Result<(), ConfigError>)
        ensures
            r == (if self@.threads == 0 {
                Err::<(), ConfigError>(ConfigError::NoWorkers)
            } else if self@.chunk_size == 0 {
                Err::<(), ConfigError>(ConfigError::EmptyChunk)
            } else {
                Ok::<(), ConfigError>(())
            }),
    {
        if self.threads == 0 {
            Err(ConfigError::NoWorkers)
        } else if self.chunk_size == 0 {
            Err(ConfigError::EmptyChunk)
        } else {
            Ok(())
        }
    }
}

/// Number of default key files that the search looks for.
pub const KEY_CANDIDATES: usize = 3;

/// Name of the `index`-th default key file.
pub open spec fn key_name_spec(index: int) -> Seq<char> {
    if index == 0 {
        "id_rsa"@
    } else if index == 1 {
        "id_ed25519"@
    } else {
        "id_ecdsa"@
    }
}

/// Path of the `index`-th default key file under the home directory `home`.
pub open spec fn key_path_spec(home: Seq<char>, index: int) -> Seq<char> {
    join_local_spec(join_local_spec(home, ".ssh"@), key_name_spec(index))
}

/// Path of the `index`-th default key file under the home directory `home`.
pub fn key_path(home: &str, index: usize) -> (r: String)
    ensures
        r@ == key_path_spec(home@, index as int),
{
    let dir = join_local(home, ".ssh");
    let name = if index == 0 {
        "id_rsa"
    } else if index == 1 {
        "id_ed25519"
    } else {
        "id_ecdsa"
    };
    join_local(dir.as_str(), name)
}

/// Why the search for an authentication method failed.
#[derive(Clone, Copy, Debug, PartialEq, Eq, Structural)]
pub enum AuthError {
    /// The local home directory is unknown.
    NoHomeDirectory,
    /// An answer arrived that does not fit the outstanding question.
    OutOfTurn,
}

/// Where the search stands.
#[derive(Clone, Copy, Debug, PartialEq, Eq, Structural)]
pub enum AuthPhase {
    /// Asked whether the candidate key file exists.
    Probing(usize),
    /// Asked the user whether to use the candidate key file.
    Offering(usize),
    /// Asked the user for a password.
    AskingPassword,
    Done,
    Failed(AuthError),
}

/// An answer to the outstanding question.
#[derive(Debug)]
pub enum AuthAnswer {
    /// Whether the key file exists.
    KeyExists(bool),
    /// Whether the user wants the key file.
    UseKey(bool),
    Password(String),
}

/// An answer as plain values.
pub enum AnswerModel {
    KeyExists(bool),
    UseKey(bool),
    Password(Seq<char>),
}

impl View for AuthAnswer {
    type V = AnswerModel;

    open spec fn view(&self) -> AnswerModel {
        match self {
            AuthAnswer::KeyExists(found) => AnswerModel::KeyExists(*found),
            AuthAnswer::UseKey(wanted) => AnswerModel::UseKey(*wanted),
            AuthAnswer::Password(password) => AnswerModel::Password(password@),
        }
    }
}

/// What the search asks for next.
#[derive(Debug)]
pub enum AuthQuestion {
    /// Does this key file exist?
    KeyExists(String),
    /// Ask the user, with this prompt, whether to use this key file.
    OfferKey { path: String, prompt: String },
    /// Ask the user for a password, with this prompt.
    AskPassword { prompt: String },
    /// The method is chosen.
    Chosen(AuthMethod),
    Failed(AuthError),
}

/// A question as plain values.
pub enum QuestionModel {
    KeyExists(Seq<char>),
    OfferKey { path: Seq<char>, prompt: Seq<char> },
    AskPassword { prompt: Seq<char> },
    Chosen(AuthModel),
    Failed(AuthError),
}

impl View for AuthQuestion {
    type V = QuestionModel;

    open spec fn view(&self) -> QuestionModel {
        match self {
            AuthQuestion::KeyExists(path) => QuestionModel::KeyExists(path@),
            AuthQuestion::OfferKey { path, prompt } => QuestionModel::OfferKey {
                path: path@,
                prompt: prompt@,
            },
            AuthQuestion::AskPassword { prompt } => QuestionModel::AskPassword { prompt: prompt@ },
            AuthQuestion::Chosen(method) => QuestionModel::Chosen(method@),
            AuthQuestion::Failed(error) => QuestionModel::Failed(*error),
        }
    }
}

/// The search as plain values.
pub struct AuthSearchModel {
    pub phase: AuthPhase,
    pub home: Seq<char>,
    pub username: Seq<char>,
    pub host: Seq<char>,
}

/// The prompt that offers a key file.
pub open spec fn offer_prompt_spec(path: Seq<char>) -> Seq<char> {
    "Use SSH key "@ + path + " for authentication?"@
}

/// The prompt that asks for a password.
pub open spec fn password_prompt_spec(username: Seq<char>, host: Seq<char>) -> Seq<char> {
    "Enter password for "@ + username + "@"@ + host
}

/// Turns to the candidate `index`, or to the password when none is left.
pub open spec fn turn_to_spec(search: AuthSearchModel, index: int) -> (
    AuthSearchModel,
    QuestionModel,
) {
    if 0 <= index < KEY_CANDIDATES {
        (
            AuthSearchModel { phase: AuthPhase::Probing(index as usize), ..search },
            QuestionModel::KeyExists(key_path_spec(search.home, index)),
        )
    } else {
        (
            AuthSearchModel { phase: AuthPhase::AskingPassword, ..search },
            QuestionModel::AskPassword {
                prompt: password_prompt_spec(search.username, search.host),
            },
        )
    }
}

/// The next state and question after `answer`.
///
/// The key files are looked for in order. Each one that exists is offered to
/// the user, and the first one accepted is chosen. Where none exists or none
/// is accepted, the user is asked for a password.
pub open spec fn auth_step_spec(search: AuthSearchModel, answer: AnswerModel) -> (
    AuthSearchModel,
    QuestionModel,
) {
    match (search.phase, answer) {
        (AuthPhase::Probing(index), AnswerModel::KeyExists(true)) => (
            AuthSearchModel { phase: AuthPhase::Offering(index), ..search },
            QuestionModel::OfferKey {
                path: key_path_spec(search.home, index as int),
                prompt: offer_prompt_spec(key_path_spec(search.home, index as int)),
            },
        ),
        (AuthPhase::Probing(index), AnswerModel::KeyExists(false)) => turn_to_spec(
            search,
            index + 1,
        ),
        (AuthPhase::Offering(index), AnswerModel::UseKey(true)) => (
            AuthSearchModel { phase: AuthPhase::Done, ..search },
            QuestionModel::Chosen(AuthModel::PublicKey(key_path_spec(search.home, index as int))),
        ),
        (AuthPhase::Offering(index), AnswerModel::UseKey(false)) => turn_to_spec(
            search,
            index + 1,
        ),
        (AuthPhase::AskingPassword, AnswerModel::Password(password)) => (
            AuthSearchModel { phase: AuthPhase::Done, ..search },
            QuestionModel::Chosen(AuthModel::Password(password)),
        ),
        _ => (
            AuthSearchModel { phase: AuthPhase::Failed(AuthError::OutOfTurn), ..search },
            QuestionModel::Failed(AuthError::OutOfTurn),
        ),
    }
}

/// The first state and question of a search.
pub open spec fn auth_start_spec(
    home: Option<Seq<char>>,
    username: Seq<char>,
    host: Seq<char>,
) -> (AuthSearchModel, QuestionModel) {
    match home {
        Some(dir) => turn_to_spec(
            AuthSearchModel { phase: AuthPhase::Done, home: dir, username, host },
            0,
        ),
        None => (
            AuthSearchModel {
                phase: AuthPhase::Failed(AuthError::NoHomeDirectory),
                home: Seq::empty(),
                username,
                host,
            },
            QuestionModel::Failed(AuthError::NoHomeDirectory),
        ),
    }
}

/// The search for an authentication method where the command line names
/// none: the questions to put to the file system and to the user, in order.
#[derive(Debug)]
pub struct AuthSearch {
    pub phase: AuthPhase,
    pub home: String,
    pub username: String,
    pub host: String,
}

impl View for AuthSearch {
    type V = AuthSearchModel;

    open spec fn view(&self) -> AuthSearchModel {
        AuthSearchModel {
            phase: self.phase,
            home: self.home@,
            username: self.username@,
            host: self.host@,
        }
    }
}

impl AuthSearch {
    /// Begins the search. `home` is the local home directory, `None` where
    /// it cannot be determined.
    pub fn start(home: Option<&str>, username: &str, host: &str) -> (r: (AuthSearch, AuthQuestion))
        ensures
            (r.0@, r.1@) == auth_start_spec(
                match home {
                    Some(dir) => Some(dir@),
                    None => None,
                },
                username@,
                host@,
            ),
            home is None <==> r.1@ == QuestionModel::Failed(AuthError::NoHomeDirectory),
    {
        match home {
            Some(dir) => {
                let search = AuthSearch {
                    phase: AuthPhase::Done,
                    home: dir.to_owned(),
                    username: username.to_owned(),
                    host: host.to_owned(),
                };
                search.turn_to(0)
            },
            None => (
                AuthSearch {
                    phase: AuthPhase::Failed(AuthError::NoHomeDirectory),
                    home: String::new(),
                    username: username.to_owned(),
                    host: host.to_owned(),
                },
                AuthQuestion::Failed(AuthError::NoHomeDirectory),
            ),
        }
    }

    fn turn_to(self, index: usize) -> (r: (AuthSearch, AuthQuestion))
        ensures
            (r.0@, r.1@) == turn_to_spec(self@, index as int),
    {
        if index < KEY_CANDIDATES {
            let question = AuthQuestion::KeyExists(key_path(self.home.as_str(), index));
            (
                AuthSearch {
                    phase: AuthPhase::Probing(index),
                    home: self.home,
                    username: self.username,
                    host: self.host,
                },
                question,
            )
        } else {
            let mut prompt = "Enter password for ".to_owned();
            prompt.append(self.username.as_str());
            prompt.append("@");
            prompt.append(self.host.as_str());
            (
                AuthSearch {
                    phase: AuthPhase::AskingPassword,
                    home: self.home,
                    username: self.username,
                    host: self.host,
                },
                AuthQuestion::AskPassword { prompt },
            )
        }
    }

    fn out_of_turn(self) -> (r: (AuthSearch, AuthQuestion))
        ensures
            r.0@ == (AuthSearchModel { phase: AuthPhase::Failed(AuthError::OutOfTurn), ..self@ }),
            r.1@ == QuestionModel::Failed(AuthError::OutOfTurn),
    {
        (
            AuthSearch {
                phase: AuthPhase::Failed(AuthError::OutOfTurn),
                home: self.home,
                username: self.username,
                host: self.host,
            },
            AuthQuestion::Failed(AuthError::OutOfTurn),
        )
    }

    /// Takes the answer to the outstanding question and asks the next one.
    pub fn step(self, answer: AuthAnswer) -> (r: (AuthSearch, AuthQuestion))
        ensures
            (r.0@, r.1@) == auth_step_spec(self@, answer@),
    {
        match self.phase {
            AuthPhase::Probing(index) => match answer {
                AuthAnswer::KeyExists(true) => {
                    let path = key_path(self.home.as_str(), index);
                    let mut prompt = "Use SSH key ".to_owned();
                    prompt.append(path.as_str());
                    prompt.append(" for authentication?");
                    (
                        AuthSearch {
                            phase: AuthPhase::Offering(index),
                            home: self.home,
                            username: self.username,
                            host: self.host,
                        },
                        AuthQuestion::OfferKey { path, prompt },
                    )
                },
                AuthAnswer::KeyExists(false) => {
                    if index < KEY_CANDIDATES {
                        self.turn_to(index + 1)
                    } else {
                        self.turn_to(KEY_CANDIDATES)
                    }
                },
                _ => self.out_of_turn(),
            },
            AuthPhase::Offering(index) => match answer {
                AuthAnswer::UseKey(true) => {
                    let path = key_path(self.home.as_str(), index);
                    (
                        AuthSearch {
                            phase: AuthPhase::Done,
                            home: self.home,
                            username: self.username,
                            host: self.host,
                        },
                        AuthQuestion::Chosen(AuthMethod::PublicKey(path)),
                    )
                },
                AuthAnswer::UseKey(false) => {
                    if index < KEY_CANDIDATES {
                        self.turn_to(index + 1)
                    } else {
                        self.turn_to(KEY_CANDIDATES)
                    }
                },
                _ => self.out_of_turn(),
            },
            AuthPhase::AskingPassword => match answer {
                AuthAnswer::Password(password) => (
                    AuthSearch {
                        phase: AuthPhase::Done,
                        home: self.home,
                        username: self.username,
                        host: self.host,
                    },
                    AuthQuestion::Chosen(AuthMethod::Password(password)),
                ),
                _ => self.out_of_turn(),
            },
            _ => self.out_of_turn(),
        }
    }
}

} // verus!
