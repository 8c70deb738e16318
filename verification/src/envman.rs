//! The message contract between the transport layer and an execution
//! environment, and the table that maps environment names to backends.

use crate::table::{Table, TableModel};
use crate::text::{copy_strings, join2};
use vstd::prelude::*;

verus! {

/// What can go wrong in an environment.
#[derive(Debug)]
pub enum Error {
    /// No backend is registered under the name, or its engine is not available.
    UnknownEnv(String),
    /// The session id is not in the registry.
    NoSuchSession(String),
    /// The session id is already in the registry.
    DuplicateSession(String),
    /// A local filesystem operation failed.
    IoError(String),
    /// The container engine reported a failure.
    EngineError(String),
    /// Moving a file into or out of a session failed.
    TransferError(String),
}

/// The mathematical content of an [`Error`].
pub enum ErrorView {
    UnknownEnv(Seq<char>),
    NoSuchSession(Seq<char>),
    DuplicateSession(Seq<char>),
    IoError(Seq<char>),
    EngineError(Seq<char>),
    TransferError(Seq<char>),
}

impl View for Error {
    type V = ErrorView;

    open spec fn view(&self) -> ErrorView {
        match self {
            Error::UnknownEnv(s) => ErrorView::UnknownEnv(s@),
            Error::NoSuchSession(s) => ErrorView::NoSuchSession(s@),
            Error::DuplicateSession(s) => ErrorView::DuplicateSession(s@),
            Error::IoError(s) => ErrorView::IoError(s@),
            Error::EngineError(s) => ErrorView::EngineError(s@),
            Error::TransferError(s) => ErrorView::TransferError(s@),
        }
    }
}

/// The text that a caller sees for an error.
pub open spec fn error_text(e: ErrorView) -> Seq<char> {
    match e {
        ErrorView::UnknownEnv(name) => "Error: unknown environment "@ + name,
        ErrorView::NoSuchSession(id) => "Error: no such session "@ + id,
        ErrorView::DuplicateSession(id) => "Error: duplicate session "@ + id,
        ErrorView::IoError(message) => "Error: io failure: "@ + message,
        ErrorView::EngineError(message) => "Error: engine failure: "@ + message,
        ErrorView::TransferError(message) => "Error: transfer failure: "@ + message,
    }
}

impl Error {
    /// The text that a caller sees for this error.
    pub fn to_string(&self) -> (r: String)
        ensures
            r@ == error_text(self@),
    {
        match self {
            Error::UnknownEnv(name) => join2("Error: unknown environment ", name.as_str()),
            Error::NoSuchSession(id) => join2("Error: no such session ", id.as_str()),
            Error::DuplicateSession(id) => join2("Error: duplicate session ", id.as_str()),
            Error::IoError(message) => join2("Error: io failure: ", message.as_str()),
            Error::EngineError(message) => join2("Error: engine failure: ", message.as_str()),
            Error::TransferError(message) => join2("Error: transfer failure: ", message.as_str()),
        }
    }
}

/// How the payload of a file transfer is laid out.
#[derive(Clone, Copy, Debug, PartialEq, Eq, Structural)]
pub enum ResourceFormat {
    /// A single file, transferred as it is.
    Raw,
    /// A tar archive.
    Tar,
}

/// The image that a session is created from.
#[derive(Debug)]
pub struct Image {
    pub uri: String,
    pub hash: String,
}

impl Image {
    pub fn new(uri: String, hash: String) -> (r: Self)
        ensures
            r.uri@ == uri@,
            r.hash@ == hash@,
    {
        Image { uri, hash }
    }
}

/// One step of work for a session.
#[derive(Debug)]
pub enum Command {
    Open,
    Close,
    Exec { executable: String, args: Vec<String> },
    Start { executable: String, args: Vec<String> },
    Stop { child_id: String },
    DownloadFile { uri: String, file_path: String, format: ResourceFormat },
    UploadFile { uri: String, file_path: String, format: ResourceFormat },
    AddTags(Vec<String>),
    DelTags(Vec<String>),
}

/// The mathematical content of a [`Command`].
pub enum CommandView {
    Open,
    Close,
    Exec { executable: Seq<char>, args: Seq<Seq<char>> },
    Start { executable: Seq<char>, args: Seq<Seq<char>> },
    Stop { child_id: Seq<char> },
    DownloadFile { uri: Seq<char>, file_path: Seq<char>, format: ResourceFormat },
    UploadFile { uri: Seq<char>, file_path: Seq<char>, format: ResourceFormat },
    AddTags(Seq<Seq<char>>),
    DelTags(Seq<Seq<char>>),
}

impl View for Command {
    type V = CommandView;

    open spec fn view(&self) -> CommandView {
        match self {
            Command::Open => CommandView::Open,
            Command::Close => CommandView::Close,
            Command::Exec { executable, args } => CommandView::Exec {
                executable: executable@,
                args: args.deep_view(),
            },
            Command::Start { executable, args } => CommandView::Start {
                executable: executable@,
                args: args.deep_view(),
            },
            Command::Stop { child_id } => CommandView::Stop { child_id: child_id@ },
            Command::DownloadFile { uri, file_path, format } => CommandView::DownloadFile {
                uri: uri@,
                file_path: file_path@,
                format: *format,
            },
            Command::UploadFile { uri, file_path, format } => CommandView::UploadFile {
                uri: uri@,
                file_path: file_path@,
                format: *format,
            },
            Command::AddTags(tags) => CommandView::AddTags(tags.deep_view()),
            Command::DelTags(tags) => CommandView::DelTags(tags.deep_view()),
        }
    }
}

impl Command {
    /// A copy of this command.
    pub fn duplicate(&self) -> (r: Command)
        ensures
            r@ == self@,
    {
        match self {
            Command::Open => Command::Open,
            Command::Close => Command::Close,
            Command::Exec { executable, args } => Command::Exec {
                executable: executable.clone(),
                args: copy_strings(args),
            },
            Command::Start { executable, args } => Command::Start {
                executable: executable.clone(),
                args: copy_strings(args),
            },
            Command::Stop { child_id } => Command::Stop { child_id: child_id.clone() },
            Command::DownloadFile { uri, file_path, format } => Command::DownloadFile {
                uri: uri.clone(),
                file_path: file_path.clone(),
                format: *format,
            },
            Command::UploadFile { uri, file_path, format } => Command::UploadFile {
                uri: uri.clone(),
                file_path: file_path.clone(),
                format: *format,
            },
            Command::AddTags(tags) => Command::AddTags(copy_strings(tags)),
            Command::DelTags(tags) => Command::DelTags(copy_strings(tags)),
        }
    }
}

/// The views of a list of commands, in order.
pub open spec fn command_views(commands: Seq<Command>) -> Seq<CommandView> {
    Seq::new(commands.len(), |i: int| commands[i]@)
}

/// Asks a backend for a new session.
#[derive(Debug)]
pub struct CreateSession<Options> {
    pub env_type: String,
    pub image: Image,
    pub options: Options,
}

/// Asks a backend to run a batch of commands against one session.
#[derive(Debug)]
pub struct SessionUpdate {
    pub session_id: String,
    pub commands: Vec<Command>,
}

/// Asks a backend for a listing of its sessions.
#[derive(Clone, Copy, Debug)]
pub struct GetSessions {}

/// Asks a backend to tear a session down.
#[derive(Debug)]
pub struct DestroySession {
    pub session_id: String,
}

/// Maps the name of an environment type to the address of its backend.
pub struct EnvRegistry<A> {
    backends: Table<A>,
}

impl<A> View for EnvRegistry<A> {
    type V = TableModel<A>;

    closed spec fn view(&self) -> TableModel<A> {
        self.backends@
    }
}

impl<A> EnvRegistry<A> {
    pub open spec fn wf(&self) -> bool {
        self@.wf()
    }

    /// The table of a process that has just started: no backend is known.
    pub fn new() -> (r: Self)
        ensures
            r.wf(),
            r@ == TableModel::<A>::empty(),
    {
        EnvRegistry { backends: Table::new() }
    }

    /// Makes `address` the backend of `env_name`, in place of an earlier one if any.
    pub fn register(&mut self, env_name: &str, address: A)
        requires
            old(self).wf(),
        ensures
            final(self).wf(),
            final(self)@ == old(self)@.put(env_name@, address),
    {
        let _ = self.backends.put(String::from_str(env_name), address);
    }

    /// The backend registered under `env_name`.
    pub fn resolve(&self, env_name: &String) -> (r: Result<&A, Error>)
        requires
            self.wf(),
        ensures
            r is Ok <==> self@.contains(env_name@),
            r is Ok ==> *r->Ok_0 == self@.get(env_name@),
            r is Err ==> r->Err_0@ == ErrorView::UnknownEnv(env_name@),
    {
        match self.backends.get(env_name) {
            Some(address) => Ok(address),
            None => Err(Error::UnknownEnv(env_name.clone())),
        }
    }
}

} // verus!
