//! The hub's server: its configuration, whether it was asked to run, what
//! it announces on the local network, and where its own client finds it.

use crate::text::{decimal, decimal_text, join2};
use vstd::prelude::*;

verus! {

/// The configuration of the hub's server.
#[derive(Debug)]
pub struct ServerConfig {
    pub p2p_port: u16,
    pub control_socket: Option<String>,
    pub publish_service: bool,
}

impl Default for ServerConfig {
    fn default() -> (r: Self)
        ensures
            r.p2p_port == 61622,
            r.control_socket is None,
            r.publish_service,
    {
        ServerConfig {
            p2p_port: Self::default_p2p_port(),
            control_socket: None,
            publish_service: Self::publish_service(),
        }
    }
}

impl ServerConfig {
    /// The port on which a hub listens unless it is told otherwise.
    pub fn default_p2p_port() -> (r: u16)
        ensures
            r == 61622,
    {
        61622
    }

    /// Whether a hub announces itself unless it is told otherwise.
    pub fn publish_service() -> (r: bool)
        ensures
            r,
    {
        true
    }

    /// The address on which the server listens: every interface, on the configured port.
    pub fn p2p_addr(&self) -> (r: (&'static str, u16))
        ensures
            r.0@ == "0.0.0.0"@,
            r.1 == self.p2p_port,
    {
        ("0.0.0.0", self.p2p_port)
    }

    pub fn port(&self) -> (r: u16)
        ensures
            r == self.p2p_port,
    {
        self.p2p_port
    }
}

/// The `server` command of the hub.
#[derive(Debug)]
pub struct ServerModule {
    active: bool,
    config_path: Option<String>,
}

impl ServerModule {
    /// Whether the command was given.
    pub closed spec fn spec_active(&self) -> bool {
        self.active
    }

    /// The configuration directory that was given with the command.
    pub closed spec fn spec_config_path(&self) -> Option<Seq<char>> {
        match self.config_path {
            Some(path) => Some(path@),
            None => None,
        }
    }

    pub fn new() -> (r: Self)
        ensures
            !r.spec_active(),
            r.spec_config_path() is None,
    {
        ServerModule { config_path: None, active: false }
    }

    pub fn is_active(&self) -> (r: bool)
        ensures
            r == self.spec_active(),
    {
        self.active
    }

    pub fn config_path(&self) -> (r: Option<&String>)
        ensures
            r is Some <==> self.spec_config_path() is Some,
            r is Some ==> Some(r->0@) == self.spec_config_path(),
    {
        self.config_path.as_ref()
    }

    /// Takes the arguments of the command line in: `config_dir` is the
    /// value of `config-dir`, if it was given, and `server` says whether the
    /// subcommand `server` was. With the subcommand the module becomes
    /// active and remembers the directory; without it nothing changes.
    pub fn args_consume(&mut self, config_dir: Option<&str>, server: bool) -> (r: bool)
        ensures
            r == server,
            !server ==> *final(self) == *old(self),
            server ==> final(self).spec_active() && final(self).spec_config_path() == (match config_dir {
                Some(dir) => Some(dir@),
                None => None,
            }),
    {
        let config_path = match config_dir {
            Some(v) => Some(String::from_str(v)),
            None => None,
        };
        if server {
            self.active = true;
            self.config_path = config_path;
            return true;
        }
        false
    }
}

/// What a hub announces of itself on the local network.
#[derive(Debug)]
pub struct ServiceAnnouncement {
    pub service_type: String,
    pub name: String,
    pub port: u16,
    pub txt: Vec<String>,
}

/// The announcement of a hub that listens on `port`, where it is to
/// announce itself at all.
pub fn run_publisher(run: bool, port: u16) -> (r: Option<ServiceAnnouncement>)
    ensures
        r is Some <==> run,
        r is Some ==> {
            &&& r->0.service_type@ == "_unlimited._tcp"@
            &&& r->0.name@ == "gu-hub"@
            &&& r->0.port == port
            &&& r->0.txt.deep_view() == seq!["path=/"@, ""@]
        },
{
    if run {
        let mut txt: Vec<String> = Vec::new();
        txt.push(String::from_str("path=/"));
        txt.push(String::from_str(""));
        assert(txt.deep_view() =~= seq!["path=/"@, ""@]);
        Some(
            ServiceAnnouncement {
                service_type: String::from_str("_unlimited._tcp"),
                name: String::from_str("gu-hub"),
                port,
                txt,
            },
        )
    } else {
        None
    }
}

/// An error of a mailbox of the `actix` crate.
#[verifier::external_type_specification]
#[verifier::external_body]
pub struct ExMailboxError(actix::MailboxError);

/// The error of a JSON payload of the `actix_web` crate.
#[verifier::external_type_specification]
#[verifier::external_body]
pub struct ExJsonPayloadError(actix_web::error::JsonPayloadError);

/// What can go wrong when the hub's own client asks the server.
#[derive(Debug)]
pub enum ClientError {
    Mailbox(actix::MailboxError),
    /// An error of the web framework, with its text.
    ActixError(String),
    /// The request could not be sent, with the reason.
    SendRequestError(String),
    Json(actix_web::error::JsonPayloadError),
    ConfigError,
}

impl From<actix::MailboxError> for ClientError {
    fn from(e: actix::MailboxError) -> (r: Self) {
        ClientError::Mailbox(e)
    }
}

impl vstd::std_specs::convert::FromSpecImpl<actix::MailboxError> for ClientError {
    open spec fn obeys_from_spec() -> bool {
        true
    }

    open spec fn from_spec(e: actix::MailboxError) -> Self {
        ClientError::Mailbox(e)
    }
}

/// The hub's own client: it asks the server on this machine.
#[derive(Clone, Copy, Debug, Default)]
pub struct ServerClient {
    inner: (),
}

/// The address of the resource `path` of the server that listens on `port` on this machine.
pub open spec fn local_url(port: u16, path: Seq<char>) -> Seq<char> {
    "http://127.0.0.1:"@ + decimal(port as nat) + path
}

impl ServerClient {
    pub fn new() -> (r: Self) {
        ServerClient { inner: () }
    }

    /// The address from which the resource `path` is fetched, as JSON,
    /// from the server that `config` describes.
    pub fn get(config: &ServerConfig, path: &str) -> (r: String)
        ensures
            r@ == local_url(config.p2p_port, path@),
    {
        let mut url = join2("http://127.0.0.1:", decimal_text(config.port()).as_str());
        url.append(path);
        url
    }
}

} // verus!
