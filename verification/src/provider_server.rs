//! The provider's server: its configuration, whether it was asked to run,
//! and what it decides about its connections to hubs.
//!
//! Hubs are named by their socket addresses, written as text.

use crate::text::copy_strings;
use crate::workspace::{strip_strings, strip_tags};
use vstd::prelude::*;

verus! {

/// How a provider finds the hubs that it connects to.
#[derive(Clone, Copy, Debug, PartialEq, Eq, Structural)]
pub enum ConnectMode {
    /// It connects to every hub that announces itself on the local network.
    Auto,
    /// It connects to the hubs that it was told of.
    Manual,
}

/// The configuration of the provider's server.
#[derive(Debug)]
pub struct ProviderConfig {
    p2p_port: u16,
    control_socket: Option<String>,
    pub hub_addrs: Vec<String>,
    publish_service: bool,
    pub connect_mode: ConnectMode,
}

impl Default for ProviderConfig {
    fn default() -> (r: Self)
        ensures
            r.spec_p2p_port() == 61621,
            r.spec_control_socket() is None,
            r.spec_hub_addrs() == Seq::<Seq<char>>::empty(),
            r.spec_publish_service(),
            r.spec_connect_mode() == ConnectMode::Manual,
    {
        let r = ProviderConfig {
            p2p_port: Self::default_p2p_port(),
            control_socket: None,
            hub_addrs: Vec::new(),
            publish_service: true,
            connect_mode: Self::default_connect_mode(),
        };
        assert(r.hub_addrs.deep_view() =~= Seq::<Seq<char>>::empty());
        r
    }
}

impl ProviderConfig {
    pub closed spec fn spec_p2p_port(&self) -> u16 {
        self.p2p_port
    }

    pub closed spec fn spec_control_socket(&self) -> Option<Seq<char>> {
        match self.control_socket {
            Some(path) => Some(path@),
            None => None,
        }
    }

    pub closed spec fn spec_hub_addrs(&self) -> Seq<Seq<char>> {
        self.hub_addrs.deep_view()
    }

    pub closed spec fn spec_publish_service(&self) -> bool {
        self.publish_service
    }

    pub closed spec fn spec_connect_mode(&self) -> ConnectMode {
        self.connect_mode
    }

    /// The configuration with every field given.
    pub fn new(
        p2p_port: u16,
        control_socket: Option<String>,
        hub_addrs: Vec<String>,
        publish_service: bool,
        connect_mode: ConnectMode,
    ) -> (r: Self)
        ensures
            r.spec_p2p_port() == p2p_port,
            r.spec_control_socket() == (match control_socket {
                Some(path) => Some(path@),
                None => None,
            }),
            r.spec_hub_addrs() == hub_addrs.deep_view(),
            r.spec_publish_service() == publish_service,
            r.spec_connect_mode() == connect_mode,
    {
        ProviderConfig { p2p_port, control_socket, hub_addrs, publish_service, connect_mode }
    }

    /// The port that the provider's own client asks: always the default
    /// port, whatever port is configured.
    pub fn port(&self) -> (r: u16)
        ensures
            r == 61621,
    {
        Self::default_p2p_port()
    }

    /// The port that is configured.
    pub fn p2p_port(&self) -> (r: u16)
        ensures
            r == self.spec_p2p_port(),
    {
        self.p2p_port
    }

    pub fn publish_service(&self) -> (r: bool)
        ensures
            r == self.spec_publish_service(),
    {
        self.publish_service
    }

    pub fn control_socket(&self) -> (r: Option<&String>)
        ensures
            r is Some <==> self.spec_control_socket() is Some,
            r is Some ==> Some(r->0@) == self.spec_control_socket(),
    {
        self.control_socket.as_ref()
    }

    /// The address on which the server listens: every interface, on the configured port.
    pub fn p2p_addr(&self) -> (r: (&'static str, u16))
        ensures
            r.0@ == "0.0.0.0"@,
            r.1 == self.spec_p2p_port(),
    {
        ("0.0.0.0", self.p2p_port)
    }

    /// The port on which a provider listens unless it is told otherwise.
    pub fn default_p2p_port() -> (r: u16)
        ensures
            r == 61621,
    {
        61621
    }

    /// How a provider finds its hubs unless it is told otherwise.
    pub fn default_connect_mode() -> (r: ConnectMode)
        ensures
            r == ConnectMode::Manual,
    {
        ConnectMode::Manual
    }
}

/// The `server` command of the provider.
#[derive(Debug)]
pub struct ServerModule {
    run: bool,
}

impl ServerModule {
    /// Whether the server was asked to run in the foreground.
    pub closed spec fn spec_run(&self) -> bool {
        self.run
    }

    pub fn new() -> (r: Self)
        ensures
            !r.spec_run(),
    {
        ServerModule { run: false }
    }

    pub fn is_running(&self) -> (r: bool)
        ensures
            r == self.spec_run(),
    {
        self.run
    }

    /// Takes the arguments of the command line in. `server` is `None`
    /// where the subcommand `server` was not given, and else holds the
    /// name of its own subcommand, if any. Only `server run` makes the
    /// server run; `server` with anything else makes it not run; without
    /// `server` nothing changes.
    pub fn args_consume(&mut self, server: Option<Option<&str>>) -> (r: bool)
        ensures
            r == final(self).spec_run(),
            final(self).spec_run() == (match server {
                None => old(self).spec_run(),
                Some(None) => false,
                Some(Some(name)) => name@ == "run"@,
            }),
    {
        match server {
            Some(m) => {
                self.run = match m {
                    Some(name) => is_run(name),
                    None => false,
                };
            },
            None => {},
        }
        self.run
    }
}

fn is_run(name: &str) -> (r: bool)
    ensures
        r == (name@ == "run"@),
{
    let given = String::from_str(name);
    let run = String::from_str("run");
    given == run
}

/// What is to be done with the announcement of the provider on the local network.
#[derive(Clone, Copy, Debug, PartialEq, Eq, Structural)]
pub enum PublisherAction {
    Start,
    Stop,
}

/// What the provider's server knows of itself once it is set up.
#[derive(Debug)]
pub struct ProviderServer {
    node_id: Option<String>,
    p2p_port: Option<u16>,
    publishing: bool,
}

/// What is to be done outside to set the provider's server up.
#[derive(Debug)]
pub struct ServerSetup {
    /// The port and the node id that the announcement carries.
    pub announce_port: u16,
    pub announce_node_id: String,
    /// Whether the announcement is started or stopped.
    pub publisher: PublisherAction,
    /// The hubs that the provider connects to at once.
    pub hub_addrs: Vec<String>,
    /// Whether the provider connects by itself to the hubs that announce themselves.
    pub auto_mdns: bool,
}

/// What is to be done when a failed attempt to listen on the control socket
/// is looked into.
#[derive(Clone, Copy, Debug, PartialEq, Eq, Structural)]
pub enum BindRetry {
    /// A socket file is in the way: remove it and try once more.
    RemoveAndRebind,
    /// Nothing is in the way: the failure stands.
    GiveUp,
}

/// What is to be done after the control socket could not be bound.
pub fn after_bind_failure(socket_file_exists: bool) -> (r: BindRetry)
    ensures
        r == (if socket_file_exists {
            BindRetry::RemoveAndRebind
        } else {
            BindRetry::GiveUp
        }),
{
    if socket_file_exists {
        BindRetry::RemoveAndRebind
    } else {
        BindRetry::GiveUp
    }
}

/// A change of the way in which the provider finds its hubs.
#[derive(Clone, Copy, Debug)]
pub struct ConnectModeMessage {
    pub mode: ConnectMode,
    /// Whether the change is written to the configuration.
    pub save: bool,
}

/// What is to be done outside for a change of the connect mode.
#[derive(Clone, Copy, Debug, PartialEq, Eq, Structural)]
pub struct ConnectModePlan {
    /// Whether the mode is written to the configuration.
    pub save: bool,
    /// Whether the provider connects by itself from now on.
    pub auto_mdns: bool,
    pub publisher: PublisherAction,
}

/// Which way a set of connections is changed.
#[derive(Clone, Copy, Debug, PartialEq, Eq, Structural)]
pub enum ConnectionChange {
    Connect,
    Disconnect,
}

/// A change of the hubs that the provider is connected to.
#[derive(Debug)]
pub struct ConnectionChangeMessage {
    pub change: ConnectionChange,
    pub hubs: Vec<String>,
    /// Whether the change is written to the configuration.
    pub save: bool,
}

/// What is to be done outside for a change of the connections.
#[derive(Debug)]
pub struct ConnectionPlan {
    /// Whether the change is written to the configuration first.
    pub save: bool,
    /// What is asked of the connect manager for each hub of `hubs`.
    pub change: ConnectionChange,
    /// The hubs to connect to or to disconnect from, in the order given.
    pub hubs: Vec<String>,
}

/// The hubs of `connected` that are not among the saved ones, in their order.
pub open spec fn unsaved_hubs(connected: Seq<Seq<char>>, saved: Seq<Seq<char>>) -> Seq<Seq<char>> {
    strip_tags(connected, saved)
}

/// Whether, after a change of the connect mode, the provider looks at the
/// hubs that it is connected to: it does where the mode is now manual and
/// either the configuration or the connect manager did change.
pub open spec fn listing_wanted(saved: bool, changed: bool, auto_on: bool) -> bool {
    (saved || changed) && !auto_on
}

impl ProviderServer {
    pub closed spec fn spec_node_id(&self) -> Option<Seq<char>> {
        match self.node_id {
            Some(id) => Some(id@),
            None => None,
        }
    }

    pub closed spec fn spec_p2p_port(&self) -> Option<u16> {
        self.p2p_port
    }

    /// Whether the provider announces itself on the local network.
    pub closed spec fn spec_publishing(&self) -> bool {
        self.publishing
    }

    /// A server that has not been set up.
    pub fn new() -> (r: Self)
        ensures
            r.spec_node_id() is None,
            r.spec_p2p_port() is None,
            !r.spec_publishing(),
    {
        ProviderServer { node_id: None, p2p_port: None, publishing: false }
    }

    pub fn node_id(&self) -> (r: Option<&String>)
        ensures
            r is Some <==> self.spec_node_id() is Some,
            r is Some ==> Some(r->0@) == self.spec_node_id(),
    {
        self.node_id.as_ref()
    }

    pub fn p2p_port(&self) -> (r: Option<u16>)
        ensures
            r == self.spec_p2p_port(),
    {
        self.p2p_port
    }

    pub fn is_publishing(&self) -> (r: bool)
        ensures
            r == self.spec_publishing(),
    {
        self.publishing
    }

    /// Starts or stops the announcement on the local network.
    pub fn publish_service(&mut self, publish: bool) -> (r: PublisherAction)
        ensures
            final(self).spec_publishing() == publish,
            final(self).spec_node_id() == old(self).spec_node_id(),
            final(self).spec_p2p_port() == old(self).spec_p2p_port(),
            r == (if publish {
                PublisherAction::Start
            } else {
                PublisherAction::Stop
            }),
    {
        self.publishing = publish;
        match publish {
            true => PublisherAction::Start,
            false => PublisherAction::Stop,
        }
    }

    /// Sets the server up with its configuration and the id of its node:
    /// the server remembers the id and the port, announces itself where
    /// the configuration says so, connects to the configured hubs, and
    /// connects by itself where the connect mode is automatic.
    pub fn init(&mut self, config: &ProviderConfig, node_id: String) -> (r: ServerSetup)
        ensures
            final(self).spec_node_id() == Some(node_id@),
            final(self).spec_p2p_port() == Some(config.spec_p2p_port()),
            final(self).spec_publishing() == config.spec_publish_service(),
            r.announce_port == config.spec_p2p_port(),
            r.announce_node_id@ == node_id@,
            r.publisher == (if config.spec_publish_service() {
                PublisherAction::Start
            } else {
                PublisherAction::Stop
            }),
            r.hub_addrs.deep_view() == config.spec_hub_addrs(),
            r.auto_mdns == (config.spec_connect_mode() == ConnectMode::Auto),
    {
        self.node_id = Some(node_id.clone());
        self.p2p_port = Some(config.p2p_port);
        let publisher = self.publish_service(config.publish_service);
        ServerSetup {
            announce_port: config.p2p_port,
            announce_node_id: node_id,
            publisher,
            hub_addrs: copy_strings(&config.hub_addrs),
            auto_mdns: match config.connect_mode {
                ConnectMode::Auto => true,
                ConnectMode::Manual => false,
            },
        }
    }

    /// Begins a change of the connect mode: the provider announces itself
    /// exactly where the new mode is automatic.
    pub fn connect_mode(&mut self, msg: ConnectModeMessage) -> (r: ConnectModePlan)
        ensures
            final(self).spec_publishing() == (msg.mode == ConnectMode::Auto),
            final(self).spec_node_id() == old(self).spec_node_id(),
            final(self).spec_p2p_port() == old(self).spec_p2p_port(),
            r == (ConnectModePlan {
                save: msg.save,
                auto_mdns: msg.mode == ConnectMode::Auto,
                publisher: if msg.mode == ConnectMode::Auto {
                    PublisherAction::Start
                } else {
                    PublisherAction::Stop
                },
            }),
    {
        let auto_on = match msg.mode {
            ConnectMode::Auto => true,
            ConnectMode::Manual => false,
        };
        let publisher = self.publish_service(auto_on);
        ConnectModePlan { save: msg.save, auto_mdns: auto_on, publisher }
    }

    /// A change of the connections: the configuration is written where
    /// the message says so, and then the connect manager is asked, hub by
    /// hub, to connect or to disconnect.
    pub fn connection_change(msg: &ConnectionChangeMessage) -> (r: ConnectionPlan)
        ensures
            r.save == msg.save,
            r.change == msg.change,
            r.hubs.deep_view() == msg.hubs.deep_view(),
    {
        ConnectionPlan { save: msg.save, change: msg.change, hubs: copy_strings(&msg.hubs) }
    }

    /// Ends a change of the connect mode. `saved` and `changed` say
    /// whether the configuration and the connect manager did change,
    /// `connected` names the hubs that the provider is connected to and
    /// `saved_hubs` those of the configuration. Where the mode is now
    /// manual and something did change, the answer names the hubs to
    /// disconnect from: every connected hub that is not a saved one.
    /// Otherwise nothing is to be done (`None`).
    pub fn connect_mode_changed(
        msg: ConnectModeMessage,
        saved: bool,
        changed: bool,
        connected: &Vec<String>,
        saved_hubs: &Vec<String>,
    ) -> (r: Option<Vec<String>>)
        ensures
            r is Some <==> listing_wanted(saved, changed, msg.mode == ConnectMode::Auto),
            r is Some ==> r->0.deep_view() == unsaved_hubs(connected.deep_view(), saved_hubs.deep_view()),
    {
        let auto_on = match msg.mode {
            ConnectMode::Auto => true,
            ConnectMode::Manual => false,
        };
        if !saved && !changed {
            None
        } else if auto_on {
            None
        } else {
            Some(strip_strings(connected, saved_hubs))
        }
    }
}

} // verus!
