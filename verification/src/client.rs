//! A client's side of a hub: which resource of the hub each operation
//! addresses, what it sends there, and what it makes of the answer.
//!
//! Nothing here performs a request. An operation yields the address (and the
//! body) of the request to make; a second function takes the body of the
//! hub's answer.

use crate::engine::{bytes_content, chunk_bytes};
use crate::text::{copy_strings, join2, utf8_text};
use vstd::prelude::*;
use vstd::utf8::{decode_utf8, valid_utf8};

verus! {

/// What can go wrong between a client and its hub.
#[derive(Clone, Copy, Debug, PartialEq, Eq, Structural)]
pub enum Error {
    InvalidHubSessionParameters,
    CannotCreateRequest,
    CannotSendRequest,
    CannotGetResponseBody,
    InvalidJSONResponse,
}

/// What a client tells the hub of a session that it wants opened.
#[derive(Debug)]
pub struct SessionInfo {
    name: String,
    environment: String,
}

impl SessionInfo {
    pub closed spec fn spec_name(&self) -> Seq<char> {
        self.name@
    }

    pub closed spec fn spec_environment(&self) -> Seq<char> {
        self.environment@
    }

    pub fn name(&self) -> (r: &String)
        ensures
            r@ == self.spec_name(),
    {
        &self.name
    }

    pub fn environment(&self) -> (r: &String)
        ensures
            r@ == self.spec_environment(),
    {
        &self.environment
    }
}

/// Collects the fields of a [`SessionInfo`]; `build` needs them all.
#[derive(Debug)]
pub struct SessionInfoBuilder {
    name: Option<String>,
    environment: Option<String>,
}

impl Default for SessionInfoBuilder {
    fn default() -> (r: Self)
        ensures
            r.spec_name() is None,
            r.spec_environment() is None,
    {
        SessionInfoBuilder { name: None, environment: None }
    }
}

impl SessionInfoBuilder {
    pub closed spec fn spec_name(&self) -> Option<Seq<char>> {
        match self.name {
            Some(name) => Some(name@),
            None => None,
        }
    }

    pub closed spec fn spec_environment(&self) -> Option<Seq<char>> {
        match self.environment {
            Some(environment) => Some(environment@),
            None => None,
        }
    }

    /// Whether every field has been given.
    pub open spec fn complete(&self) -> bool {
        self.spec_name() is Some && self.spec_environment() is Some
    }

    pub fn name(self, value: &str) -> (r: Self)
        ensures
            r.spec_name() == Some(value@),
            r.spec_environment() == self.spec_environment(),
    {
        SessionInfoBuilder { name: Some(String::from_str(value)), environment: self.environment }
    }

    pub fn environment(self, value: &str) -> (r: Self)
        ensures
            r.spec_name() == self.spec_name(),
            r.spec_environment() == Some(value@),
    {
        SessionInfoBuilder { name: self.name, environment: Some(String::from_str(value)) }
    }

    /// The session info, or the name of the first field that is missing.
    pub fn build(self) -> (r: Result<SessionInfo, String>)
        ensures
            r is Ok <==> self.complete(),
            r is Ok ==> Some(r->Ok_0.spec_name()) == self.spec_name() && Some(r->Ok_0.spec_environment())
                == self.spec_environment(),
            r is Err ==> r->Err_0@ == (if self.spec_name() is None {
                "name"@
            } else {
                "environment"@
            }),
    {
        match self.name {
            None => Err(String::from_str("name")),
            Some(name) => match self.environment {
                None => Err(String::from_str("environment")),
                Some(environment) => Ok(SessionInfo { name, environment }),
            },
        }
    }
}

/// The image of a session on a peer.
#[derive(Debug)]
pub struct PeerSessionImage {
    url: String,
    hash: String,
}

impl Default for PeerSessionImage {
    fn default() -> (r: Self)
        ensures
            r.spec_url() == Seq::<char>::empty(),
            r.spec_hash() == Seq::<char>::empty(),
    {
        PeerSessionImage { url: String::new(), hash: String::new() }
    }
}

impl PeerSessionImage {
    pub closed spec fn spec_url(&self) -> Seq<char> {
        self.url@
    }

    pub closed spec fn spec_hash(&self) -> Seq<char> {
        self.hash@
    }

    pub fn new(url: &str, hash: &str) -> (r: Self)
        ensures
            r.spec_url() == url@,
            r.spec_hash() == hash@,
    {
        PeerSessionImage { url: String::from_str(url), hash: String::from_str(hash) }
    }

    pub fn url(&self) -> (r: &String)
        ensures
            r@ == self.spec_url(),
    {
        &self.url
    }

    pub fn hash(&self) -> (r: &String)
        ensures
            r@ == self.spec_hash(),
    {
        &self.hash
    }
}

/// What a client tells a peer of a session that it wants opened there.
#[derive(Debug)]
pub struct PeerSessionInfo {
    image: PeerSessionImage,
    environment: String,
}

impl PeerSessionInfo {
    pub closed spec fn spec_image(&self) -> PeerSessionImage {
        self.image
    }

    pub closed spec fn spec_environment(&self) -> Seq<char> {
        self.environment@
    }

    pub fn image(&self) -> (r: &PeerSessionImage)
        ensures
            *r == self.spec_image(),
    {
        &self.image
    }

    pub fn environment(&self) -> (r: &String)
        ensures
            r@ == self.spec_environment(),
    {
        &self.environment
    }
}

/// Collects the fields of a [`PeerSessionInfo`]; `build` needs them all.
#[derive(Debug)]
pub struct PeerSessionInfoBuilder {
    image: Option<PeerSessionImage>,
    environment: Option<String>,
}

impl Default for PeerSessionInfoBuilder {
    fn default() -> (r: Self)
        ensures
            r.spec_image() is None,
            r.spec_environment() is None,
    {
        PeerSessionInfoBuilder { image: None, environment: None }
    }
}

impl PeerSessionInfoBuilder {
    pub closed spec fn spec_image(&self) -> Option<PeerSessionImage> {
        self.image
    }

    pub closed spec fn spec_environment(&self) -> Option<Seq<char>> {
        match self.environment {
            Some(environment) => Some(environment@),
            None => None,
        }
    }

    /// Whether every field has been given.
    pub open spec fn complete(&self) -> bool {
        self.spec_image() is Some && self.spec_environment() is Some
    }

    pub fn image(self, value: PeerSessionImage) -> (r: Self)
        ensures
            r.spec_image() == Some(value),
            r.spec_environment() == self.spec_environment(),
    {
        PeerSessionInfoBuilder { image: Some(value), environment: self.environment }
    }

    pub fn environment(self, value: &str) -> (r: Self)
        ensures
            r.spec_image() == self.spec_image(),
            r.spec_environment() == Some(value@),
    {
        PeerSessionInfoBuilder { image: self.image, environment: Some(String::from_str(value)) }
    }

    /// The session info, or the name of the first field that is missing.
    pub fn build(self) -> (r: Result<PeerSessionInfo, String>)
        ensures
            r is Ok <==> self.complete(),
            r is Ok ==> Some(r->Ok_0.spec_image()) == self.spec_image() && Some(r->Ok_0.spec_environment())
                == self.spec_environment(),
            r is Err ==> r->Err_0@ == (if self.spec_image() is None {
                "image"@
            } else {
                "environment"@
            }),
    {
        match self.image {
            None => Err(String::from_str("image")),
            Some(image) => match self.environment {
                None => Err(String::from_str("environment")),
                Some(environment) => Ok(PeerSessionInfo { image, environment }),
            },
        }
    }
}

/// A request that carries a body to the hub.
#[derive(Debug)]
pub struct HubRequest<Body> {
    /// The address to `POST` to.
    pub url: String,
    /// What is sent, as JSON.
    pub body: Body,
}

/// The text of an answer's body: its bytes decoded as UTF-8, where they are
/// well-formed. A body that is not is an error of its own.
pub open spec fn body_text(body: Seq<u8>) -> Result<Seq<char>, Error> {
    if valid_utf8(body) {
        Ok(decode_utf8(body))
    } else {
        Err(Error::CannotGetResponseBody)
    }
}

/// Reads the body of an answer as text.
pub fn read_body(body: &bytes::Bytes) -> (r: Result<String, Error>)
    ensures
        match r {
            Ok(text) => body_text(bytes_content(*body)) == Ok::<Seq<char>, Error>(text@),
            Err(e) => body_text(bytes_content(*body)) == Err::<Seq<char>, Error>(e),
        },
{
    match utf8_text(chunk_bytes(body)) {
        Some(text) => Ok(text),
        None => Err(Error::CannotGetResponseBody),
    }
}

/// Represents a connection to a single hub.
#[derive(Debug)]
pub struct Driver {
    url: String,
}

impl Driver {
    /// The address of the hub's root resource; it ends in a slash.
    pub closed spec fn spec_url(&self) -> Seq<char> {
        self.url@
    }

    /// Creates a driver from a given address:port, e.g. 127.0.0.1:61621.
    pub fn from_addr(addr: &str) -> (r: Driver)
        ensures
            r.spec_url() == "http://"@ + addr@ + "/"@,
    {
        Driver { url: crate::text::join3("http://", addr, "/") }
    }

    pub fn url(&self) -> (r: &String)
        ensures
            r@ == self.spec_url(),
    {
        &self.url
    }

    /// The request that creates a new hub session: the session info goes to
    /// the hub's `sessions` resource. An incomplete builder is refused.
    pub fn new_session(&self, session_info_builder: SessionInfoBuilder) -> (r: Result<
        HubRequest<SessionInfo>,
        Error,
    >)
        ensures
            r is Ok <==> session_info_builder.complete(),
            r is Err ==> r->Err_0 == Error::InvalidHubSessionParameters,
            r is Ok ==> {
                &&& r->Ok_0.url@ == self.spec_url() + "sessions"@
                &&& Some(r->Ok_0.body.spec_name()) == session_info_builder.spec_name()
                &&& Some(r->Ok_0.body.spec_environment()) == session_info_builder.spec_environment()
            },
    {
        match session_info_builder.build() {
            Ok(session_info) => Ok(
                HubRequest { url: join2(self.url.as_str(), "sessions"), body: session_info },
            ),
            Err(_) => Err(Error::InvalidHubSessionParameters),
        }
    }

    /// The session that the hub opened: its id is the text of the answer's body.
    pub fn session_opened(&self, body: &bytes::Bytes) -> (r: Result<HubSession, Error>)
        ensures
            match r {
                Ok(session) => {
                    &&& body_text(bytes_content(*body)) == Ok::<Seq<char>, Error>(session.spec_session_id())
                    &&& session.spec_driver().spec_url() == self.spec_url()
                },
                Err(e) => body_text(bytes_content(*body)) == Err::<Seq<char>, Error>(e),
            },
    {
        match read_body(body) {
            Ok(session_id) => Ok(HubSession { driver: Driver { url: self.url.clone() }, session_id }),
            Err(e) => Err(e),
        }
    }

    pub fn auth_app<T, U>(&self, _app_name: T, _token: Option<U>) where
        T: Into<String>,
        U: Into<String>,
     {
    }

    /// The address that lists all peers connected to the hub.
    pub fn list_peers(&self) -> (r: String)
        ensures
            r@ == self.spec_url() + "peer"@,
    {
        join2(self.url.as_str(), "peer")
    }
}

/// Represents a hub session.
#[derive(Debug)]
pub struct HubSession {
    driver: Driver,
    pub session_id: String,
}

impl HubSession {
    pub closed spec fn spec_driver(&self) -> Driver {
        self.driver
    }

    pub closed spec fn spec_session_id(&self) -> Seq<char> {
        self.session_id@
    }

    /// The address of this session on the hub.
    pub open spec fn spec_url(&self) -> Seq<char> {
        self.spec_driver().spec_url() + "sessions"@ + "/"@ + self.spec_session_id()
    }

    pub fn session_id(&self) -> (r: &String)
        ensures
            r@ == self.spec_session_id(),
    {
        &self.session_id
    }

    /// The connection to the hub that holds the session.
    pub fn driver(&self) -> (r: &Driver)
        ensures
            *r == self.spec_driver(),
    {
        &self.driver
    }

    fn url(&self) -> (r: String)
        ensures
            r@ == self.spec_url(),
    {
        let mut url = join2(self.driver.url.as_str(), "sessions");
        url.append("/");
        url.append(self.session_id.as_str());
        url
    }

    /// The request that adds peers to the session: their ids go to the
    /// session's `peer` resource.
    pub fn add_peers(&self, peers: &Vec<String>) -> (r: HubRequest<Vec<String>>)
        ensures
            r.url@ == self.spec_url() + "/peer"@,
            r.body.deep_view() == peers.deep_view(),
    {
        let mut url = self.url();
        url.append("/peer");
        HubRequest { url, body: copy_strings(peers) }
    }

    /// The address that creates a new blob in the session, with `POST`.
    pub fn new_blob(&self) -> (r: String)
        ensures
            r@ == self.spec_url() + "/blob"@,
    {
        let mut url = self.url();
        url.append("/blob");
        url
    }

    /// The blob that the hub created: its id is the text of the answer's body.
    pub fn blob_created(&self, body: &bytes::Bytes) -> (r: Result<Blob, Error>)
        ensures
            match r {
                Ok(blob) => {
                    &&& body_text(bytes_content(*body)) == Ok::<Seq<char>, Error>(blob.spec_blob_id())
                    &&& blob.spec_hub_session().spec_session_id() == self.spec_session_id()
                    &&& blob.spec_hub_session().spec_driver().spec_url() == self.spec_driver().spec_url()
                },
                Err(e) => body_text(bytes_content(*body)) == Err::<Seq<char>, Error>(e),
            },
    {
        match read_body(body) {
            Ok(blob_id) => Ok(
                Blob {
                    hub_session: HubSession {
                        driver: Driver { url: self.driver.url.clone() },
                        session_id: self.session_id.clone(),
                    },
                    blob_id,
                },
            ),
            Err(e) => Err(e),
        }
    }

    /// Gets a peer by its id.
    pub fn peer<T>(&self, _peer_id: T) where T: Into<String> {
    }
}

/// A blob of a hub session.
#[derive(Debug)]
pub struct Blob {
    hub_session: HubSession,
    blob_id: String,
}

impl Blob {
    pub closed spec fn spec_hub_session(&self) -> HubSession {
        self.hub_session
    }

    pub closed spec fn spec_blob_id(&self) -> Seq<char> {
        self.blob_id@
    }

    pub fn blob_id(&self) -> (r: &String)
        ensures
            r@ == self.spec_blob_id(),
    {
        &self.blob_id
    }

    /// The session that the blob belongs to.
    pub fn hub_session(&self) -> (r: &HubSession)
        ensures
            *r == self.spec_hub_session(),
    {
        &self.hub_session
    }

    pub fn upload(&self, _path: &std::path::Path) {
    }
}

/// A peer of a hub session.
#[derive(Clone, Copy, Debug)]
pub struct Peer {}

impl Peer {
    /// The session on the peer that the builder describes.
    pub fn new_session(&self, _builder: PeerSessionInfoBuilder) -> (r: PeerSession)
        ensures
            r == (PeerSession {  }),
    {
        PeerSession {  }
    }
}

/// A session on a peer.
#[derive(Clone, Copy, Debug, PartialEq, Eq, Structural)]
pub struct PeerSession {}

} // verus!
