//! What the container backend asks of the container engine, as plain
//! values, and what the engine answers.
//!
//! The backend never talks to the engine itself: it hands out an
//! [`EngineRequest`], and whoever drives it performs the call and comes back
//! with an [`EngineReply`].

use crate::envman::ResourceFormat;
use crate::text::{decimal, utf8_text};
use vstd::prelude::*;
use vstd::utf8::{decode_utf8, valid_utf8};

verus! {

/// A chunk of bytes as the engine's output stream delivers it.
#[verifier::external_type_specification]
#[verifier::external_body]
pub struct ExBytes(bytes::Bytes);

/// The bytes that a chunk holds.
pub uninterp spec fn bytes_content(chunk: bytes::Bytes) -> Seq<u8>;

/// The bytes of a chunk, through `AsRef<[u8]>` of `bytes::Bytes`.
///
/// Trusted: the slice is the whole content of the chunk.
#[verifier::external_body]
pub(crate) fn chunk_bytes(chunk: &bytes::Bytes) -> (r: &[u8])
    ensures
        r@ == bytes_content(*chunk),
{
    chunk.as_ref()
}

/// The contents of a list of chunks, in order.
pub open spec fn chunk_contents(chunks: Seq<bytes::Bytes>) -> Seq<Seq<u8>> {
    Seq::new(chunks.len(), |i: int| bytes_content(chunks[i]))
}

/// The text of an output stream: the chunks that are well-formed UTF-8,
/// decoded and joined in order; a chunk that is not is left out.
pub open spec fn decoded_output(chunks: Seq<Seq<u8>>) -> Seq<char>
    decreases chunks.len(),
{
    if chunks.len() == 0 {
        Seq::empty()
    } else if valid_utf8(chunks.last()) {
        decoded_output(chunks.drop_last()) + decode_utf8(chunks.last())
    } else {
        decoded_output(chunks.drop_last())
    }
}

/// Collects the text of an output stream.
pub fn decode_output(chunks: &Vec<bytes::Bytes>) -> (r: String)
    ensures
        r@ == decoded_output(chunk_contents(chunks@)),
{
    let ghost contents = chunk_contents(chunks@);
    let mut text = String::new();
    let mut i: usize = 0;
    assert(contents.take(0) =~= Seq::<Seq<u8>>::empty());
    while i < chunks.len()
        invariant
            i <= chunks@.len(),
            contents == chunk_contents(chunks@),
            text@ == decoded_output(contents.take(i as int)),
        decreases chunks@.len() - i,
    {
        assert(contents.take(i + 1).drop_last() =~= contents.take(i as int));
        assert(contents.take(i + 1).last() == bytes_content(chunks@[i as int]));
        match utf8_text(chunk_bytes(&chunks[i])) {
            Some(piece) => {
                text.append(piece.as_str());
            },
            None => {},
        }
        i += 1;
    }
    assert(contents.take(i as int) =~= contents);
    text
}

/// The reason phrase that `actix_web::http::StatusCode::canonical_reason`
/// knows for a code, and `<unknown status code>` for a code without one.
pub uninterp spec fn reason_phrase(code: u16) -> Seq<char>;

/// The status line of a code: the number, a space, and the reason phrase.
pub open spec fn status_text(code: u16) -> Seq<char> {
    decimal(code as nat) + " "@ + reason_phrase(code)
}

/// Whether `actix_web::http::StatusCode` counts the code as a success.
///
/// Trusted: `StatusCode::from_u16` accepts every code from 100 to 999, and
/// `StatusCode::is_success` holds exactly of the codes from 200 to 299.
#[verifier::external_body]
fn status_is_success(code: u16) -> (r: bool)
    requires
        100 <= code < 1000,
    ensures
        r == (200 <= code < 300),
{
    match actix_web::http::StatusCode::from_u16(code) {
        Ok(status) => status.is_success(),
        Err(_) => false,
    }
}

/// The status line of a code, as `Display` of `actix_web::http::StatusCode`
/// prints it.
///
/// Trusted: `StatusCode::from_u16` accepts every code from 100 to 999, and
/// the line is the decimal numeral of the code, a space, and the reason
/// phrase of the code, which is named [`reason_phrase`].
#[verifier::external_body]
fn status_display(code: u16) -> (r: String)
    requires
        100 <= code < 1000,
    ensures
        r@ == decimal(code as nat) + " "@ + reason_phrase(code),
{
    match actix_web::http::StatusCode::from_u16(code) {
        Ok(status) => status.to_string(),
        Err(_) => String::new(),
    }
}

/// The status code of an HTTP response: a number from 100 to 999.
#[derive(Clone, Copy, Debug)]
pub struct HttpStatus {
    code: u16,
}

impl HttpStatus {
    #[verifier::type_invariant]
    spec fn in_range(self) -> bool {
        100 <= self.code < 1000
    }

    pub closed spec fn code(self) -> u16 {
        self.code
    }

    /// The status with the given code, where the code is one.
    pub fn new(code: u16) -> (r: Option<HttpStatus>)
        ensures
            r is Some <==> 100 <= code < 1000,
            r is Some ==> r->0.code() == code,
    {
        if 100 <= code && code < 1000 {
            Some(HttpStatus { code })
        } else {
            None
        }
    }

    pub fn as_u16(&self) -> (r: u16)
        ensures
            r == self.code(),
            100 <= r < 1000,
    {
        proof {
            use_type_invariant(self);
        }
        self.code
    }

    /// Whether the code is one of 200 to 299.
    pub fn is_success(&self) -> (r: bool)
        ensures
            r == (200 <= self.code() < 300),
    {
        proof {
            use_type_invariant(self);
        }
        status_is_success(self.code)
    }

    /// The status line: the code and its reason phrase.
    pub fn to_string(&self) -> (r: String)
        ensures
            r@ == status_text(self.code()),
    {
        proof {
            use_type_invariant(self);
        }
        status_display(self.code)
    }
}

/// How a process is run inside a container.
#[derive(Debug)]
pub struct ExecConfig {
    pub attach_stdout: bool,
    pub attach_stderr: bool,
    /// The executable, followed by its arguments.
    pub cmd: Vec<String>,
}

/// A call that the backend wants made against the engine, for one command
/// of a session.
#[derive(Debug)]
pub enum EngineRequest {
    /// Start the container.
    Start { container: String },
    /// Stop the container.
    Stop { container: String },
    /// Run a process in the container and collect what it prints.
    Exec { container: String, config: ExecConfig },
    /// Fetch `uri` and stream it into the container at `remote_path`,
    /// without holding the whole payload in memory.
    ArchivePut { container: String, uri: String, remote_path: String, format: ResourceFormat },
    /// Stream `file_path` out of the container as a tar archive and send it
    /// to `uri` with an HTTP PUT; where `untar_single_file` is set, the
    /// first file of the archive is unpacked and its bytes are sent instead.
    ArchiveGet { container: String, file_path: String, uri: String, untar_single_file: bool },
}

/// The mathematical content of an [`EngineRequest`].
pub enum EngineRequestView {
    Start { container: Seq<char> },
    Stop { container: Seq<char> },
    Exec { container: Seq<char>, attach_stdout: bool, attach_stderr: bool, cmd: Seq<Seq<char>> },
    ArchivePut { container: Seq<char>, uri: Seq<char>, remote_path: Seq<char>, format: ResourceFormat },
    ArchiveGet { container: Seq<char>, file_path: Seq<char>, uri: Seq<char>, untar_single_file: bool },
}

impl View for EngineRequest {
    type V = EngineRequestView;

    open spec fn view(&self) -> EngineRequestView {
        match self {
            EngineRequest::Start { container } => EngineRequestView::Start { container: container@ },
            EngineRequest::Stop { container } => EngineRequestView::Stop { container: container@ },
            EngineRequest::Exec { container, config } => EngineRequestView::Exec {
                container: container@,
                attach_stdout: config.attach_stdout,
                attach_stderr: config.attach_stderr,
                cmd: config.cmd.deep_view(),
            },
            EngineRequest::ArchivePut { container, uri, remote_path, format } => EngineRequestView::ArchivePut {
                container: container@,
                uri: uri@,
                remote_path: remote_path@,
                format: *format,
            },
            EngineRequest::ArchiveGet { container, file_path, uri, untar_single_file } => EngineRequestView::ArchiveGet {
                container: container@,
                file_path: file_path@,
                uri: uri@,
                untar_single_file: *untar_single_file,
            },
        }
    }
}

/// What came of a call against the engine.
#[derive(Debug)]
pub enum EngineReply {
    /// The call succeeded and has nothing to report.
    Done,
    /// The process ran; these are the chunks of its output, in order.
    Output(Vec<bytes::Bytes>),
    /// The upload was sent; this is the status that the destination answered.
    Response(HttpStatus),
    /// The call failed, with the engine's or the transfer's message.
    Failed(String),
}

/// The mathematical content of an [`EngineReply`].
pub enum EngineReplyView {
    Done,
    Output(Seq<Seq<u8>>),
    Response(u16),
    Failed(Seq<char>),
}

impl View for EngineReply {
    type V = EngineReplyView;

    open spec fn view(&self) -> EngineReplyView {
        match self {
            EngineReply::Done => EngineReplyView::Done,
            EngineReply::Output(chunks) => EngineReplyView::Output(chunk_contents(chunks@)),
            EngineReply::Response(status) => EngineReplyView::Response(status.code()),
            EngineReply::Failed(message) => EngineReplyView::Failed(message@),
        }
    }
}

/// Whether `reply` is an answer that the call `request` can have: a failure
/// always is; a success must be of the call's kind.
pub open spec fn answers(request: EngineRequestView, reply: EngineReplyView) -> bool {
    match reply {
        EngineReplyView::Failed(_) => true,
        EngineReplyView::Done => request is Start || request is Stop || request is ArchivePut,
        EngineReplyView::Output(_) => request is Exec,
        EngineReplyView::Response(_) => request is ArchiveGet,
    }
}

impl ExecConfig {
    /// A copy of this configuration.
    pub fn duplicate(&self) -> (r: ExecConfig)
        ensures
            r.attach_stdout == self.attach_stdout,
            r.attach_stderr == self.attach_stderr,
            r.cmd.deep_view() == self.cmd.deep_view(),
    {
        ExecConfig {
            attach_stdout: self.attach_stdout,
            attach_stderr: self.attach_stderr,
            cmd: crate::text::copy_strings(&self.cmd),
        }
    }
}

impl EngineRequest {
    /// A copy of this request.
    pub fn duplicate(&self) -> (r: EngineRequest)
        ensures
            r@ == self@,
    {
        match self {
            EngineRequest::Start { container } => EngineRequest::Start { container: container.clone() },
            EngineRequest::Stop { container } => EngineRequest::Stop { container: container.clone() },
            EngineRequest::Exec { container, config } => EngineRequest::Exec {
                container: container.clone(),
                config: config.duplicate(),
            },
            EngineRequest::ArchivePut { container, uri, remote_path, format } => EngineRequest::ArchivePut {
                container: container.clone(),
                uri: uri.clone(),
                remote_path: remote_path.clone(),
                format: *format,
            },
            EngineRequest::ArchiveGet { container, file_path, uri, untar_single_file } => EngineRequest::ArchiveGet {
                container: container.clone(),
                file_path: file_path.clone(),
                uri: uri.clone(),
                untar_single_file: *untar_single_file,
            },
        }
    }

    /// Whether `reply` is an answer that this call can have.
    pub fn accepts(&self, reply: &EngineReply) -> (r: bool)
        ensures
            r == answers(self@, reply@),
    {
        match reply {
            EngineReply::Failed(_) => true,
            EngineReply::Done => match self {
                EngineRequest::Start { .. } => true,
                EngineRequest::Stop { .. } => true,
                EngineRequest::ArchivePut { .. } => true,
                _ => false,
            },
            EngineReply::Output(_) => match self {
                EngineRequest::Exec { .. } => true,
                _ => false,
            },
            EngineReply::Response(_) => match self {
                EngineRequest::ArchiveGet { .. } => true,
                _ => false,
            },
        }
    }
}

} // verus!
