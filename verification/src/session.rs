//! What a backend reports of a session.

use vstd::prelude::*;

verus! {

/// Lifecycle state of a session.
#[derive(Clone, Copy, Debug, PartialEq, Eq, Structural)]
pub enum SessionStatus {
    /// The execution unit exists and has not been started.
    Created,
    /// The execution unit is running.
    Running,
    /// The execution unit was stopped.
    Stopped,
    /// The backend gave the session up.
    Error,
}

/// A snapshot of one session, made for a listing.
#[derive(Debug)]
pub struct SessionInfo {
    pub id: String,
    pub name: String,
    pub status: SessionStatus,
    pub tags: Vec<String>,
    pub note: Option<String>,
    /// The ids of the child processes that run in the session.
    pub processes: Vec<String>,
}

/// The mathematical content of a [`SessionInfo`].
pub struct SessionInfoView {
    pub id: Seq<char>,
    pub name: Seq<char>,
    pub status: SessionStatus,
    pub tags: Seq<Seq<char>>,
    pub note: Option<Seq<char>>,
    pub processes: Seq<Seq<char>>,
}

impl View for SessionInfo {
    type V = SessionInfoView;

    open spec fn view(&self) -> SessionInfoView {
        SessionInfoView {
            id: self.id@,
            name: self.name@,
            status: self.status,
            tags: self.tags.deep_view(),
            note: match self.note {
                Some(note) => Some(note@),
                None => None,
            },
            processes: self.processes.deep_view(),
        }
    }
}

/// The views of a list of snapshots, in order.
pub open spec fn info_views(infos: Seq<SessionInfo>) -> Seq<SessionInfoView> {
    Seq::new(infos.len(), |i: int| infos[i]@)
}

} // verus!
