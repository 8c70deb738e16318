//! Options of the container backend: where volumes of the host appear inside a session.

use vstd::prelude::*;

verus! {

/// A directory of the host made visible inside a session.
#[derive(Debug, Eq, Hash)]
pub enum VolumeDef {
    /// Bound for reading and writing: `src` on the host appears as `target` in the session.
    BindRw { src: String, target: String },
}

/// The mathematical content of a [`VolumeDef`].
pub enum VolumeDefView {
    BindRw { src: Seq<char>, target: Seq<char> },
}

impl View for VolumeDef {
    type V = VolumeDefView;

    open spec fn view(&self) -> VolumeDefView {
        match self {
            VolumeDef::BindRw { src, target } => VolumeDefView::BindRw { src: src@, target: target@ },
        }
    }
}

impl PartialEq for VolumeDef {
    fn eq(&self, other: &VolumeDef) -> (r: bool) {
        match (self, other) {
            (
                VolumeDef::BindRw { src, target },
                VolumeDef::BindRw { src: other_src, target: other_target },
            ) => *src == *other_src && *target == *other_target,
        }
    }
}

impl vstd::std_specs::cmp::PartialEqSpecImpl for VolumeDef {
    open spec fn obeys_eq_spec() -> bool {
        true
    }

    open spec fn eq_spec(&self, other: &VolumeDef) -> bool {
        self@ == other@
    }
}

impl VolumeDef {
    /// The directory on the host, for the kinds of volume that have one.
    pub fn source_dir(&self) -> (r: Option<&String>)
        ensures
            r is Some,
            self@ matches VolumeDefView::BindRw { src, .. } && r->0@ == src,
    {
        match self {
            VolumeDef::BindRw { src, target: _ } => Some(src),
        }
    }

    /// The directory inside the session, for the kinds of volume that have one.
    pub fn target_dir(&self) -> (r: Option<&String>)
        ensures
            r is Some,
            self@ matches VolumeDefView::BindRw { target, .. } && r->0@ == target,
    {
        match self {
            VolumeDef::BindRw { src: _, target } => Some(target),
        }
    }

    /// A copy of this volume.
    pub fn duplicate(&self) -> (r: VolumeDef)
        ensures
            r@ == self@,
    {
        match self {
            VolumeDef::BindRw { src, target } => VolumeDef::BindRw {
                src: src.clone(),
                target: target.clone(),
            },
        }
    }
}

/// The views of a list of volumes, in order.
pub open spec fn volume_views(volumes: Seq<VolumeDef>) -> Seq<VolumeDefView> {
    Seq::new(volumes.len(), |i: int| volumes[i]@)
}

/// What a caller may ask of a new container session.
#[derive(Debug)]
pub struct CreateOptions {
    pub volumes: Vec<VolumeDef>,
    pub cmd: Option<Vec<String>>,
}

impl Default for CreateOptions {
    fn default() -> (r: Self)
        ensures
            r.volumes@.len() == 0,
            r.cmd is None,
    {
        CreateOptions { volumes: Vec::new(), cmd: None }
    }
}

} // verus!
