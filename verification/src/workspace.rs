//! The resources that one session owns on disk: its directory, the volumes
//! bound into it and its tags.

use crate::envman::Error;
use crate::model::{volume_views, VolumeDef, VolumeDefView};
use crate::text::{copy_strings, has_string, join3};
use vstd::prelude::*;

verus! {

/// `current` followed by the items of `added` that it lacks, each once, in
/// the order in which they first occur.
pub open spec fn merge_tags(current: Seq<Seq<char>>, added: Seq<Seq<char>>) -> Seq<Seq<char>>
    decreases added.len(),
{
    if added.len() == 0 {
        current
    } else {
        let merged = merge_tags(current, added.drop_last());
        if merged.contains(added.last()) {
            merged
        } else {
            merged.push(added.last())
        }
    }
}

/// The items of `current` that do not occur in `removed`, in their order.
pub open spec fn strip_tags(current: Seq<Seq<char>>, removed: Seq<Seq<char>>) -> Seq<Seq<char>>
    decreases current.len(),
{
    if current.len() == 0 {
        Seq::empty()
    } else {
        let kept = strip_tags(current.drop_last(), removed);
        if removed.contains(current.last()) {
            kept
        } else {
            kept.push(current.last())
        }
    }
}

/// Merging is a union: the result holds exactly what either list holds, and
/// repeats nothing where `current` repeats nothing.
pub proof fn lemma_merge_tags(current: Seq<Seq<char>>, added: Seq<Seq<char>>)
    ensures
        forall|t: Seq<char>| #[trigger]
            merge_tags(current, added).contains(t) <==> current.contains(t) || added.contains(t),
        current.no_duplicates() ==> merge_tags(current, added).no_duplicates(),
        merge_tags(current, added).len() >= current.len(),
        merge_tags(current, added).take(current.len() as int) == current,
    decreases added.len(),
{
    if added.len() == 0 {
        assert(merge_tags(current, added).take(current.len() as int) =~= current);
    } else {
        let front = added.drop_last();
        let merged = merge_tags(current, front);
        lemma_merge_tags(current, front);
        let result = merge_tags(current, added);
        assert forall|t: Seq<char>| #[trigger] result.contains(t) <==> current.contains(t) || added.contains(t) by {
            if added.contains(t) {
                let i = added.index_of(t);
                if i < front.len() {
                    assert(front[i] == t);
                }
            }
            if front.contains(t) {
                let i = front.index_of(t);
                assert(added[i] == t);
            }
            if merged.contains(t) {
                let i = merged.index_of(t);
                assert(result[i] == t);
            }
            if result.contains(t) && !merged.contains(t) {
                let i = result.index_of(t);
                if i < merged.len() {
                    assert(merged[i] == t);
                }
                assert(t == added.last());
                assert(added[added.len() - 1] == t);
            }
            if !merged.contains(added.last()) {
                assert(result[merged.len() as int] == added.last());
            }
        }
        if current.no_duplicates() && !merged.contains(added.last()) {
            assert forall|i: int, j: int| 0 <= i < result.len() && 0 <= j < result.len() && i != j implies result[i] != result[j] by {
                if i < merged.len() {
                    assert(merged.contains(result[i]));
                }
                if j < merged.len() {
                    assert(merged.contains(result[j]));
                }
            }
        }
        assert(result.take(current.len() as int) =~= merged.take(current.len() as int));
    }
}

/// Stripping is a difference: the result holds exactly what `current` holds
/// and `removed` does not, and repeats nothing where `current` repeats nothing.
pub proof fn lemma_strip_tags(current: Seq<Seq<char>>, removed: Seq<Seq<char>>)
    ensures
        forall|t: Seq<char>| #[trigger]
            strip_tags(current, removed).contains(t) <==> current.contains(t) && !removed.contains(t),
        current.no_duplicates() ==> strip_tags(current, removed).no_duplicates(),
        strip_tags(current, removed).len() <= current.len(),
    decreases current.len(),
{
    if current.len() > 0 {
        let front = current.drop_last();
        let kept = strip_tags(front, removed);
        lemma_strip_tags(front, removed);
        let result = strip_tags(current, removed);
        assert forall|t: Seq<char>| #[trigger] result.contains(t) <==> current.contains(t) && !removed.contains(t) by {
            if current.contains(t) {
                let i = current.index_of(t);
                if i < front.len() {
                    assert(front[i] == t);
                }
            }
            if front.contains(t) {
                let i = front.index_of(t);
                assert(current[i] == t);
            }
            if kept.contains(t) {
                let i = kept.index_of(t);
                assert(result[i] == t);
            }
            if result.contains(t) && !kept.contains(t) {
                let i = result.index_of(t);
                if i < kept.len() {
                    assert(kept[i] == t);
                }
                assert(t == current.last());
            }
            if !removed.contains(current.last()) {
                assert(result[kept.len() as int] == current.last());
                assert(current[current.len() - 1] == current.last());
            }
        }
        if current.no_duplicates() {
            assert forall|i: int, j: int| 0 <= i < front.len() && 0 <= j < front.len() && i != j implies front[i] != front[j] by {
                assert(front[i] == current[i]);
                assert(front[j] == current[j]);
            }
            if !removed.contains(current.last()) {
                assert forall|i: int, j: int| 0 <= i < result.len() && 0 <= j < result.len() && i != j implies result[i] != result[j] by {
                    if i < kept.len() {
                        assert(kept.contains(result[i]));
                        let k = front.index_of(result[i]);
                        assert(current[k] == result[i]);
                    }
                    if j < kept.len() {
                        assert(kept.contains(result[j]));
                        let k = front.index_of(result[j]);
                        assert(current[k] == result[j]);
                    }
                }
            }
        }
    }
}

/// Merging tags that are all present already changes nothing.
pub proof fn lemma_merge_present(current: Seq<Seq<char>>, added: Seq<Seq<char>>)
    requires
        forall|i: int| 0 <= i < added.len() ==> current.contains(#[trigger] added[i]),
    ensures
        merge_tags(current, added) == current,
    decreases added.len(),
{
    if added.len() > 0 {
        let front = added.drop_last();
        assert forall|i: int| 0 <= i < front.len() implies current.contains(#[trigger] front[i]) by {
            assert(front[i] == added[i]);
        }
        lemma_merge_present(current, front);
        assert(current.contains(added[added.len() - 1]));
    }
}

/// Adding the same tags a second time changes nothing.
pub proof fn law_add_tags_idempotent(current: Seq<Seq<char>>, tags: Seq<Seq<char>>)
    ensures
        merge_tags(merge_tags(current, tags), tags) == merge_tags(current, tags),
{
    let once = merge_tags(current, tags);
    lemma_merge_tags(current, tags);
    assert forall|i: int| 0 <= i < tags.len() implies once.contains(#[trigger] tags[i]) by {
        assert(tags.contains(tags[i]));
    }
    lemma_merge_present(once, tags);
}

/// Removing tags that were just added leaves none of them: what remains has
/// nothing in common with the tags named.
pub proof fn law_remove_after_add(current: Seq<Seq<char>>, tags: Seq<Seq<char>>)
    ensures
        forall|t: Seq<char>| tags.contains(t) ==> !(#[trigger] strip_tags(merge_tags(current, tags), tags).contains(t)),
        strip_tags(merge_tags(current, tags), tags).to_set().intersect(tags.to_set()) == Set::<Seq<char>>::empty(),
{
    let left = strip_tags(merge_tags(current, tags), tags);
    lemma_strip_tags(merge_tags(current, tags), tags);
    assert(left.to_set().intersect(tags.to_set()) =~= Set::<Seq<char>>::empty());
}

/// The strings of `current` that do not occur in `removed`, in their order.
pub fn strip_strings(current: &Vec<String>, removed: &Vec<String>) -> (r: Vec<String>)
    ensures
        r.deep_view() == strip_tags(current.deep_view(), removed.deep_view()),
{
    let ghost all = current.deep_view();
    let mut kept: Vec<String> = Vec::new();
    let mut i: usize = 0;
    assert(all.take(0) =~= Seq::<Seq<char>>::empty());
    assert(kept.deep_view() =~= Seq::<Seq<char>>::empty());
    while i < current.len()
        invariant
            i <= current@.len(),
            all == current.deep_view(),
            kept.deep_view() == strip_tags(all.take(i as int), removed.deep_view()),
        decreases current@.len() - i,
    {
        assert(all.take(i + 1).drop_last() =~= all.take(i as int));
        assert(all.take(i + 1).last() == current@[i as int]@);
        if !has_string(removed, &current[i]) {
            let ghost before = kept.deep_view();
            kept.push(current[i].clone());
            assert(kept.deep_view() =~= before.push(current@[i as int]@));
        }
        i += 1;
    }
    assert(all.take(i as int) =~= all);
    kept
}

/// The resources that one session owns on disk.
pub struct Workspace {
    name: String,
    path: String,
    volumes: Vec<VolumeDef>,
    tags: Vec<String>,
}

/// The mathematical content of a [`Workspace`].
pub struct WorkspaceView {
    pub name: Seq<char>,
    pub path: Seq<char>,
    pub volumes: Seq<VolumeDefView>,
    pub tags: Seq<Seq<char>>,
}

impl WorkspaceView {
    /// No volume and no tag is recorded twice.
    pub open spec fn wf(self) -> bool {
        &&& self.volumes.no_duplicates()
        &&& self.tags.no_duplicates()
    }

    /// The workspace with `volume` recorded, once.
    pub open spec fn add_volume(self, volume: VolumeDefView) -> Self {
        if self.volumes.contains(volume) {
            self
        } else {
            WorkspaceView { volumes: self.volumes.push(volume), ..self }
        }
    }

    /// The workspace with `tags` joined to its tags.
    pub open spec fn add_tags(self, tags: Seq<Seq<char>>) -> Self {
        WorkspaceView { tags: merge_tags(self.tags, tags), ..self }
    }

    /// The workspace without the tags named in `tags`.
    pub open spec fn remove_tags(self, tags: Seq<Seq<char>>) -> Self {
        WorkspaceView { tags: strip_tags(self.tags, tags), ..self }
    }
}

impl View for Workspace {
    type V = WorkspaceView;

    closed spec fn view(&self) -> WorkspaceView {
        WorkspaceView {
            name: self.name@,
            path: self.path@,
            volumes: volume_views(self.volumes@),
            tags: self.tags.deep_view(),
        }
    }
}

/// What became of the removal of a directory.
#[derive(Debug)]
pub enum DirRemoval {
    /// The directory and what was in it are gone.
    Removed,
    /// There was no such directory.
    Absent,
    /// The removal failed, with the reason.
    Failed(String),
}

impl Workspace {
    pub open spec fn wf(&self) -> bool {
        self@.wf()
    }

    /// A workspace rooted at `path`, with no volume and no tag.
    pub fn new(name: String, path: String) -> (r: Self)
        ensures
            r.wf(),
            r@ == (WorkspaceView { name: name@, path: path@, volumes: Seq::empty(), tags: Seq::empty() }),
    {
        let r = Workspace { name, path, volumes: Vec::new(), tags: Vec::new() };
        assert(r@.volumes =~= Seq::empty());
        assert(r@.tags =~= Seq::empty());
        r
    }

    pub fn name(&self) -> (r: &String)
        ensures
            r@ == self@.name,
    {
        &self.name
    }

    /// The root directory: it is created with the session and removed with it.
    pub fn path(&self) -> (r: &String)
        ensures
            r@ == self@.path,
    {
        &self.path
    }

    /// The tags, in the order in which they were added.
    pub fn tags(&self) -> (r: Vec<String>)
        ensures
            r.deep_view() == self@.tags,
    {
        copy_strings(&self.tags)
    }

    /// The volumes, in the order in which they were recorded.
    pub fn volumes(&self) -> (r: &Vec<VolumeDef>)
        ensures
            volume_views(r@) == self@.volumes,
    {
        &self.volumes
    }

    fn has_volume(&self, volume: &VolumeDef) -> (r: bool)
        ensures
            r == self@.volumes.contains(volume@),
    {
        let mut i: usize = 0;
        while i < self.volumes.len()
            invariant
                i <= self.volumes@.len(),
                forall|j: int| 0 <= j < i ==> self.volumes@[j]@ != volume@,
            decreases self.volumes@.len() - i,
        {
            if self.volumes[i] == *volume {
                assert(self@.volumes[i as int] == volume@);
                return true;
            }
            i += 1;
        }
        assert(forall|j: int| 0 <= j < self@.volumes.len() ==> self@.volumes[j] == self.volumes@[j]@);
        false
    }

    /// Records a volume of the session.
    pub fn add_volume(&mut self, volume: VolumeDef)
        requires
            old(self).wf(),
        ensures
            final(self).wf(),
            final(self)@ == old(self)@.add_volume(volume@),
    {
        if !self.has_volume(&volume) {
            self.volumes.push(volume);
            assert(self@.volumes =~= old(self)@.volumes.push(volume@));
            assert forall|i: int, j: int| 0 <= i < self@.volumes.len() && 0 <= j < self@.volumes.len() && i != j implies self@.volumes[i] != self@.volumes[j] by {
                if i < old(self)@.volumes.len() {
                    assert(old(self)@.volumes.contains(self@.volumes[i]));
                }
                if j < old(self)@.volumes.len() {
                    assert(old(self)@.volumes.contains(self@.volumes[j]));
                }
            }
        }
    }

    /// Joins `tags` to the tags of the session.
    pub fn add_tags(&mut self, tags: Vec<String>)
        requires
            old(self).wf(),
        ensures
            final(self).wf(),
            final(self)@ == old(self)@.add_tags(tags.deep_view()),
    {
        let ghost added = tags.deep_view();
        let mut i: usize = 0;
        assert(added.take(0) =~= Seq::<Seq<char>>::empty());
        while i < tags.len()
            invariant
                i <= tags@.len(),
                added == tags.deep_view(),
                self.tags.deep_view() == merge_tags(old(self)@.tags, added.take(i as int)),
                self.name == old(self).name,
                self.path == old(self).path,
                self.volumes == old(self).volumes,
            decreases tags@.len() - i,
        {
            assert(added.take(i + 1).drop_last() =~= added.take(i as int));
            assert(added.take(i + 1).last() == tags@[i as int]@);
            if !has_string(&self.tags, &tags[i]) {
                let ghost before = self.tags.deep_view();
                self.tags.push(tags[i].clone());
                assert(self.tags.deep_view() =~= before.push(tags@[i as int]@));
            }
            i += 1;
        }
        proof {
            assert(added.take(i as int) =~= added);
            lemma_merge_tags(old(self)@.tags, added);
        }
    }

    /// Takes the tags named in `tags` away from the session.
    pub fn remove_tags(&mut self, tags: Vec<String>)
        requires
            old(self).wf(),
        ensures
            final(self).wf(),
            final(self)@ == old(self)@.remove_tags(tags.deep_view()),
    {
        proof {
            lemma_strip_tags(self.tags.deep_view(), tags.deep_view());
        }
        self.tags = strip_strings(&self.tags, &tags);
    }

    /// What the session's creation learns from the attempt to create the
    /// root directory and its parents: a failure is reported as an I/O error.
    pub fn created(&self, outcome: Result<(), String>) -> (r: Result<(), Error>)
        ensures
            r is Ok <==> outcome is Ok,
            outcome matches Err(reason) ==> r->Err_0@ == crate::envman::ErrorView::IoError(reason@),
    {
        match outcome {
            Ok(()) => Ok(()),
            Err(reason) => Err(Error::IoError(reason)),
        }
    }

    /// What the session's teardown learns from the removal of the root
    /// directory: a directory that was absent already is no failure.
    pub fn destroyed(&self, outcome: DirRemoval) -> (r: Result<(), Error>)
        ensures
            r is Ok <==> !(outcome is Failed),
            outcome matches DirRemoval::Failed(reason) ==> r->Err_0@ == crate::envman::ErrorView::IoError(reason@),
    {
        match outcome {
            DirRemoval::Removed => Ok(()),
            DirRemoval::Absent => Ok(()),
            DirRemoval::Failed(reason) => Err(Error::IoError(reason)),
        }
    }
}

/// Hands out the workspaces of one backend, below the backend's own
/// directory in the provider's working area.
pub struct WorkspacesManager {
    work_dir: String,
    namespace: String,
}

impl WorkspacesManager {
    pub closed spec fn work_dir(&self) -> Seq<char> {
        self.work_dir@
    }

    pub closed spec fn namespace(&self) -> Seq<char> {
        self.namespace@
    }

    /// The root directory of the workspace that is kept in `dir_name`.
    pub open spec fn path_of(&self, dir_name: Seq<char>) -> Seq<char> {
        self.work_dir() + "/"@ + self.namespace() + "/"@ + dir_name
    }

    /// The manager of the backend `namespace` in the working area `work_dir`.
    pub fn new(work_dir: &str, namespace: &str) -> (r: Self)
        ensures
            r.work_dir() == work_dir@,
            r.namespace() == namespace@,
    {
        WorkspacesManager {
            work_dir: String::from_str(work_dir),
            namespace: String::from_str(namespace),
        }
    }

    /// A fresh workspace, named after the backend and kept in `dir_name`.
    pub fn workspace(&self, dir_name: &str) -> (r: Workspace)
        ensures
            r.wf(),
            r@ == (WorkspaceView {
                name: self.namespace(),
                path: self.path_of(dir_name@),
                volumes: Seq::empty(),
                tags: Seq::empty(),
            }),
    {
        let mut path = join3(self.work_dir.as_str(), "/", self.namespace.as_str());
        path.append("/");
        path.append(dir_name);
        Workspace::new(self.namespace.clone(), path)
    }
}

} // verus!
