//! The registry of the sessions that one backend keeps alive.

use crate::envman::{Error, ErrorView};
use crate::session::{SessionInfo, SessionInfoView};
use crate::table::{Table, TableModel};
use vstd::prelude::*;

verus! {

/// A session that can describe itself for a listing.
pub trait IntoDeployInfo {
    /// What the session reports of itself under the id `id`. A kind of
    /// session that does not say what it reports leaves this open.
    open spec fn info(&self, id: Seq<char>) -> SessionInfoView {
        arbitrary()
    }

    fn convert(&self, id: &String) -> (r: SessionInfo)
        ensures
            r@ == self.info(id@),
    ;
}

/// What a lookup of `id` in the registry `deploys` yields: the session, or
/// the error that names the id.
pub open spec fn lookup<T>(deploys: TableModel<T>, id: Seq<char>) -> Result<T, ErrorView> {
    if deploys.contains(id) {
        Ok(deploys.get(id))
    } else {
        Err(ErrorView::NoSuchSession(id))
    }
}

/// A session that was inserted and then removed is gone: the registry does
/// not contain its id, and a lookup of the id fails with `NoSuchSession`.
/// This holds whether or not the id was in the registry before.
pub proof fn law_insert_then_remove<T>(deploys: TableModel<T>, id: Seq<char>, session: T)
    requires
        deploys.wf(),
    ensures
        deploys.insert(id, session).remove(id).wf(),
        !deploys.insert(id, session).remove(id).contains(id),
        lookup(deploys.insert(id, session).remove(id), id) == Err::<T, ErrorView>(ErrorView::NoSuchSession(id)),
{
    let inserted = deploys.insert(id, session);
    deploys.lemma_ops_keep_wf(id, session);
    inserted.lemma_ops_keep_wf(id, session);
    inserted.lemma_remove(id);
}

/// Inserting and then removing a session leaves every other session as it was.
pub proof fn law_insert_then_remove_keeps_others<T>(
    deploys: TableModel<T>,
    id: Seq<char>,
    session: T,
    other: Seq<char>,
)
    requires
        deploys.wf(),
        other != id,
    ensures
        lookup(deploys.insert(id, session).remove(id), other) == lookup(deploys, other),
{
    let inserted = deploys.insert(id, session);
    deploys.lemma_ops_keep_wf(id, session);
    deploys.lemma_insert(id, session);
    inserted.lemma_remove(id);
}

/// The sessions of one backend, by id.
pub struct DeployManager<T> {
    deploys: Table<T>,
}

impl<T> View for DeployManager<T> {
    type V = TableModel<T>;

    closed spec fn view(&self) -> TableModel<T> {
        self.deploys@
    }
}

impl<T> Default for DeployManager<T> {
    fn default() -> (r: Self)
        ensures
            r.wf(),
            r@ == TableModel::<T>::empty(),
    {
        DeployManager { deploys: Table::new() }
    }
}

impl<T> DeployManager<T> {
    pub open spec fn wf(&self) -> bool {
        self@.wf()
    }

    /// The number of sessions.
    pub fn len(&self) -> (r: usize)
        requires
            self.wf(),
        ensures
            r == self@.len(),
    {
        self.deploys.len()
    }

    /// Registers `deploy` under `id`; an id that is in use is refused and
    /// the registry stays as it was.
    pub fn insert_deploy(&mut self, id: String, deploy: T) -> (r: Result<(), Error>)
        requires
            old(self).wf(),
        ensures
            final(self).wf(),
            final(self)@ == old(self)@.insert(id@, deploy),
            r is Ok <==> !old(self)@.contains(id@),
            r is Err ==> r->Err_0@ == ErrorView::DuplicateSession(id@) && final(self)@ == old(self)@,
    {
        if self.deploys.contains(&id) {
            Err(Error::DuplicateSession(id))
        } else {
            let _ = self.deploys.insert(id, deploy);
            Ok(())
        }
    }

    pub fn contains_deploy(&self, id: &String) -> (r: bool)
        requires
            self.wf(),
        ensures
            r == self@.contains(id@),
    {
        self.deploys.contains(id)
    }

    /// The session registered under `id`.
    pub fn deploy(&self, id: &String) -> (r: Result<&T, Error>)
        requires
            self.wf(),
        ensures
            match r {
                Ok(deploy) => lookup(self@, id@) == Ok::<T, ErrorView>(*deploy),
                Err(e) => lookup(self@, id@) == Err::<T, ErrorView>(e@),
            },
    {
        match self.deploys.get(id) {
            Some(deploy) => Ok(deploy),
            None => Err(Error::NoSuchSession(id.clone())),
        }
    }

    /// The session registered under `id`, to be changed in place.
    pub fn deploy_mut(&mut self, id: &String) -> (r: Result<&mut T, Error>)
        requires
            old(self).wf(),
        ensures
            match r {
                Ok(deploy) => {
                    &&& lookup(old(self)@, id@) == Ok::<T, ErrorView>(*deploy)
                    &&& final(self)@ == old(self)@.put(id@, *final(deploy))
                },
                Err(e) => {
                    &&& lookup(old(self)@, id@) == Err::<T, ErrorView>(e@)
                    &&& final(self)@ == old(self)@
                },
            },
    {
        match self.deploys.get_mut(id) {
            Some(deploy) => Ok(deploy),
            None => Err(Error::NoSuchSession(id.clone())),
        }
    }

    /// Takes the session registered under `id` out of the registry. Its
    /// resources are the caller's to release.
    pub fn remove_deploy(&mut self, id: &String) -> (r: Result<T, Error>)
        requires
            old(self).wf(),
        ensures
            final(self).wf(),
            final(self)@ == old(self)@.remove(id@),
            match r {
                Ok(deploy) => lookup(old(self)@, id@) == Ok::<T, ErrorView>(deploy),
                Err(e) => lookup(old(self)@, id@) == Err::<T, ErrorView>(e@) && final(self)@ == old(self)@,
            },
    {
        match self.deploys.remove(id) {
            Some(deploy) => Ok(deploy),
            None => Err(Error::NoSuchSession(id.clone())),
        }
    }
}

/// The snapshots of the sessions of `deploys`, in the registry's order.
pub open spec fn snapshot<T: IntoDeployInfo>(deploys: TableModel<T>) -> Seq<SessionInfoView> {
    Seq::new(deploys.items.len(), |i: int| deploys.items[i].info(deploys.keys[i]))
}

impl<T: IntoDeployInfo> DeployManager<T> {
    /// A snapshot of every session, in the order in which they were registered.
    pub fn deploys_info(&self) -> (r: Vec<SessionInfo>)
        requires
            self.wf(),
        ensures
            crate::session::info_views(r@) == snapshot(self@),
    {
        let mut infos: Vec<SessionInfo> = Vec::new();
        let n = self.deploys.len();
        let mut i: usize = 0;
        while i < n
            invariant
                self.wf(),
                n == self@.len(),
                i <= n,
                infos@.len() == i,
                forall|j: int| 0 <= j < i ==> infos@[j]@ == self@.items[j].info(self@.keys[j]),
            decreases n - i,
        {
            let info = self.deploys.item_at(i).convert(self.deploys.key_at(i));
            infos.push(info);
            i += 1;
        }
        assert(crate::session::info_views(infos@) =~= snapshot(self@));
        infos
    }
}

} // verus!
