use vstd::prelude::*;
use crate::keycounts::KeyCounts;

verus! {

/// Which clients have updates in progress, and how many each: updates of
/// one client run one at a time under that client's lock, and a client's
/// lock is forgotten once no update of it is in progress or waiting.
pub struct ClientUpdateLocks {
    users: KeyCounts,
}

impl ClientUpdateLocks {
    /// The number of updates in progress or waiting, per client.
    pub closed spec fn spec_users(&self) -> Map<Seq<char>, nat> {
        self.users.map()
    }

    pub closed spec fn wf(&self) -> bool {
        self.users.wf()
    }

    pub fn new() -> (r: Self)
        ensures
            r.wf(),
            r.spec_users() == Map::<Seq<char>, nat>::empty(),
    {
        ClientUpdateLocks { users: KeyCounts::new() }
    }

    /// An update of `client_id` starts waiting for the client's lock, which
    /// exists from now on.
    pub fn enter(&mut self, client_id: &str)
        requires
            old(self).wf(),
            old(self).spec_users().contains_key(client_id@) ==> old(self).spec_users()[client_id@] < usize::MAX,
        ensures
            final(self).wf(),
            final(self).spec_users() == old(self).spec_users().insert(client_id@,
                if old(self).spec_users().contains_key(client_id@) { old(self).spec_users()[client_id@] + 1 } else { 1 }),
    {
        self.users.acquire(client_id.to_owned());
    }

    /// An update of `client_id` is done; true when it was the last one, and
    /// the client's lock is to be dropped.
    pub fn leave(&mut self, client_id: &str) -> (r: bool)
        requires
            old(self).wf(),
            old(self).spec_users().contains_key(client_id@),
        ensures
            final(self).wf(),
            r == (old(self).spec_users()[client_id@] == 1),
            r ==> final(self).spec_users() == old(self).spec_users().remove(client_id@),
            !r ==> final(self).spec_users() == old(self).spec_users().insert(client_id@,
                (old(self).spec_users()[client_id@] - 1) as nat),
    {
        proof { self.users.lemma_counts_positive(); }
        let last = self.users.count(client_id) == 1;
        self.users.release(client_id);
        last
    }

    /// The number of clients whose lock exists.
    pub fn len(&self) -> (r: usize)
        requires
            self.wf(),
        ensures
            r == self.spec_users().dom().len(),
    {
        self.users.len()
    }
}

} // verus!
