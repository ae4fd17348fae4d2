//! The record store: one optional global record, one user record per owner,
//! each held at its derived address, plus the append-only audit trail.

use vstd::prelude::*;

use crate::addr::AccountId;
use crate::events::{count_tips, sum_points, sum_tipped, EventRecord};
use crate::records::{
    global_counters_le, user_counters_le, wf_user, GlobalState, UserState,
};

verus! {

/// The global record together with the address it is stored at.
#[derive(Clone, Copy)]
pub struct GlobalEntry {
    pub address: AccountId,
    pub state: GlobalState,
}

/// A user record together with the address it is stored at.
#[derive(Clone, Copy)]
pub struct UserEntry {
    pub address: AccountId,
    pub state: UserState,
}

/// The whole persistent state of one economy.
pub struct Ledger {
    /// The addressing domain all record addresses are derived under.
    pub program_id: AccountId,
    /// The singleton aggregate record, once the economy is initialized.
    pub global: Option<GlobalEntry>,
    /// One record per user, created lazily, never destroyed.
    pub users: Vec<UserEntry>,
    /// The audit trail: one event per accepted point-affecting transition.
    pub events: Vec<EventRecord>,
}

impl Ledger {
    /// Whether the economy has been initialized.
    pub open spec fn has_global(self) -> bool {
        self.global is Some
    }

    /// The global record entry.
    pub open spec fn global_entry(self) -> GlobalEntry {
        self.global->Some_0
    }

    /// Whether some user record is stored at `addr`.
    pub open spec fn has_user_at(self, addr: Seq<u8>) -> bool {
        exists|i: int| 0 <= i < self.users@.len() && self.users@[i].address@ == addr
    }

    /// The position of the user record stored at `addr`.
    pub open spec fn user_index_of(self, addr: Seq<u8>) -> int {
        choose|i: int| 0 <= i < self.users@.len() && self.users@[i].address@ == addr
    }

    /// The user record stored at `addr`.
    pub open spec fn user_at(self, addr: Seq<u8>) -> UserEntry {
        self.users@[self.user_index_of(addr)]
    }

    /// Whether `owner` already has a record.
    pub open spec fn has_owner(self, owner: Seq<u8>) -> bool {
        exists|i: int| 0 <= i < self.users@.len() && self.users@[i].state.user@ == owner
    }

    /// Every user record keeps the level law, and no two records share an
    /// owner or an address.
    pub open spec fn users_wf(self) -> bool {
        &&& forall|i: int|
            0 <= i < self.users@.len() ==> wf_user(#[trigger] self.users@[i].state)
        &&& forall|i: int, j: int|
            0 <= i < self.users@.len() && 0 <= j < self.users@.len() && i != j
                ==> (#[trigger] self.users@[i].state.user@) != (#[trigger] self.users@[j].state.user@)
        &&& forall|i: int, j: int|
            0 <= i < self.users@.len() && 0 <= j < self.users@.len() && i != j
                ==> (#[trigger] self.users@[i].address@) != (#[trigger] self.users@[j].address@)
    }

    /// The global counters agree with the audit trail: points distributed,
    /// amounts tipped and tips recorded are exactly what the events say.
    pub open spec fn accounting_ok(self) -> bool {
        match self.global {
            Some(g) => {
                &&& g.state.total_vibe_points_distributed == sum_points(self.events@)
                &&& g.state.total_bonk_tipped == sum_tipped(self.events@)
                &&& g.state.total_tips_sent == count_tips(self.events@)
            },
            None => self.events@.len() == 0,
        }
    }

    /// A well-formed store.
    pub open spec fn wf(self) -> bool {
        self.users_wf() && self.accounting_ok()
    }

    /// An empty store for the economy addressed by `program_id`.
    pub fn new(program_id: AccountId) -> (l: Ledger)
        ensures
            l.wf(),
            l.program_id == program_id,
            !l.has_global(),
            l.users@.len() == 0,
            l.events@.len() == 0,
    {
        Ledger { program_id, global: None, users: Vec::new(), events: Vec::new() }
    }

    /// Look up the user record stored at `addr`.
    pub fn find_user(&self, addr: &AccountId) -> (r: Option<usize>)
        ensures
            match r {
                Some(i) => i < self.users@.len() && self.users@[i as int].address@ == addr@
                    && self.has_user_at(addr@),
                None => !self.has_user_at(addr@),
            },
    {
        let mut i: usize = 0;
        while i < self.users.len()
            invariant
                i <= self.users@.len(),
                forall|j: int| 0 <= j < i ==> self.users@[j].address@ != addr@,
            decreases self.users@.len() - i,
        {
            if crate::addr::id_eq(&self.users[i].address, addr) {
                return Some(i);
            }
            i = i + 1;
        }
        None
    }

    /// Look up whether `owner` already has a record.
    pub fn find_owner(&self, owner: &AccountId) -> (r: Option<usize>)
        ensures
            match r {
                Some(i) => i < self.users@.len() && self.users@[i as int].state.user@ == owner@
                    && self.has_owner(owner@),
                None => !self.has_owner(owner@),
            },
    {
        let mut i: usize = 0;
        while i < self.users.len()
            invariant
                i <= self.users@.len(),
                forall|j: int| 0 <= j < i ==> self.users@[j].state.user@ != owner@,
            decreases self.users@.len() - i,
        {
            if crate::addr::id_eq(&self.users[i].state.user, owner) {
                return Some(i);
            }
            i = i + 1;
        }
        None
    }

    /// No accepted transition destroys a user record, changes its owner,
    /// address or correctness code, or decreases one of its counters.
    pub open spec fn preserves_user_records(pre: Ledger, post: Ledger) -> bool {
        &&& post.users@.len() >= pre.users@.len()
        &&& forall|k: int|
            0 <= k < pre.users@.len() ==> {
                let a = #[trigger] pre.users@[k];
                let b = post.users@[k];
                &&& b.address == a.address
                &&& b.state.user == a.state.user
                &&& b.state.bump == a.state.bump
                &&& user_counters_le(a.state, b.state)
            }
    }

    /// No accepted transition destroys the global record, changes its
    /// address, token type or correctness code, or decreases a counter.
    pub open spec fn global_monotone(pre: Ledger, post: Ledger) -> bool {
        match (pre.global, post.global) {
            (Some(a), Some(b)) => {
                &&& b.address == a.address
                &&& b.state.bonk_mint == a.state.bonk_mint
                &&& b.state.bump == a.state.bump
                &&& global_counters_le(a.state, b.state)
            },
            (None, _) => true,
            (Some(_), None) => false,
        }
    }

    /// The audit trail is append-only: every event once emitted stays.
    pub open spec fn events_monotone(pre: Ledger, post: Ledger) -> bool {
        &&& post.events@.len() >= pre.events@.len()
        &&& forall|k: int|
            0 <= k < pre.events@.len() ==> #[trigger] post.events@[k] == pre.events@[k]
    }

    /// All the history guarantees of one accepted or rejected transition.
    pub open spec fn monotone_step(pre: Ledger, post: Ledger) -> bool {
        &&& Self::preserves_user_records(pre, post)
        &&& Self::global_monotone(pre, post)
        &&& Self::events_monotone(pre, post)
    }

    /// The history guarantees compose: whatever holds of each step of a
    /// transition history holds of the history as a whole.
    pub proof fn lemma_monotone_step_trans(a: Ledger, b: Ledger, c: Ledger)
        requires
            Self::monotone_step(a, b),
            Self::monotone_step(b, c),
        ensures
            Self::monotone_step(a, c),
    {
    }

    /// In a well-formed store each stored address names one record, so the
    /// record found at a stored entry's address is that entry.
    pub proof fn lemma_user_index(self, i: int)
        requires
            self.users_wf(),
            0 <= i < self.users@.len(),
        ensures
            self.has_user_at(self.users@[i].address@),
            self.user_index_of(self.users@[i].address@) == i,
            self.user_at(self.users@[i].address@) == self.users@[i],
    {
        let addr = self.users@[i].address@;
        assert(self.has_user_at(addr));
        let j = self.user_index_of(addr);
        assert(0 <= j < self.users@.len() && self.users@[j].address@ == addr);
        if j != i {
            assert(self.users@[i].address@ != self.users@[j].address@);
        }
    }
}

} // verus!
