//! The contract: its whole state (instance storage, persistent storage, the
//! events it has published, the ledger time it sees) and its operations.
//!
//! `ContractState` is the mathematical state; the `*_step` functions say what
//! each operation returns and what state it leaves. `StellarPassContract`
//! holds the state in vectors and refines those steps exactly.

use vstd::prelude::*;
use crate::types::{
    Address, Community, ContractEvent, Error, MembershipKey, RoleRecord, Symbol,
};
use crate::rules::{
    access_granted, authorize_upgrade, community_creation, decide_grant, decide_revoke,
    grant_decision, grants_access, plan_community, revoke_decision, upgrade_verdict,
    GrantDecision, RevokeDecision,
};

verus! {

/// The state of the contract as mathematical values.
/// Role records are keyed by the community and the member's address text.
#[verifier::ext_equal]
pub struct ContractState {
    pub upgrade_admin: Address,
    pub next_community_id: u64,
    pub communities: Map<u64, Community>,
    pub memberships: Map<(u64, Seq<char>), RoleRecord>,
    pub events: Seq<ContractEvent>,
    pub timestamp: u64,
    pub wasm_hash: Option<[u8; 32]>,
}

/// The community stored under `id`, if any.
pub open spec fn community_of(s: ContractState, id: u64) -> Option<Community> {
    if s.communities.contains_key(id) {
        Some(s.communities[id])
    } else {
        None
    }
}

/// The role record of the wallet with address text `member` in community `id`, if any.
pub open spec fn role_of(s: ContractState, id: u64, member: Seq<char>) -> Option<RoleRecord> {
    if s.memberships.contains_key((id, member)) {
        Some(s.memberships[(id, member)])
    } else {
        None
    }
}

/// The state right after deployment with `upgrade_admin`: no community, no
/// role, no event, the counter at zero and the ledger time at zero.
pub open spec fn initial_state(upgrade_admin: Address) -> ContractState {
    ContractState {
        upgrade_admin,
        next_community_id: 0,
        communities: Map::empty(),
        memberships: Map::empty(),
        events: Seq::empty(),
        timestamp: 0,
        wasm_hash: None,
    }
}

/// Creating a community: a request by the upgrade admin is refused and
/// changes nothing; otherwise the community gets the next identifier, its
/// creator as admin and the current ledger time, and `community_created` is
/// published.
pub open spec fn create_step(s: ContractState, admin: Address, name: Symbol) -> (Result<u64, Error>, ContractState) {
    match community_creation(Some(s.next_community_id), Some(s.upgrade_admin), admin, name, s.timestamp) {
        Err(e) => (Err(e), s),
        Ok(made) => (
            Ok(made.0.id),
            ContractState {
                next_community_id: made.0.id,
                communities: s.communities.insert(made.0.id, made.0),
                events: s.events.push(ContractEvent::CommunityCreated(made.1)),
                ..s
            },
        ),
    }
}

/// Moving the ledger clock to `timestamp`; nothing else changes.
pub open spec fn clock_step(s: ContractState, timestamp: u64) -> ContractState {
    ContractState { timestamp, ..s }
}

/// The state is consistent: the communities are exactly those numbered
/// `1..=next_community_id`, each stored under its own identifier, none of them
/// administered by the upgrade admin, and every role record belongs to an
/// existing community.
pub open spec fn consistent(s: ContractState) -> bool {
    &&& forall|id: u64| #[trigger] s.communities.contains_key(id) <==> 1 <= id <= s.next_community_id
    &&& forall|id: u64| #[trigger] s.communities.contains_key(id) ==> s.communities[id].id == id
    &&& forall|id: u64| #[trigger] s.communities.contains_key(id) ==> s.communities[id].admin@ != s.upgrade_admin@
    &&& forall|k: (u64, Seq<char>)| #[trigger] s.memberships.contains_key(k) ==> s.communities.contains_key(k.0)
}

/// Granting a role: checked and decided by `grant_decision`, then written and published.
pub open spec fn grant_step(
    s: ContractState,
    admin: Address,
    community_id: u64,
    member: Address,
    role: Symbol,
    expires_at: Option<u64>,
) -> (Result<(), Error>, ContractState) {
    match grant_decision(
        community_of(s, community_id),
        admin,
        community_id,
        member,
        role_of(s, community_id, member@),
        role,
        expires_at,
        s.timestamp,
    ) {
        Err(e) => (Err(e), s),
        Ok(GrantDecision::Unchanged) => (Ok(()), s),
        Ok(GrantDecision::Granted { record, event }) => (
            Ok(()),
            ContractState {
                memberships: s.memberships.insert((community_id, member@), record),
                events: s.events.push(ContractEvent::RoleGranted(event)),
                ..s
            },
        ),
        Ok(GrantDecision::Updated { record, event }) => (
            Ok(()),
            ContractState {
                memberships: s.memberships.insert((community_id, member@), record),
                events: s.events.push(ContractEvent::RoleUpdated(event)),
                ..s
            },
        ),
    }
}

/// Revoking a role: checked and decided by `revoke_decision`, then written and published.
pub open spec fn revoke_step(s: ContractState, admin: Address, community_id: u64, member: Address) -> (
    Result<(), Error>,
    ContractState,
) {
    match revoke_decision(
        community_of(s, community_id),
        admin,
        community_id,
        member,
        role_of(s, community_id, member@),
        s.timestamp,
    ) {
        Err(e) => (Err(e), s),
        Ok(RevokeDecision::Unchanged) => (Ok(()), s),
        Ok(RevokeDecision::Revoked { record, event }) => (
            Ok(()),
            ContractState {
                memberships: s.memberships.insert((community_id, member@), record),
                events: s.events.push(ContractEvent::RoleRevoked(event)),
                ..s
            },
        ),
    }
}

/// Whether the wallet with address text `member` has access to community `id` now.
pub open spec fn access(s: ContractState, member: Seq<char>, id: u64) -> bool {
    grants_access(role_of(s, id, member), s.timestamp)
}

/// Upgrading the code: only the upgrade admin may; the new code hash is
/// recorded and `contract_upgraded` is published.
pub open spec fn upgrade_step(s: ContractState, caller: Address, wasm_hash: [u8; 32]) -> (
    Result<(), Error>,
    ContractState,
) {
    match upgrade_verdict(Some(s.upgrade_admin), caller, wasm_hash) {
        Err(e) => (Err(e), s),
        Ok(event) => (
            Ok(()),
            ContractState {
                events: s.events.push(ContractEvent::ContractUpgraded(event)),
                wasm_hash: Some(wasm_hash),
                ..s
            },
        ),
    }
}

/// The key of the `i`-th stored role record.
spec fn entry_key(entries: Seq<(MembershipKey, RoleRecord)>, i: int) -> (u64, Seq<char>) {
    entries[i].0.spec_key()
}

/// The contract with its storage, the events it has published and the ledger
/// time it sees.
pub struct StellarPassContract {
    upgrade_admin: Address,
    next_community_id: u64,
    communities: Vec<Community>,
    memberships: Vec<(MembershipKey, RoleRecord)>,
    membership_map: Ghost<Map<(u64, Seq<char>), RoleRecord>>,
    events: Vec<ContractEvent>,
    timestamp: u64,
    wasm_hash: Option<[u8; 32]>,
}

impl View for StellarPassContract {
    type V = ContractState;

    closed spec fn view(&self) -> ContractState {
        ContractState {
            upgrade_admin: self.upgrade_admin,
            next_community_id: self.next_community_id,
            communities: Map::new(
                |id: u64| 1 <= id <= self.next_community_id,
                |id: u64| self.communities@[id - 1],
            ),
            memberships: self.membership_map@,
            events: self.events@,
            timestamp: self.timestamp,
            wasm_hash: self.wasm_hash,
        }
    }
}

impl StellarPassContract {
    /// The stored vectors agree with the state: community `i + 1` stands at
    /// index `i` and is not administered by the upgrade admin, the role records
    /// hold each key at most once, and each belongs to an existing community.
    pub closed spec fn wf(&self) -> bool {
        &&& self.communities@.len() == self.next_community_id
        &&& forall|i: int| 0 <= i < self.communities@.len() ==> #[trigger] self.communities@[i].id == i + 1
        &&& forall|i: int|
            0 <= i < self.communities@.len() ==> #[trigger] self.communities@[i].admin@
                != self.upgrade_admin@
        &&& forall|k: (u64, Seq<char>)|
            #[trigger] self.membership_map@.contains_key(k) ==> 1 <= k.0 <= self.next_community_id
        &&& forall|i: int, j: int|
            #![trigger entry_key(self.memberships@, i), entry_key(self.memberships@, j)]
            0 <= i < self.memberships@.len() && 0 <= j < self.memberships@.len() && i != j
                ==> entry_key(self.memberships@, i) != entry_key(self.memberships@, j)
        &&& forall|i: int|
            0 <= i < self.memberships@.len() ==> {
                &&& self.membership_map@.contains_key(#[trigger] entry_key(self.memberships@, i))
                &&& self.membership_map@[entry_key(self.memberships@, i)] == self.memberships@[i].1
            }
        &&& forall|k: (u64, Seq<char>)|
            #[trigger] self.membership_map@.contains_key(k) ==> exists|i: int|
                0 <= i < self.memberships@.len() && entry_key(self.memberships@, i) == k
    }

    /// A well-formed contract is in a consistent state.
    pub proof fn lemma_wf_consistent(&self)
        requires
            self.wf(),
        ensures
            consistent(self@),
    {
        assert forall|id: u64| #[trigger] self@.communities.contains_key(id) implies self@.communities[id].id
            == id && self@.communities[id].admin@ != self@.upgrade_admin@ by {
            assert(self.communities@[id - 1].id == id - 1 + 1);
        }
    }

    /// When only the events, the clock or the code hash differ, a well-formed
    /// contract stays well-formed and keeps its communities.
    proof fn lemma_storage_frame(before: Self, after: Self)
        requires
            before.wf(),
            after.upgrade_admin == before.upgrade_admin,
            after.next_community_id == before.next_community_id,
            after.communities@ == before.communities@,
            after.memberships@ == before.memberships@,
            after.membership_map@ == before.membership_map@,
        ensures
            after.wf(),
            after@.communities == before@.communities,
    {
        assert(after@.communities =~= before@.communities);
    }

    /// Deploys the contract with the wallet that may upgrade its code.
    pub fn __constructor(upgrade_admin: Address) -> (c: Self)
        ensures
            c.wf(),
            c@ == initial_state(upgrade_admin),
    {
        let c = StellarPassContract {
            upgrade_admin,
            next_community_id: 0,
            communities: Vec::new(),
            memberships: Vec::new(),
            membership_map: Ghost(Map::empty()),
            events: Vec::new(),
            timestamp: 0,
            wasm_hash: None,
        };
        assert(c@.communities =~= Map::empty());
        c
    }

    /// The version of the contract interface.
    pub fn version() -> (v: u32)
        ensures
            v == 1,
    {
        1
    }

    /// The ledger time that the contract sees.
    pub fn ledger_timestamp(&self) -> (t: u64)
        ensures
            t == self@.timestamp,
    {
        self.timestamp
    }

    /// Moves the ledger clock to `timestamp`; nothing else changes.
    pub fn set_ledger_timestamp(&mut self, timestamp: u64)
        requires
            old(self).wf(),
        ensures
            final(self).wf(),
            final(self)@ == clock_step(old(self)@, timestamp),
    {
        self.timestamp = timestamp;
        proof {
            Self::lemma_storage_frame(*old(self), *self);
        }
    }

    /// The events published so far, oldest first.
    pub fn events(&self) -> (e: &Vec<ContractEvent>)
        ensures
            e@ == self@.events,
    {
        &self.events
    }

    /// The hash of the code installed by the last upgrade, if any.
    pub fn wasm_hash(&self) -> (h: Option<[u8; 32]>)
        ensures
            h == self@.wasm_hash,
    {
        self.wasm_hash
    }

    /// The identifier that the next community will get, less one.
    pub fn next_community_id(&self) -> (n: u64)
        ensures
            n == self@.next_community_id,
    {
        self.next_community_id
    }

    /// The stored community with identifier `id`, if any.
    fn community_entry(&self, id: u64) -> (r: Option<Community>)
        requires
            self.wf(),
        ensures
            r == community_of(self@, id),
    {
        let len = self.communities.len();
        if 1 <= id && id <= self.next_community_id {
            assert(id - 1 < len);
            Some(self.communities[(id - 1) as usize].clone())
        } else {
            None
        }
    }

    /// The index of the stored record for `(community_id, member)`, if any.
    fn find_membership(&self, community_id: u64, member: &Address) -> (r: Option<usize>)
        requires
            self.wf(),
        ensures
            match r {
                Some(i) => i < self.memberships@.len() && entry_key(self.memberships@, i as int) == (
                    community_id,
                    member@,
                ),
                None => !self@.memberships.contains_key((community_id, member@)),
            },
    {
        let mut i: usize = 0;
        while i < self.memberships.len()
            invariant
                self.wf(),
                i <= self.memberships@.len(),
                forall|j: int| 0 <= j < i ==> entry_key(self.memberships@, j) != (community_id, member@),
            decreases self.memberships@.len() - i,
        {
            if self.memberships[i].0.community_id == community_id && self.memberships[i].0.member
                == *member {
                return Some(i);
            }
            i += 1;
        }
        proof {
            if self.membership_map@.contains_key((community_id, member@)) {
                let j = choose|j: int|
                    0 <= j < self.memberships@.len() && entry_key(self.memberships@, j) == (community_id, member@);
                assert(entry_key(self.memberships@, j) != (community_id, member@));
            }
        }
        None
    }

    /// The stored record for `(community_id, member)`, if any, with its index.
    fn record_entry(&self, community_id: u64, member: &Address) -> (r: (Option<usize>, Option<RoleRecord>))
        requires
            self.wf(),
        ensures
            r.1 == role_of(self@, community_id, member@),
            match r.0 {
                Some(i) => i < self.memberships@.len() && entry_key(self.memberships@, i as int) == (
                    community_id,
                    member@,
                ),
                None => !self@.memberships.contains_key((community_id, member@)),
            },
    {
        let found = self.find_membership(community_id, member);
        match found {
            Some(i) => (found, Some(self.memberships[i].1.clone())),
            None => (found, None),
        }
    }

    /// Writes `record` under `key`, in place of the record at `found` if there is one.
    fn put_record(&mut self, found: Option<usize>, key: MembershipKey, record: RoleRecord)
        requires
            old(self).wf(),
            match found {
                Some(i) => i < old(self).memberships@.len() && entry_key(old(self).memberships@, i as int)
                    == key.spec_key(),
                None => !old(self)@.memberships.contains_key(key.spec_key()),
            },
            1 <= key.community_id <= old(self).next_community_id,
        ensures
            final(self).wf(),
            final(self)@ == (ContractState {
                memberships: old(self)@.memberships.insert(key.spec_key(), record),
                ..old(self)@
            }),
    {
        let ghost k = key.spec_key();
        let ghost rec = record;
        match found {
            Some(i) => {
                self.memberships[i] = (key, record);
            },
            None => {
                self.memberships.push((key, record));
            },
        }
        self.membership_map = Ghost(self.membership_map@.insert(k, rec));
        assert(self@.communities =~= old(self)@.communities);
        assert forall|i: int| 0 <= i < self.memberships@.len() implies {
            &&& self.membership_map@.contains_key(#[trigger] entry_key(self.memberships@, i))
            &&& self.membership_map@[entry_key(self.memberships@, i)] == self.memberships@[i].1
        } by {
            if entry_key(self.memberships@, i) != k {
                assert(i < old(self).memberships@.len());
                assert(entry_key(self.memberships@, i) == entry_key(old(self).memberships@, i));
                assert(self.memberships@[i] == old(self).memberships@[i]);
            }
        }
        assert forall|i: int, j: int|
            0 <= i < self.memberships@.len() && 0 <= j < self.memberships@.len() && i != j implies
            #[trigger] entry_key(self.memberships@, i) != #[trigger] entry_key(self.memberships@, j) by {
            if i < old(self).memberships@.len() {
                assert(old(self).membership_map@.contains_key(entry_key(old(self).memberships@, i)));
            }
            if j < old(self).memberships@.len() {
                assert(old(self).membership_map@.contains_key(entry_key(old(self).memberships@, j)));
            }
        }
        assert forall|q: (u64, Seq<char>)| #[trigger] self.membership_map@.contains_key(q) implies exists|i: int|
            0 <= i < self.memberships@.len() && entry_key(self.memberships@, i) == q by {
            if q == k {
                match found {
                    Some(i) => {
                        assert(entry_key(self.memberships@, i as int) == q);
                    },
                    None => {
                        assert(entry_key(self.memberships@, old(self).memberships@.len() as int) == q);
                    },
                }
            } else {
                let i = choose|i: int|
                    0 <= i < old(self).memberships@.len() && entry_key(old(self).memberships@, i) == q;
                assert(entry_key(self.memberships@, i) == q);
            }
        }
    }
    /// Creates a community administered by `admin`; returns its identifier.
    /// The counter must not be at its largest value, where the increment overflows.
    pub fn create_community(&mut self, admin: Address, name: Symbol) -> (r: Result<u64, Error>)
        requires
            old(self).wf(),
            old(self)@.next_community_id < u64::MAX,
        ensures
            final(self).wf(),
            r == create_step(old(self)@, admin, name).0,
            final(self)@ == create_step(old(self)@, admin, name).1,
    {
        let stored_admin = Some(self.upgrade_admin.clone());
        let (community, event) = match plan_community(
            Some(self.next_community_id),
            &stored_admin,
            admin,
            name,
            self.timestamp,
        ) {
            Err(e) => {
                return Err(e);
            },
            Ok(made) => made,
        };
        let id = community.id;
        self.communities.push(community);
        self.next_community_id = id;
        self.events.push(ContractEvent::CommunityCreated(event));
        assert(self.memberships@ == old(self).memberships@);
        assert(self.membership_map@ == old(self).membership_map@);
        assert(self@.communities =~= old(self)@.communities.insert(id, self.communities@[id - 1]));
        Ok(id)
    }

    /// Grants `role` (expiring at `expires_at`, or never) to `member` in
    /// community `community_id`, at the request of `admin`.
    pub fn grant_role(
        &mut self,
        admin: Address,
        community_id: u64,
        member: Address,
        role: Symbol,
        expires_at: Option<u64>,
    ) -> (r: Result<(), Error>)
        requires
            old(self).wf(),
        ensures
            final(self).wf(),
            r == grant_step(old(self)@, admin, community_id, member, role, expires_at).0,
            final(self)@ == grant_step(old(self)@, admin, community_id, member, role, expires_at).1,
    {
        let community = self.community_entry(community_id);
        let (found, existing) = self.record_entry(community_id, &member);
        let key = MembershipKey { community_id, member: member.clone() };
        let decision = decide_grant(
            &community,
            &admin,
            community_id,
            member,
            existing,
            role,
            expires_at,
            self.timestamp,
        );
        match decision {
            Err(e) => Err(e),
            Ok(GrantDecision::Unchanged) => Ok(()),
            Ok(GrantDecision::Granted { record, event }) => {
                self.put_record(found, key, record);
                self.push_event(ContractEvent::RoleGranted(event));
                Ok(())
            },
            Ok(GrantDecision::Updated { record, event }) => {
                self.put_record(found, key, record);
                self.push_event(ContractEvent::RoleUpdated(event));
                Ok(())
            },
        }
    }

    /// Revokes the role of `member` in community `community_id`, at the request
    /// of `admin`; the record is kept, marked revoked.
    pub fn revoke_role(&mut self, admin: Address, community_id: u64, member: Address) -> (r: Result<
        (),
        Error,
    >)
        requires
            old(self).wf(),
        ensures
            final(self).wf(),
            r == revoke_step(old(self)@, admin, community_id, member).0,
            final(self)@ == revoke_step(old(self)@, admin, community_id, member).1,
    {
        let community = self.community_entry(community_id);
        let (found, existing) = self.record_entry(community_id, &member);
        let key = MembershipKey { community_id, member: member.clone() };
        let decision = decide_revoke(
            &community,
            &admin,
            community_id,
            member,
            existing,
            self.timestamp,
        );
        match decision {
            Err(e) => Err(e),
            Ok(RevokeDecision::Unchanged) => Ok(()),
            Ok(RevokeDecision::Revoked { record, event }) => {
                self.put_record(found, key, record);
                self.push_event(ContractEvent::RoleRevoked(event));
                Ok(())
            },
        }
    }

    /// Whether `member` currently has access to community `community_id`.
    pub fn has_access(&self, member: Address, community_id: u64) -> (r: Result<bool, Error>)
        requires
            self.wf(),
        ensures
            r == Ok::<bool, Error>(access(self@, member@, community_id)),
    {
        let (_found, record) = self.record_entry(community_id, &member);
        Ok(access_granted(&record, self.timestamp))
    }

    /// The role record of `member` in community `community_id`, if any.
    pub fn get_role(&self, member: Address, community_id: u64) -> (r: Result<Option<RoleRecord>, Error>)
        requires
            self.wf(),
        ensures
            r == Ok::<Option<RoleRecord>, Error>(role_of(self@, community_id, member@)),
    {
        let (_found, record) = self.record_entry(community_id, &member);
        Ok(record)
    }

    /// The community with identifier `community_id`, if any.
    pub fn get_community(&self, community_id: u64) -> (r: Result<Option<Community>, Error>)
        requires
            self.wf(),
        ensures
            r == Ok::<Option<Community>, Error>(community_of(self@, community_id)),
    {
        Ok(self.community_entry(community_id))
    }

    /// Replaces the contract code by the code with hash `wasm_hash`, at the
    /// request of `upgrade_admin`.
    pub fn upgrade(&mut self, upgrade_admin: Address, wasm_hash: [u8; 32]) -> (r: Result<(), Error>)
        requires
            old(self).wf(),
        ensures
            final(self).wf(),
            r == upgrade_step(old(self)@, upgrade_admin, wasm_hash).0,
            final(self)@ == upgrade_step(old(self)@, upgrade_admin, wasm_hash).1,
    {
        let stored = Some(self.upgrade_admin.clone());
        match authorize_upgrade(&stored, &upgrade_admin, wasm_hash) {
            Err(e) => Err(e),
            Ok(event) => {
                self.wasm_hash = Some(wasm_hash);
                proof {
                    Self::lemma_storage_frame(*old(self), *self);
                }
                self.push_event(ContractEvent::ContractUpgraded(event));
                Ok(())
            },
        }
    }

    /// Appends `event` to the published events; nothing else changes.
    fn push_event(&mut self, event: ContractEvent)
        requires
            old(self).wf(),
        ensures
            final(self).wf(),
            final(self)@ == (ContractState { events: old(self)@.events.push(event), ..old(self)@ }),
    {
        self.events.push(event);
        proof {
            Self::lemma_storage_frame(*old(self), *self);
        }
    }
}

} // verus!
