//! What holds of the contract across its operations, proved over the steps
//! that its operations refine.

use vstd::prelude::*;
use crate::types::{
    Address, Community, CommunityCreated, ContractEvent, ContractUpgraded, Error, RoleGranted,
    RoleRecord, RoleRevoked, RoleUpdated, Symbol,
};
use crate::rules::{
    community_creation, grant_decision, grants_access, next_identifier, record_is_active,
    revoke_decision, upgrade_verdict, GrantDecision, RevokeDecision,
};
use crate::contract::{
    access, clock_step, community_of, consistent, create_step, grant_step, initial_state,
    revoke_step, role_of, upgrade_step, ContractState,
};

verus! {

/// `after` extends `before`: no community is removed or changed, and the
/// published events of `before` stay, in order, at the start of those of `after`.
pub open spec fn extends(before: ContractState, after: ContractState) -> bool {
    &&& after.upgrade_admin == before.upgrade_admin
    &&& after.timestamp == before.timestamp
    &&& forall|id: u64| #[trigger] before.communities.contains_key(id) ==> {
        &&& after.communities.contains_key(id)
        &&& after.communities[id] == before.communities[id]
    }
    &&& before.events.len() <= after.events.len()
    &&& after.events.subrange(0, before.events.len() as int) == before.events
}

/// A freshly deployed contract is consistent: it has no community, no role
/// record, no event and no installed upgrade, its counter and its ledger
/// clock are zero, and the given wallet is its upgrade admin.
pub proof fn lemma_initial_state_consistent(upgrade_admin: Address, id: u64, member: Seq<char>)
    ensures
        consistent(initial_state(upgrade_admin)),
        community_of(initial_state(upgrade_admin), id) is None,
        role_of(initial_state(upgrade_admin), id, member) is None,
        initial_state(upgrade_admin).events.len() == 0,
        initial_state(upgrade_admin).next_community_id == 0,
        initial_state(upgrade_admin).wasm_hash is None,
        initial_state(upgrade_admin).upgrade_admin == upgrade_admin,
        initial_state(upgrade_admin).timestamp == 0,
{
}

/// Moving the ledger clock sets the time to the given value and changes
/// nothing else: no record, community or event.
pub proof fn lemma_clock_moves_only_time(s: ContractState, timestamp: u64)
    ensures
        clock_step(s, timestamp).timestamp == timestamp,
        clock_step(s, timestamp).communities == s.communities,
        clock_step(s, timestamp).memberships == s.memberships,
        clock_step(s, timestamp).events == s.events,
        clock_step(s, timestamp).next_community_id == s.next_community_id,
        clock_step(s, timestamp).upgrade_admin == s.upgrade_admin,
        clock_step(s, timestamp).wasm_hash == s.wasm_hash,
{
}

/// Creating a community keeps the state consistent (while the counter can
/// still be incremented), and extends it.
pub proof fn lemma_create_preserves_consistency(s: ContractState, admin: Address, name: Symbol)
    requires
        consistent(s),
        s.next_community_id < u64::MAX,
    ensures
        consistent(create_step(s, admin, name).1),
        extends(s, create_step(s, admin, name).1),
{
    let t = create_step(s, admin, name).1;
    assert(t.events.subrange(0, s.events.len() as int) =~= s.events);
}

/// Granting a role keeps the state consistent, and extends it.
pub proof fn lemma_grant_preserves_consistency(
    s: ContractState,
    admin: Address,
    community_id: u64,
    member: Address,
    role: Symbol,
    expires_at: Option<u64>,
)
    requires
        consistent(s),
    ensures
        consistent(grant_step(s, admin, community_id, member, role, expires_at).1),
        extends(s, grant_step(s, admin, community_id, member, role, expires_at).1),
{
    let t = grant_step(s, admin, community_id, member, role, expires_at).1;
    assert(t.events.subrange(0, s.events.len() as int) =~= s.events);
}

/// Revoking a role keeps the state consistent, and extends it.
pub proof fn lemma_revoke_preserves_consistency(
    s: ContractState,
    admin: Address,
    community_id: u64,
    member: Address,
)
    requires
        consistent(s),
    ensures
        consistent(revoke_step(s, admin, community_id, member).1),
        extends(s, revoke_step(s, admin, community_id, member).1),
{
    let t = revoke_step(s, admin, community_id, member).1;
    assert(t.events.subrange(0, s.events.len() as int) =~= s.events);
}

/// An upgrade changes neither the communities nor the role records, and only
/// the upgrade admin may do it.
pub proof fn lemma_upgrade_touches_code_only(s: ContractState, caller: Address, wasm_hash: [u8; 32])
    requires
        consistent(s),
    ensures
        consistent(upgrade_step(s, caller, wasm_hash).1),
        extends(s, upgrade_step(s, caller, wasm_hash).1),
        upgrade_step(s, caller, wasm_hash).1.communities == s.communities,
        upgrade_step(s, caller, wasm_hash).1.memberships == s.memberships,
        upgrade_step(s, caller, wasm_hash).1.next_community_id == s.next_community_id,
        upgrade_step(s, caller, wasm_hash).0 is Ok <==> caller@ == s.upgrade_admin@,
{
    let t = upgrade_step(s, caller, wasm_hash).1;
    assert(t.events.subrange(0, s.events.len() as int) =~= s.events);
}

/// A request that is refused leaves the whole state as it was.
pub proof fn lemma_refused_requests_change_nothing(
    s: ContractState,
    caller: Address,
    community_id: u64,
    member: Address,
    role: Symbol,
    expires_at: Option<u64>,
    wasm_hash: [u8; 32],
)
    ensures
        grant_step(s, caller, community_id, member, role, expires_at).0 is Err ==> grant_step(
            s,
            caller,
            community_id,
            member,
            role,
            expires_at,
        ).1 == s,
        revoke_step(s, caller, community_id, member).0 is Err ==> revoke_step(
            s,
            caller,
            community_id,
            member,
        ).1 == s,
        upgrade_step(s, caller, wasm_hash).0 is Err ==> upgrade_step(s, caller, wasm_hash).1 == s,
{
}

/// Only the admin of an existing community may grant or revoke roles in it:
/// a grant or revoke is refused with `CommunityNotFound` exactly when the
/// community does not exist, and with `NotCommunityAdmin` exactly when it
/// exists and the caller is not its admin.
pub proof fn lemma_only_community_admin_administers(
    s: ContractState,
    caller: Address,
    community_id: u64,
    member: Address,
    role: Symbol,
    expires_at: Option<u64>,
)
    ensures
        (grant_step(s, caller, community_id, member, role, expires_at).0 == Err::<(), Error>(
            Error::CommunityNotFound,
        )) <==> community_of(s, community_id) is None,
        (grant_step(s, caller, community_id, member, role, expires_at).0 == Err::<(), Error>(
            Error::NotCommunityAdmin,
        )) <==> (community_of(s, community_id) matches Some(c) && c.admin@ != caller@),
        (revoke_step(s, caller, community_id, member).0 == Err::<(), Error>(
            Error::CommunityNotFound,
        )) <==> community_of(s, community_id) is None,
        (revoke_step(s, caller, community_id, member).0 == Err::<(), Error>(
            Error::NotCommunityAdmin,
        )) <==> (community_of(s, community_id) matches Some(c) && c.admin@ != caller@),
{
}

/// The wallet that creates a community is its admin: unless it is the
/// upgrade admin, the community gets the next identifier, its creator, its
/// name and the current ledger time, and `community_created` is published.
pub proof fn lemma_creator_is_admin(s: ContractState, admin: Address, name: Symbol)
    requires
        s.next_community_id < u64::MAX,
        admin@ != s.upgrade_admin@,
    ensures
        create_step(s, admin, name).0 == Ok::<u64, Error>((s.next_community_id + 1) as u64),
        community_of(create_step(s, admin, name).1, (s.next_community_id + 1) as u64) == Some(
            Community {
                id: (s.next_community_id + 1) as u64,
                admin,
                name,
                created_at: s.timestamp,
            },
        ),
        create_step(s, admin, name).1.next_community_id == s.next_community_id + 1,
        create_step(s, admin, name).1.memberships == s.memberships,
        create_step(s, admin, name).1.events == s.events.push(
            ContractEvent::CommunityCreated(
                CommunityCreated { community_id: (s.next_community_id + 1) as u64, admin, name },
            ),
        ),
{
}

/// The upgrade admin can replace code only: its request to create a community
/// is refused with `UpgradeAdminCannotCreate` and changes nothing, and in a
/// consistent state (where no community is administered by it) its grants and
/// revokes are refused too.
pub proof fn lemma_upgrade_admin_administers_nothing(
    s: ContractState,
    caller: Address,
    name: Symbol,
    community_id: u64,
    member: Address,
    role: Symbol,
    expires_at: Option<u64>,
)
    requires
        caller@ == s.upgrade_admin@,
    ensures
        create_step(s, caller, name) == (Err::<u64, Error>(Error::UpgradeAdminCannotCreate), s),
        consistent(s) ==> grant_step(s, caller, community_id, member, role, expires_at).0 is Err,
        consistent(s) ==> revoke_step(s, caller, community_id, member).0 is Err,
{
}

/// After a grant by the community admin, the wallet holds exactly one record
/// in the community, with the granted role and expiry, not revoked; every
/// other record is unchanged.
pub proof fn lemma_grant_sets_the_one_record(
    s: ContractState,
    admin: Address,
    community_id: u64,
    member: Address,
    role: Symbol,
    expires_at: Option<u64>,
    other_id: u64,
    other: Seq<char>,
)
    requires
        community_of(s, community_id) matches Some(c) && c.admin@ == admin@,
        (other_id, other) != (community_id, member@),
    ensures
        grant_step(s, admin, community_id, member, role, expires_at).0 is Ok,
        role_of(grant_step(s, admin, community_id, member, role, expires_at).1, community_id, member@)
            matches Some(r) && r.role@ == role@ && r.expires_at == expires_at && !r.revoked,
        role_of(grant_step(s, admin, community_id, member, role, expires_at).1, other_id, other)
            == role_of(s, other_id, other),
{
}

/// A role expires at the first ledger time that reaches its expiry, and a
/// role without expiry never expires: right after a grant by the community
/// admin, the wallet has access exactly when there is no expiry or the ledger
/// time is before it.
pub proof fn lemma_access_after_grant(
    s: ContractState,
    admin: Address,
    community_id: u64,
    member: Address,
    role: Symbol,
    expires_at: Option<u64>,
)
    requires
        community_of(s, community_id) matches Some(c) && c.admin@ == admin@,
    ensures
        access(grant_step(s, admin, community_id, member, role, expires_at).1, member@, community_id)
            <==> match expires_at {
            Some(exp) => s.timestamp < exp,
            None => true,
        },
{
}

/// An identical grant is a no-op: granting the same role with the same expiry
/// again succeeds and changes nothing, and publishes no event.
pub proof fn lemma_identical_grant_is_noop(
    s: ContractState,
    admin: Address,
    community_id: u64,
    member: Address,
    role: Symbol,
    expires_at: Option<u64>,
)
    requires
        grant_step(s, admin, community_id, member, role, expires_at).0 is Ok,
    ensures
        grant_step(
            grant_step(s, admin, community_id, member, role, expires_at).1,
            admin,
            community_id,
            member,
            role,
            expires_at,
        ) == (Ok::<(), Error>(()), grant_step(s, admin, community_id, member, role, expires_at).1),
{
}

/// A grant by the community admin to a wallet without a record publishes
/// `role_granted`; a grant that changes the role or the expiry of a record, or
/// renews a revoked one, publishes `role_updated` with the old role.
pub proof fn lemma_grant_events(
    s: ContractState,
    admin: Address,
    community_id: u64,
    member: Address,
    role: Symbol,
    expires_at: Option<u64>,
)
    requires
        community_of(s, community_id) matches Some(c) && c.admin@ == admin@,
    ensures
        match role_of(s, community_id, member@) {
            None => grant_step(s, admin, community_id, member, role, expires_at).1.events
                == s.events.push(
                ContractEvent::RoleGranted(RoleGranted { community_id, member, role, expires_at }),
            ),
            Some(prev) => (prev.revoked || prev.role@ != role@ || prev.expires_at != expires_at)
                ==> grant_step(s, admin, community_id, member, role, expires_at).1.events
                == s.events.push(
                ContractEvent::RoleUpdated(
                    RoleUpdated { community_id, member, old_role: prev.role, role, expires_at },
                ),
            ),
        },
{
}

/// Revoking ends access but keeps the record: after a revoke that succeeds,
/// the wallet has no access, and its record is still there with the same role
/// and expiry, marked revoked.
pub proof fn lemma_revoke_ends_access_and_keeps_record(
    s: ContractState,
    admin: Address,
    community_id: u64,
    member: Address,
)
    requires
        revoke_step(s, admin, community_id, member).0 is Ok,
    ensures
        !access(revoke_step(s, admin, community_id, member).1, member@, community_id),
        role_of(s, community_id, member@) matches Some(prev) && role_of(
            revoke_step(s, admin, community_id, member).1,
            community_id,
            member@,
        ) matches Some(new) && new.revoked && new.role == prev.role && new.expires_at
            == prev.expires_at,
{
}

/// Revoking twice is the same as revoking once: the second revoke succeeds,
/// changes nothing and publishes no event.
pub proof fn lemma_revoke_is_idempotent(
    s: ContractState,
    admin: Address,
    community_id: u64,
    member: Address,
)
    requires
        revoke_step(s, admin, community_id, member).0 is Ok,
    ensures
        revoke_step(revoke_step(s, admin, community_id, member).1, admin, community_id, member) == (
            Ok::<(), Error>(()),
            revoke_step(s, admin, community_id, member).1,
        ),
{
}

/// A revoked role can be granted again: after a revoke and a grant by the
/// community admin, the record is active again, and the wallet has access
/// exactly when there is no expiry or the ledger time is before it.
pub proof fn lemma_regrant_after_revoke(
    s: ContractState,
    admin: Address,
    community_id: u64,
    member: Address,
    role: Symbol,
    expires_at: Option<u64>,
)
    requires
        revoke_step(s, admin, community_id, member).0 is Ok,
    ensures
        grant_step(
            revoke_step(s, admin, community_id, member).1,
            admin,
            community_id,
            member,
            role,
            expires_at,
        ).0 is Ok,
        role_of(
            grant_step(
                revoke_step(s, admin, community_id, member).1,
                admin,
                community_id,
                member,
                role,
                expires_at,
            ).1,
            community_id,
            member@,
        ) matches Some(r) && !r.revoked && r.role@ == role@,
        access(
            grant_step(
                revoke_step(s, admin, community_id, member).1,
                admin,
                community_id,
                member,
                role,
                expires_at,
            ).1,
            member@,
            community_id,
        ) <==> match expires_at {
            Some(exp) => s.timestamp < exp,
            None => true,
        },
{
}

/// Access does not come back with time: a record that gives access at some
/// ledger time gives access at every earlier time.
pub proof fn lemma_access_only_expires(record: Option<RoleRecord>, earlier: u64, later: u64)
    requires
        earlier <= later,
        grants_access(record, later),
    ensures
        grants_access(record, earlier),
{
}

/// Only the wallet's own record decides its access: access is given exactly
/// when a record exists that is neither revoked nor expired.
pub proof fn lemma_access_is_active_record(s: ContractState, member: Seq<char>, community_id: u64)
    ensures
        access(s, member, community_id) <==> (role_of(s, community_id, member) matches Some(r)
            && record_is_active(r, s.timestamp)),
{
}

/// One operation on the contract, with its arguments: the requests that change
/// state, and the ledger clock moving.
pub enum Operation {
    CreateCommunity { admin: Address, name: Symbol },
    GrantRole {
        admin: Address,
        community_id: u64,
        member: Address,
        role: Symbol,
        expires_at: Option<u64>,
    },
    RevokeRole { admin: Address, community_id: u64, member: Address },
    Upgrade { caller: Address, wasm_hash: [u8; 32] },
    SetLedgerTimestamp { timestamp: u64 },
}

/// The state after one operation.
pub open spec fn after(s: ContractState, op: Operation) -> ContractState {
    match op {
        Operation::CreateCommunity { admin, name } => create_step(s, admin, name).1,
        Operation::GrantRole { admin, community_id, member, role, expires_at } => grant_step(
            s,
            admin,
            community_id,
            member,
            role,
            expires_at,
        ).1,
        Operation::RevokeRole { admin, community_id, member } => revoke_step(
            s,
            admin,
            community_id,
            member,
        ).1,
        Operation::Upgrade { caller, wasm_hash } => upgrade_step(s, caller, wasm_hash).1,
        Operation::SetLedgerTimestamp { timestamp } => clock_step(s, timestamp),
    }
}

/// The state after the operations `ops`, in order.
pub open spec fn run(s: ContractState, ops: Seq<Operation>) -> ContractState
    decreases ops.len(),
{
    if ops.len() == 0 {
        s
    } else {
        run(after(s, ops[0]), ops.drop_first())
    }
}

/// Whether `op` is a grant (or, when `revokes` holds, a revoke) for the wallet
/// with address text `member` in community `community_id`.
pub open spec fn targets_role(op: Operation, community_id: u64, member: Seq<char>, revokes: bool) -> bool {
    match op {
        Operation::GrantRole { community_id: c, member: m, .. } => c == community_id && m@ == member,
        Operation::RevokeRole { community_id: c, member: m, .. } => revokes && c == community_id
            && m@ == member,
        _ => false,
    }
}

/// Whether `op` is a grant or revoke that is refused in state `s`.
pub open spec fn refused(s: ContractState, op: Operation) -> bool {
    match op {
        Operation::GrantRole { admin, community_id, member, role, expires_at } => grant_step(
            s,
            admin,
            community_id,
            member,
            role,
            expires_at,
        ).0 is Err,
        Operation::RevokeRole { admin, community_id, member } => revoke_step(
            s,
            admin,
            community_id,
            member,
        ).0 is Err,
        _ => false,
    }
}

/// Along `ops` from `s`, every grant (and, when `revokes` holds, every revoke)
/// for that wallet in that community is refused.
pub open spec fn role_left_alone(
    s: ContractState,
    ops: Seq<Operation>,
    community_id: u64,
    member: Seq<char>,
    revokes: bool,
) -> bool
    decreases ops.len(),
{
    if ops.len() == 0 {
        true
    } else {
        &&& (targets_role(ops[0], community_id, member, revokes) ==> refused(s, ops[0]))
        &&& role_left_alone(after(s, ops[0]), ops.drop_first(), community_id, member, revokes)
    }
}

/// Operations that do not successfully grant or revoke a wallet's role in a
/// community leave its record as it was.
pub proof fn lemma_record_kept(s: ContractState, ops: Seq<Operation>, community_id: u64, member: Seq<char>)
    requires
        role_left_alone(s, ops, community_id, member, true),
    ensures
        role_of(run(s, ops), community_id, member) == role_of(s, community_id, member),
    decreases ops.len(),
{
    if ops.len() > 0 {
        lemma_one_operation_keeps_record(s, ops[0], community_id, member, true);
        lemma_record_kept(after(s, ops[0]), ops.drop_first(), community_id, member);
    }
}

/// One operation that does not successfully grant (or, when `revokes` holds,
/// revoke) a wallet's role in a community leaves its record as it was, except
/// that a revoke of an already revoked record changes nothing either.
proof fn lemma_one_operation_keeps_record(
    s: ContractState,
    op: Operation,
    community_id: u64,
    member: Seq<char>,
    revokes: bool,
)
    requires
        targets_role(op, community_id, member, revokes) ==> refused(s, op),
        !revokes ==> (role_of(s, community_id, member) matches Some(r) && r.revoked),
    ensures
        role_of(after(s, op), community_id, member) == role_of(s, community_id, member),
{
    match op {
        Operation::GrantRole { admin, community_id: c, member: m, role, expires_at } => {
            if c == community_id && m@ == member {
            } else {
                assert((c, m@) != (community_id, member));
            }
        },
        Operation::RevokeRole { admin, community_id: c, member: m } => {
            if c == community_id && m@ == member {
            } else {
                assert((c, m@) != (community_id, member));
            }
        },
        _ => {},
    }
}

/// A grant holds until it is replaced: after a grant that succeeds, and any
/// later operations (other communities and wallets, upgrades, the clock
/// moving) among which no grant or revoke for that wallet in that community
/// succeeds, the wallet has access exactly when the role has no expiry or the
/// ledger time is before it.
pub proof fn lemma_access_after_grant_persists(
    s: ContractState,
    admin: Address,
    community_id: u64,
    member: Address,
    role: Symbol,
    expires_at: Option<u64>,
    later: Seq<Operation>,
)
    requires
        grant_step(s, admin, community_id, member, role, expires_at).0 is Ok,
        role_left_alone(
            grant_step(s, admin, community_id, member, role, expires_at).1,
            later,
            community_id,
            member@,
            true,
        ),
    ensures
        access(run(grant_step(s, admin, community_id, member, role, expires_at).1, later), member@, community_id)
            <==> match expires_at {
            Some(exp) => run(grant_step(s, admin, community_id, member, role, expires_at).1, later).timestamp < exp,
            None => true,
        },
{
    let s1 = grant_step(s, admin, community_id, member, role, expires_at).1;
    lemma_record_kept(s1, later, community_id, member@);
}

/// Operations among which no grant for a wallet in a community succeeds keep
/// its revoked record revoked.
proof fn lemma_revoked_record_kept(s: ContractState, ops: Seq<Operation>, community_id: u64, member: Seq<char>)
    requires
        role_of(s, community_id, member) matches Some(r) && r.revoked,
        role_left_alone(s, ops, community_id, member, false),
    ensures
        role_of(run(s, ops), community_id, member) == role_of(s, community_id, member),
    decreases ops.len(),
{
    if ops.len() > 0 {
        lemma_one_operation_keeps_record(s, ops[0], community_id, member, false);
        lemma_revoked_record_kept(after(s, ops[0]), ops.drop_first(), community_id, member);
    }
}

/// A revoke holds until a new grant: after a revoke that succeeds, and any
/// later operations among which no grant for that wallet in that community
/// succeeds, the wallet has no access, whatever the ledger time, and its
/// record is still there, marked revoked.
pub proof fn lemma_revoke_persists(
    s: ContractState,
    admin: Address,
    community_id: u64,
    member: Address,
    later: Seq<Operation>,
)
    requires
        revoke_step(s, admin, community_id, member).0 is Ok,
        role_left_alone(revoke_step(s, admin, community_id, member).1, later, community_id, member@, false),
    ensures
        !access(run(revoke_step(s, admin, community_id, member).1, later), member@, community_id),
        role_of(run(revoke_step(s, admin, community_id, member).1, later), community_id, member@)
            matches Some(r) && r.revoked,
{
    let s1 = revoke_step(s, admin, community_id, member).1;
    lemma_revoked_record_kept(s1, later, community_id, member@);
}

/// A revoke by the community admin of a record that is not revoked succeeds,
/// whatever the record's expiry and the ledger time: the record is kept with
/// its role and expiry, marked revoked and stamped with the ledger time, and
/// `role_revoked` is published; nothing else changes.
pub proof fn lemma_revoke_marks_record_revoked(
    s: ContractState,
    admin: Address,
    community_id: u64,
    member: Address,
    prev: RoleRecord,
)
    requires
        community_of(s, community_id) matches Some(c) && c.admin@ == admin@,
        role_of(s, community_id, member@) == Some(prev),
        !prev.revoked,
    ensures
        revoke_step(s, admin, community_id, member).0 == Ok::<(), Error>(()),
        revoke_step(s, admin, community_id, member).1 == (ContractState {
            memberships: s.memberships.insert(
                (community_id, member@),
                RoleRecord {
                    role: prev.role,
                    expires_at: prev.expires_at,
                    revoked: true,
                    updated_at: s.timestamp,
                },
            ),
            events: s.events.push(
                ContractEvent::RoleRevoked(RoleRevoked { community_id, member }),
            ),
            ..s
        }),
{
}

/// A revoke is refused with `MemberNotFound` exactly when the community exists,
/// the caller is its admin, and the wallet holds no record there.
pub proof fn lemma_revoke_member_not_found(
    s: ContractState,
    admin: Address,
    community_id: u64,
    member: Address,
)
    ensures
        (revoke_step(s, admin, community_id, member).0 == Err::<(), Error>(Error::MemberNotFound))
            <==> (community_of(s, community_id) matches Some(c) && c.admin@ == admin@ && role_of(
            s,
            community_id,
            member@,
        ) is None),
{
}

/// An identical grant is a no-op at any ledger time: when the wallet holds a
/// record that is not revoked and has the requested role and expiry, a grant
/// by the community admin succeeds and leaves the whole state (records, their
/// times, events) as it was, whatever the record's `updated_at`.
pub proof fn lemma_identical_grant_changes_nothing(
    s: ContractState,
    admin: Address,
    community_id: u64,
    member: Address,
    role: Symbol,
    expires_at: Option<u64>,
    prev: RoleRecord,
)
    requires
        community_of(s, community_id) matches Some(c) && c.admin@ == admin@,
        role_of(s, community_id, member@) == Some(prev),
        !prev.revoked,
        prev.role@ == role@,
        prev.expires_at == expires_at,
    ensures
        grant_step(s, admin, community_id, member, role, expires_at) == (Ok::<(), Error>(()), s),
{
}

/// Every record that a grant writes, new or replacing, holds the requested
/// role and expiry, is not revoked, and is stamped with the ledger time of the
/// grant; only that record and the events change.
pub proof fn lemma_grant_writes_stamped_record(
    s: ContractState,
    admin: Address,
    community_id: u64,
    member: Address,
    role: Symbol,
    expires_at: Option<u64>,
)
    requires
        community_of(s, community_id) matches Some(c) && c.admin@ == admin@,
        !(role_of(s, community_id, member@) matches Some(prev) && !prev.revoked && prev.role@
            == role@ && prev.expires_at == expires_at),
    ensures
        grant_step(s, admin, community_id, member, role, expires_at).0 == Ok::<(), Error>(()),
        grant_step(s, admin, community_id, member, role, expires_at).1.memberships
            == s.memberships.insert(
            (community_id, member@),
            RoleRecord { role, expires_at, revoked: false, updated_at: s.timestamp },
        ),
        grant_step(s, admin, community_id, member, role, expires_at).1 == (ContractState {
            memberships: grant_step(s, admin, community_id, member, role, expires_at).1.memberships,
            events: grant_step(s, admin, community_id, member, role, expires_at).1.events,
            ..s
        }),
        grant_step(s, admin, community_id, member, role, expires_at).1.events.len() == s.events.len()
            + 1,
{
}

/// An upgrade by the upgrade admin installs exactly the requested code hash
/// and publishes `contract_upgraded` with it, whatever was installed before;
/// one by anyone else is refused with `UpgradeNotAuthorized` and changes nothing.
pub proof fn lemma_upgrade_installs_requested_code(s: ContractState, caller: Address, wasm_hash: [u8; 32])
    ensures
        caller@ == s.upgrade_admin@ ==> upgrade_step(s, caller, wasm_hash) == (
            Ok::<(), Error>(()),
            ContractState {
                wasm_hash: Some(wasm_hash),
                events: s.events.push(
                    ContractEvent::ContractUpgraded(ContractUpgraded { wasm_hash }),
                ),
                ..s
            },
        ),
        caller@ != s.upgrade_admin@ ==> upgrade_step(s, caller, wasm_hash) == (
            Err::<(), Error>(Error::UpgradeNotAuthorized),
            s,
        ),
{
}

/// Two upgrades in a row leave the second hash installed.
pub proof fn lemma_last_upgrade_wins(s: ContractState, first: [u8; 32], second: [u8; 32])
    ensures
        upgrade_step(upgrade_step(s, s.upgrade_admin, first).1, s.upgrade_admin, second).1.wasm_hash
            == Some(second),
{
}

/// The decision on creating a community, for a caller other than the upgrade
/// admin: the community gets the identifier after the stored counter (one when
/// none is stored), its creator, its name and the time, and the event carries
/// that same identifier, creator and name.
pub proof fn lemma_creation_decision(
    stored_next: Option<u64>,
    upgrade_admin: Option<Address>,
    admin: Address,
    name: Symbol,
    now: u64,
)
    requires
        !(upgrade_admin matches Some(u) && u@ == admin@),
        next_identifier(stored_next) <= u64::MAX,
    ensures
        community_creation(stored_next, upgrade_admin, admin, name, now) == Ok::<
            (Community, CommunityCreated),
            Error,
        >(
            (
                Community {
                    id: (match stored_next {
                        Some(n) => n + 1,
                        None => 1,
                    }) as u64,
                    admin,
                    name,
                    created_at: now,
                },
                CommunityCreated {
                    community_id: (match stored_next {
                        Some(n) => n + 1,
                        None => 1,
                    }) as u64,
                    admin,
                    name,
                },
            ),
        ),
        upgrade_admin matches Some(u) && u@ == admin@ ==> community_creation(
            stored_next,
            upgrade_admin,
            admin,
            name,
            now,
        ) == Err::<(Community, CommunityCreated), Error>(Error::UpgradeAdminCannotCreate),
{
}

/// The decision on a grant by the community admin: an identical active record
/// gives `Unchanged` at any time; otherwise the record to write has the
/// requested role and expiry, is not revoked and carries the time `now`, and
/// the event names the community, the member, the role and the expiry (and
/// the old role when a record is replaced).
pub proof fn lemma_grant_decision_by_admin(
    c: Community,
    admin: Address,
    community_id: u64,
    member: Address,
    existing: Option<RoleRecord>,
    role: Symbol,
    expires_at: Option<u64>,
    now: u64,
)
    requires
        c.admin@ == admin@,
    ensures
        match existing {
            None => grant_decision(Some(c), admin, community_id, member, existing, role, expires_at, now)
                == Ok::<GrantDecision, Error>(
                GrantDecision::Granted {
                    record: RoleRecord { role, expires_at, revoked: false, updated_at: now },
                    event: RoleGranted { community_id, member, role, expires_at },
                },
            ),
            Some(prev) => if !prev.revoked && prev.role@ == role@ && prev.expires_at == expires_at {
                grant_decision(Some(c), admin, community_id, member, existing, role, expires_at, now)
                    == Ok::<GrantDecision, Error>(GrantDecision::Unchanged)
            } else {
                grant_decision(Some(c), admin, community_id, member, existing, role, expires_at, now)
                    == Ok::<GrantDecision, Error>(
                    GrantDecision::Updated {
                        record: RoleRecord { role, expires_at, revoked: false, updated_at: now },
                        event: RoleUpdated {
                            community_id,
                            member,
                            old_role: prev.role,
                            role,
                            expires_at,
                        },
                    },
                )
            },
        },
{
}

/// The decision on a revoke by the community admin: no record gives
/// `MemberNotFound`, a revoked one `Unchanged`, and any other record, whatever
/// its expiry and the time, is kept with its role and expiry, marked revoked
/// and stamped with `now`, with `role_revoked` to publish.
pub proof fn lemma_revoke_decision_by_admin(
    c: Community,
    admin: Address,
    community_id: u64,
    member: Address,
    existing: Option<RoleRecord>,
    now: u64,
)
    requires
        c.admin@ == admin@,
    ensures
        match existing {
            None => revoke_decision(Some(c), admin, community_id, member, existing, now) == Err::<
                RevokeDecision,
                Error,
            >(Error::MemberNotFound),
            Some(prev) => if prev.revoked {
                revoke_decision(Some(c), admin, community_id, member, existing, now) == Ok::<
                    RevokeDecision,
                    Error,
                >(RevokeDecision::Unchanged)
            } else {
                revoke_decision(Some(c), admin, community_id, member, existing, now) == Ok::<
                    RevokeDecision,
                    Error,
                >(
                    RevokeDecision::Revoked {
                        record: RoleRecord {
                            role: prev.role,
                            expires_at: prev.expires_at,
                            revoked: true,
                            updated_at: now,
                        },
                        event: RoleRevoked { community_id, member },
                    },
                )
            },
        },
{
}

/// The verdict on an upgrade: refused with `NotInitialized` when no upgrade
/// admin is stored, with `UpgradeNotAuthorized` when the caller is not it, and
/// otherwise the event carries exactly the requested hash.
pub proof fn lemma_upgrade_verdict(stored_admin: Option<Address>, caller: Address, wasm_hash: [u8; 32])
    ensures
        match stored_admin {
            None => upgrade_verdict(stored_admin, caller, wasm_hash) == Err::<ContractUpgraded, Error>(
                Error::NotInitialized,
            ),
            Some(a) => if a@ == caller@ {
                upgrade_verdict(stored_admin, caller, wasm_hash) == Ok::<ContractUpgraded, Error>(
                    ContractUpgraded { wasm_hash },
                )
            } else {
                upgrade_verdict(stored_admin, caller, wasm_hash) == Err::<ContractUpgraded, Error>(
                    Error::UpgradeNotAuthorized,
                )
            },
        },
{
}

} // verus!
