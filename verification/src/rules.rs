//! The decisions of the contract, as functions from what was read from storage
//! (and the ledger time) to what is to be written and published.

use vstd::prelude::*;
use crate::types::{
    Address, Community, CommunityCreated, ContractUpgraded, Error, RoleGranted, RoleRecord,
    RoleRevoked, RoleUpdated, Symbol,
};

verus! {

/// A record gives access at `now` when it is not revoked and has not expired;
/// a record expires at the first ledger time that reaches `expires_at`.
pub open spec fn record_is_active(record: RoleRecord, now: u64) -> bool {
    &&& !record.revoked
    &&& match record.expires_at {
        Some(exp) => now < exp,
        None => true,
    }
}

/// Whether the record read for a wallet (if any) gives access at `now`.
pub open spec fn grants_access(record: Option<RoleRecord>, now: u64) -> bool {
    match record {
        Some(r) => record_is_active(r, now),
        None => false,
    }
}

/// Decides whether the record read for a wallet (if any) gives access at `now`.
pub fn access_granted(record: &Option<RoleRecord>, now: u64) -> (b: bool)
    ensures
        b == grants_access(*record, now),
{
    match record {
        None => false,
        Some(r) => {
            if r.revoked {
                return false;
            }
            match r.expires_at {
                Some(exp) => now < exp,
                None => true,
            }
        },
    }
}

/// What a grant request asks to be done once it has been checked.
#[derive(Debug)]
pub enum GrantDecision {
    /// The wallet already holds exactly this active role: nothing is written or published.
    Unchanged,
    /// The wallet held no record: write `record` and publish `event`.
    Granted { record: RoleRecord, event: RoleGranted },
    /// The wallet held a record: replace it with `record` and publish `event`.
    Updated { record: RoleRecord, event: RoleUpdated },
}

/// The decision on a grant of `role` (expiring at `expires_at`) to `member` in
/// community `community_id`, asked by `admin`, where `community` is what was
/// read for that community and `existing` the member's record, if any.
pub open spec fn grant_decision(
    community: Option<Community>,
    admin: Address,
    community_id: u64,
    member: Address,
    existing: Option<RoleRecord>,
    role: Symbol,
    expires_at: Option<u64>,
    now: u64,
) -> Result<GrantDecision, Error> {
    match community {
        None => Err(Error::CommunityNotFound),
        Some(c) => if c.admin@ != admin@ {
            Err(Error::NotCommunityAdmin)
        } else {
            let record = RoleRecord { role, expires_at, revoked: false, updated_at: now };
            match existing {
                Some(prev) => if !prev.revoked && prev.role@ == role@ && prev.expires_at == expires_at {
                    Ok(GrantDecision::Unchanged)
                } else {
                    Ok(
                        GrantDecision::Updated {
                            record,
                            event: RoleUpdated {
                                community_id,
                                member,
                                old_role: prev.role,
                                role,
                                expires_at,
                            },
                        },
                    )
                },
                None => Ok(
                    GrantDecision::Granted {
                        record,
                        event: RoleGranted { community_id, member, role, expires_at },
                    },
                ),
            }
        },
    }
}

/// Decides a grant request (see `grant_decision`).
pub fn decide_grant(
    community: &Option<Community>,
    admin: &Address,
    community_id: u64,
    member: Address,
    existing: Option<RoleRecord>,
    role: Symbol,
    expires_at: Option<u64>,
    now: u64,
) -> (d: Result<GrantDecision, Error>)
    ensures
        d == grant_decision(*community, *admin, community_id, member, existing, role, expires_at, now),
{
    let c = match community {
        None => {
            return Err(Error::CommunityNotFound);
        },
        Some(c) => c,
    };
    if c.admin != *admin {
        return Err(Error::NotCommunityAdmin);
    }
    let record = RoleRecord { role: role.clone(), expires_at, revoked: false, updated_at: now };
    match existing {
        Some(prev) => {
            if !prev.revoked && prev.role == role && prev.expires_at == expires_at {
                Ok(GrantDecision::Unchanged)
            } else {
                Ok(
                    GrantDecision::Updated {
                        record,
                        event: RoleUpdated {
                            community_id,
                            member,
                            old_role: prev.role,
                            role,
                            expires_at,
                        },
                    },
                )
            }
        },
        None => Ok(
            GrantDecision::Granted {
                record,
                event: RoleGranted { community_id, member, role, expires_at },
            },
        ),
    }
}

/// What a revoke request asks to be done once it has been checked.
#[derive(Debug)]
pub enum RevokeDecision {
    /// The record is already revoked: nothing is written or published.
    Unchanged,
    /// Replace the record with `record` (kept, marked revoked) and publish `event`.
    Revoked { record: RoleRecord, event: RoleRevoked },
}

/// The decision on revoking the role of `member` in community `community_id`,
/// asked by `admin`, where `community` is what was read for that community and
/// `existing` the member's record, if any.
pub open spec fn revoke_decision(
    community: Option<Community>,
    admin: Address,
    community_id: u64,
    member: Address,
    existing: Option<RoleRecord>,
    now: u64,
) -> Result<RevokeDecision, Error> {
    match community {
        None => Err(Error::CommunityNotFound),
        Some(c) => if c.admin@ != admin@ {
            Err(Error::NotCommunityAdmin)
        } else {
            match existing {
                None => Err(Error::MemberNotFound),
                Some(prev) => if prev.revoked {
                    Ok(RevokeDecision::Unchanged)
                } else {
                    Ok(
                        RevokeDecision::Revoked {
                            record: RoleRecord { revoked: true, updated_at: now, ..prev },
                            event: RoleRevoked { community_id, member },
                        },
                    )
                },
            }
        },
    }
}

/// Decides a revoke request (see `revoke_decision`).
pub fn decide_revoke(
    community: &Option<Community>,
    admin: &Address,
    community_id: u64,
    member: Address,
    existing: Option<RoleRecord>,
    now: u64,
) -> (d: Result<RevokeDecision, Error>)
    ensures
        d == revoke_decision(*community, *admin, community_id, member, existing, now),
{
    let c = match community {
        None => {
            return Err(Error::CommunityNotFound);
        },
        Some(c) => c,
    };
    if c.admin != *admin {
        return Err(Error::NotCommunityAdmin);
    }
    match existing {
        None => Err(Error::MemberNotFound),
        Some(prev) => {
            if prev.revoked {
                Ok(RevokeDecision::Unchanged)
            } else {
                let record = RoleRecord {
                    role: prev.role,
                    expires_at: prev.expires_at,
                    revoked: true,
                    updated_at: now,
                };
                Ok(
                    RevokeDecision::Revoked {
                        record,
                        event: RoleRevoked { community_id, member },
                    },
                )
            }
        },
    }
}

/// The identifier that the next community gets, given the counter read from
/// storage (a missing counter counts as zero).
pub open spec fn next_identifier(stored_next: Option<u64>) -> int {
    match stored_next {
        Some(n) => n + 1,
        None => 1,
    }
}

/// The decision on a request by `admin` to create a community named `name`,
/// given the counter and the upgrade admin read from storage (if any). The
/// upgrade admin may replace code only, so its request is refused; any other
/// wallet gets a community with the next identifier, which is also the new
/// value of the counter, and the event to publish.
pub open spec fn community_creation(
    stored_next: Option<u64>,
    upgrade_admin: Option<Address>,
    admin: Address,
    name: Symbol,
    now: u64,
) -> Result<(Community, CommunityCreated), Error> {
    if upgrade_admin matches Some(u) && u@ == admin@ {
        Err(Error::UpgradeAdminCannotCreate)
    } else {
        let id = next_identifier(stored_next) as u64;
        Ok(
            (
                Community { id, admin, name, created_at: now },
                CommunityCreated { community_id: id, admin, name },
            ),
        )
    }
}

/// Decides a creation request (see `community_creation`).
/// The counter must not be at its largest value, where the increment overflows.
pub fn plan_community(
    stored_next: Option<u64>,
    upgrade_admin: &Option<Address>,
    admin: Address,
    name: Symbol,
    now: u64,
) -> (r: Result<(Community, CommunityCreated), Error>)
    requires
        next_identifier(stored_next) <= u64::MAX,
    ensures
        r == community_creation(stored_next, *upgrade_admin, admin, name, now),
{
    if let Some(u) = upgrade_admin {
        if *u == admin {
            return Err(Error::UpgradeAdminCannotCreate);
        }
    }
    let next = match stored_next {
        Some(n) => n,
        None => 0,
    };
    let id = next + 1;
    let event = CommunityCreated { community_id: id, admin: admin.clone(), name: name.clone() };
    Ok((Community { id, admin, name, created_at: now }, event))
}

/// Whether the contract may be initialized, given the upgrade admin read from
/// storage: only once, while none is stored.
pub fn check_initialization(stored_admin: &Option<Address>) -> (r: Result<(), Error>)
    ensures
        r == (if stored_admin is Some {
            Err::<(), Error>(Error::AlreadyInitialized)
        } else {
            Ok(())
        }),
{
    match stored_admin {
        Some(_) => Err(Error::AlreadyInitialized),
        None => Ok(()),
    }
}

/// The verdict on an upgrade request from `caller`, given the upgrade admin
/// read from storage (if any).
pub open spec fn upgrade_verdict(stored_admin: Option<Address>, caller: Address, wasm_hash: [u8; 32]) -> Result<
    ContractUpgraded,
    Error,
> {
    match stored_admin {
        None => Err(Error::NotInitialized),
        Some(a) => if a@ != caller@ {
            Err(Error::UpgradeNotAuthorized)
        } else {
            Ok(ContractUpgraded { wasm_hash })
        },
    }
}

/// Checks an upgrade request (see `upgrade_verdict`).
pub fn authorize_upgrade(stored_admin: &Option<Address>, caller: &Address, wasm_hash: [u8; 32]) -> (r: Result<
    ContractUpgraded,
    Error,
>)
    ensures
        r == upgrade_verdict(*stored_admin, *caller, wasm_hash),
{
    match stored_admin {
        None => Err(Error::NotInitialized),
        Some(a) => {
            if *a != *caller {
                Err(Error::UpgradeNotAuthorized)
            } else {
                Ok(ContractUpgraded { wasm_hash })
            }
        },
    }
}

} // verus!
