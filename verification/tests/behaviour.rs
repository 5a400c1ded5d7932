use stellarpass::contract::StellarPassContract;
use stellarpass::rules::{
    access_granted, authorize_upgrade, check_initialization, decide_grant, decide_revoke,
    plan_community,
    GrantDecision, RevokeDecision,
};
use stellarpass::types::{Address, Community, ContractEvent, Error, RoleRecord, Symbol};

fn addr(text: &str) -> Address {
    Address::from_str(text)
}

fn guild(admin: &Address) -> (StellarPassContract, u64) {
    let mut contract = StellarPassContract::__constructor(addr("GUPGRADE"));
    let id = contract.create_community(admin.clone(), Symbol::new("Guild")).unwrap();
    (contract, id)
}

fn record(role: &str, expires_at: Option<u64>, revoked: bool, updated_at: u64) -> RoleRecord {
    RoleRecord { role: Symbol::new(role), expires_at, revoked, updated_at }
}

#[test]
fn creation_records_creator_name_and_time() {
    let admin = addr("GADMIN");
    let mut contract = StellarPassContract::__constructor(addr("GUPGRADE"));
    contract.set_ledger_timestamp(77);
    let id = contract.create_community(admin.clone(), Symbol::new("Guild")).unwrap();
    assert_eq!(id, 1);
    assert_eq!(contract.next_community_id(), 1);
    let community = contract.get_community(id).unwrap().unwrap();
    assert_eq!(community.id, 1);
    assert_eq!(community.admin, admin);
    assert_eq!(community.name, Symbol::new("Guild"));
    assert_eq!(community.created_at, 77);
    match &contract.events()[0] {
        ContractEvent::CommunityCreated(e) => {
            assert_eq!(e.community_id, 1);
            assert_eq!(e.admin, admin);
            assert_eq!(e.name, Symbol::new("Guild"));
        }
        other => panic!("unexpected event {:?}", other),
    }
}

#[test]
fn unknown_community_is_absent() {
    let (contract, _) = guild(&addr("GADMIN"));
    assert!(contract.get_community(0).unwrap().is_none());
    assert!(contract.get_community(2).unwrap().is_none());
}

#[test]
fn grant_to_unknown_community_is_refused_and_changes_nothing() {
    let admin = addr("GADMIN");
    let (mut contract, _) = guild(&admin);
    let before = contract.events().len();
    let r = contract.grant_role(admin.clone(), 9, addr("GMEMBER"), Symbol::new("member"), None);
    assert_eq!(r, Err(Error::CommunityNotFound));
    assert_eq!(contract.events().len(), before);
    assert!(contract.get_role(addr("GMEMBER"), 9).unwrap().is_none());
}

#[test]
fn stranger_grant_is_refused_and_changes_nothing() {
    let admin = addr("GADMIN");
    let (mut contract, id) = guild(&admin);
    let r = contract.grant_role(addr("GSTRANGER"), id, addr("GMEMBER"), Symbol::new("member"), None);
    assert_eq!(r, Err(Error::NotCommunityAdmin));
    assert!(contract.get_role(addr("GMEMBER"), id).unwrap().is_none());
    assert_eq!(contract.events().len(), 1);
}

#[test]
fn upgrade_admin_cannot_administer_communities() {
    let admin = addr("GADMIN");
    let (mut contract, id) = guild(&admin);
    let r = contract.grant_role(addr("GUPGRADE"), id, addr("GMEMBER"), Symbol::new("member"), None);
    assert_eq!(r, Err(Error::NotCommunityAdmin));
    let r = contract.revoke_role(addr("GUPGRADE"), id, addr("GMEMBER"));
    assert_eq!(r, Err(Error::NotCommunityAdmin));
}

#[test]
fn upgrade_admin_cannot_create_communities() {
    let admin = addr("GADMIN");
    let (mut contract, _) = guild(&admin);
    let r = contract.create_community(addr("GUPGRADE"), Symbol::new("Mine"));
    assert_eq!(r, Err(Error::UpgradeAdminCannotCreate));
    assert_eq!(contract.next_community_id(), 1);
    assert_eq!(contract.events().len(), 1);
    assert!(contract.get_community(2).unwrap().is_none());
    let r = contract.grant_role(addr("GUPGRADE"), 2, addr("GMEMBER"), Symbol::new("member"), None);
    assert_eq!(r, Err(Error::CommunityNotFound));
}

#[test]
fn first_grant_publishes_role_granted() {
    let admin = addr("GADMIN");
    let (mut contract, id) = guild(&admin);
    contract.set_ledger_timestamp(5);
    contract
        .grant_role(admin.clone(), id, addr("GMEMBER"), Symbol::new("member"), Some(50))
        .unwrap();
    assert_eq!(contract.events().len(), 2);
    match &contract.events()[1] {
        ContractEvent::RoleGranted(e) => {
            assert_eq!(e.community_id, id);
            assert_eq!(e.member, addr("GMEMBER"));
            assert_eq!(e.role, Symbol::new("member"));
            assert_eq!(e.expires_at, Some(50));
        }
        other => panic!("unexpected event {:?}", other),
    }
    let r = contract.get_role(addr("GMEMBER"), id).unwrap().unwrap();
    assert_eq!(r.role, Symbol::new("member"));
    assert_eq!(r.expires_at, Some(50));
    assert!(!r.revoked);
    assert_eq!(r.updated_at, 5);
}

#[test]
fn identical_grant_publishes_nothing_and_keeps_record() {
    let admin = addr("GADMIN");
    let (mut contract, id) = guild(&admin);
    contract
        .grant_role(admin.clone(), id, addr("GMEMBER"), Symbol::new("member"), None)
        .unwrap();
    contract.set_ledger_timestamp(30);
    contract
        .grant_role(admin.clone(), id, addr("GMEMBER"), Symbol::new("member"), None)
        .unwrap();
    assert_eq!(contract.events().len(), 2);
    assert_eq!(contract.get_role(addr("GMEMBER"), id).unwrap().unwrap().updated_at, 0);
}

#[test]
fn changed_role_publishes_role_updated_with_old_role() {
    let admin = addr("GADMIN");
    let (mut contract, id) = guild(&admin);
    contract
        .grant_role(admin.clone(), id, addr("GMEMBER"), Symbol::new("member"), None)
        .unwrap();
    contract.set_ledger_timestamp(12);
    contract
        .grant_role(admin.clone(), id, addr("GMEMBER"), Symbol::new("moderator"), Some(99))
        .unwrap();
    assert_eq!(contract.events().len(), 3);
    match &contract.events()[2] {
        ContractEvent::RoleUpdated(e) => {
            assert_eq!(e.old_role, Symbol::new("member"));
            assert_eq!(e.role, Symbol::new("moderator"));
            assert_eq!(e.expires_at, Some(99));
        }
        other => panic!("unexpected event {:?}", other),
    }
    assert_eq!(contract.get_role(addr("GMEMBER"), id).unwrap().unwrap().updated_at, 12);
}

#[test]
fn changed_expiry_alone_publishes_role_updated() {
    let admin = addr("GADMIN");
    let (mut contract, id) = guild(&admin);
    contract
        .grant_role(admin.clone(), id, addr("GMEMBER"), Symbol::new("member"), None)
        .unwrap();
    contract
        .grant_role(admin.clone(), id, addr("GMEMBER"), Symbol::new("member"), Some(10))
        .unwrap();
    assert!(matches!(contract.events()[2], ContractEvent::RoleUpdated(_)));
}

#[test]
fn revoke_then_revoke_again_changes_nothing() {
    let admin = addr("GADMIN");
    let (mut contract, id) = guild(&admin);
    contract
        .grant_role(admin.clone(), id, addr("GMEMBER"), Symbol::new("member"), Some(40))
        .unwrap();
    contract.set_ledger_timestamp(8);
    contract.revoke_role(admin.clone(), id, addr("GMEMBER")).unwrap();
    assert_eq!(contract.events().len(), 3);
    match &contract.events()[2] {
        ContractEvent::RoleRevoked(e) => {
            assert_eq!(e.community_id, id);
            assert_eq!(e.member, addr("GMEMBER"));
        }
        other => panic!("unexpected event {:?}", other),
    }
    let r = contract.get_role(addr("GMEMBER"), id).unwrap().unwrap();
    assert!(r.revoked);
    assert_eq!(r.role, Symbol::new("member"));
    assert_eq!(r.expires_at, Some(40));
    assert_eq!(r.updated_at, 8);

    contract.set_ledger_timestamp(9);
    contract.revoke_role(admin.clone(), id, addr("GMEMBER")).unwrap();
    assert_eq!(contract.events().len(), 3);
    assert_eq!(contract.get_role(addr("GMEMBER"), id).unwrap().unwrap().updated_at, 8);
}

#[test]
fn revoke_of_unknown_member_is_refused() {
    let admin = addr("GADMIN");
    let (mut contract, id) = guild(&admin);
    assert_eq!(
        contract.revoke_role(admin.clone(), id, addr("GMEMBER")),
        Err(Error::MemberNotFound)
    );
    assert_eq!(
        contract.revoke_role(admin.clone(), 7, addr("GMEMBER")),
        Err(Error::CommunityNotFound)
    );
    assert_eq!(
        contract.revoke_role(addr("GSTRANGER"), id, addr("GMEMBER")),
        Err(Error::NotCommunityAdmin)
    );
}

#[test]
fn regrant_of_same_role_after_revoke_publishes_role_updated() {
    let admin = addr("GADMIN");
    let (mut contract, id) = guild(&admin);
    contract
        .grant_role(admin.clone(), id, addr("GMEMBER"), Symbol::new("member"), None)
        .unwrap();
    contract.revoke_role(admin.clone(), id, addr("GMEMBER")).unwrap();
    contract
        .grant_role(admin.clone(), id, addr("GMEMBER"), Symbol::new("member"), None)
        .unwrap();
    assert_eq!(contract.events().len(), 4);
    assert!(matches!(contract.events()[3], ContractEvent::RoleUpdated(_)));
    assert!(contract.has_access(addr("GMEMBER"), id).unwrap());
}

#[test]
fn roles_are_kept_per_community_and_member() {
    let admin = addr("GADMIN");
    let (mut contract, first) = guild(&admin);
    let second = contract.create_community(admin.clone(), Symbol::new("Other")).unwrap();
    contract
        .grant_role(admin.clone(), first, addr("GMEMBER"), Symbol::new("member"), None)
        .unwrap();
    assert!(contract.has_access(addr("GMEMBER"), first).unwrap());
    assert!(!contract.has_access(addr("GMEMBER"), second).unwrap());
    assert!(!contract.has_access(addr("GOTHER"), first).unwrap());
    contract
        .grant_role(admin.clone(), second, addr("GMEMBER"), Symbol::new("guest"), None)
        .unwrap();
    contract.revoke_role(admin.clone(), first, addr("GMEMBER")).unwrap();
    assert!(!contract.has_access(addr("GMEMBER"), first).unwrap());
    assert!(contract.has_access(addr("GMEMBER"), second).unwrap());
    assert_eq!(
        contract.get_role(addr("GMEMBER"), second).unwrap().unwrap().role,
        Symbol::new("guest")
    );
}

#[test]
fn access_does_not_come_back_with_time() {
    let admin = addr("GADMIN");
    let (mut contract, id) = guild(&admin);
    contract.set_ledger_timestamp(100);
    contract
        .grant_role(admin.clone(), id, addr("GMEMBER"), Symbol::new("member"), Some(100))
        .unwrap();
    assert!(!contract.has_access(addr("GMEMBER"), id).unwrap());
    contract.set_ledger_timestamp(99);
    assert!(contract.has_access(addr("GMEMBER"), id).unwrap());
    contract.set_ledger_timestamp(0);
    assert!(contract.has_access(addr("GMEMBER"), id).unwrap());
    assert_eq!(contract.ledger_timestamp(), 0);
}

#[test]
fn upgrade_by_upgrade_admin_records_code_and_event() {
    let mut contract = StellarPassContract::__constructor(addr("GUPGRADE"));
    assert_eq!(contract.wasm_hash(), None);
    assert_eq!(contract.upgrade(addr("GSTRANGER"), [1u8; 32]), Err(Error::UpgradeNotAuthorized));
    assert_eq!(contract.wasm_hash(), None);
    assert!(contract.events().is_empty());
    assert_eq!(contract.upgrade(addr("GUPGRADE"), [2u8; 32]), Ok(()));
    assert_eq!(contract.wasm_hash(), Some([2u8; 32]));
    match &contract.events()[0] {
        ContractEvent::ContractUpgraded(e) => assert_eq!(e.wasm_hash, [2u8; 32]),
        other => panic!("unexpected event {:?}", other),
    }
}

#[test]
fn access_rule_on_records() {
    assert!(!access_granted(&None, 0));
    assert!(access_granted(&Some(record("member", None, false, 0)), u64::MAX));
    assert!(!access_granted(&Some(record("member", None, true, 0)), 0));
    assert!(access_granted(&Some(record("member", Some(10), false, 0)), 9));
    assert!(!access_granted(&Some(record("member", Some(10), false, 0)), 10));
    assert!(!access_granted(&Some(record("member", Some(10), false, 0)), 11));
    assert!(!access_granted(&Some(record("member", Some(0), false, 0)), 0));
}

#[test]
fn grant_decisions() {
    let admin = addr("GADMIN");
    let community = Some(Community {
        id: 3,
        admin: admin.clone(),
        name: Symbol::new("Guild"),
        created_at: 0,
    });
    let d = decide_grant(&None, &admin, 3, addr("GM"), None, Symbol::new("member"), None, 4);
    assert_eq!(d.err(), Some(Error::CommunityNotFound));
    let d = decide_grant(&community, &addr("GX"), 3, addr("GM"), None, Symbol::new("member"), None, 4);
    assert_eq!(d.err(), Some(Error::NotCommunityAdmin));
    match decide_grant(&community, &admin, 3, addr("GM"), None, Symbol::new("member"), Some(8), 4) {
        Ok(GrantDecision::Granted { record, event }) => {
            assert_eq!(record.role, Symbol::new("member"));
            assert_eq!(record.expires_at, Some(8));
            assert!(!record.revoked);
            assert_eq!(record.updated_at, 4);
            assert_eq!(event.community_id, 3);
            assert_eq!(event.member, addr("GM"));
        }
        other => panic!("unexpected decision {:?}", other),
    }
    let same = Some(record("member", Some(8), false, 1));
    assert!(matches!(
        decide_grant(&community, &admin, 3, addr("GM"), same, Symbol::new("member"), Some(8), 4),
        Ok(GrantDecision::Unchanged)
    ));
    let revoked = Some(record("member", Some(8), true, 1));
    match decide_grant(&community, &admin, 3, addr("GM"), revoked, Symbol::new("member"), Some(8), 4) {
        Ok(GrantDecision::Updated { record, event }) => {
            assert!(!record.revoked);
            assert_eq!(event.old_role, Symbol::new("member"));
        }
        other => panic!("unexpected decision {:?}", other),
    }
}

#[test]
fn revoke_decisions() {
    let admin = addr("GADMIN");
    let community = Some(Community {
        id: 3,
        admin: admin.clone(),
        name: Symbol::new("Guild"),
        created_at: 0,
    });
    assert_eq!(
        decide_revoke(&None, &admin, 3, addr("GM"), None, 1).err(),
        Some(Error::CommunityNotFound)
    );
    assert_eq!(
        decide_revoke(&community, &addr("GX"), 3, addr("GM"), None, 1).err(),
        Some(Error::NotCommunityAdmin)
    );
    assert_eq!(
        decide_revoke(&community, &admin, 3, addr("GM"), None, 1).err(),
        Some(Error::MemberNotFound)
    );
    assert!(matches!(
        decide_revoke(&community, &admin, 3, addr("GM"), Some(record("member", None, true, 0)), 1),
        Ok(RevokeDecision::Unchanged)
    ));
    match decide_revoke(&community, &admin, 3, addr("GM"), Some(record("member", Some(5), false, 0)), 2) {
        Ok(RevokeDecision::Revoked { record, event }) => {
            assert!(record.revoked);
            assert_eq!(record.role, Symbol::new("member"));
            assert_eq!(record.expires_at, Some(5));
            assert_eq!(record.updated_at, 2);
            assert_eq!(event.member, addr("GM"));
        }
        other => panic!("unexpected decision {:?}", other),
    }
}

#[test]
fn community_plans_count_from_the_stored_counter() {
    let (c, e) = plan_community(None, &None, addr("GA"), Symbol::new("One"), 3).unwrap();
    assert_eq!(c.id, 1);
    assert_eq!(c.created_at, 3);
    assert_eq!(e.community_id, 1);
    let (c, _) =
        plan_community(Some(41), &Some(addr("GU")), addr("GA"), Symbol::new("More"), 3).unwrap();
    assert_eq!(c.id, 42);
    assert_eq!(c.admin, addr("GA"));
    assert_eq!(c.name, Symbol::new("More"));
    assert_eq!(
        plan_community(Some(41), &Some(addr("GU")), addr("GU"), Symbol::new("More"), 3).err(),
        Some(Error::UpgradeAdminCannotCreate)
    );
}

#[test]
fn initialization_happens_once() {
    assert_eq!(check_initialization(&None), Ok(()));
    assert_eq!(check_initialization(&Some(addr("GU"))), Err(Error::AlreadyInitialized));
}

#[test]
fn revoked_role_stays_without_access_over_time_and_other_operations() {
    let admin = addr("GADMIN");
    let (mut contract, id) = guild(&admin);
    contract
        .grant_role(admin.clone(), id, addr("GMEMBER"), Symbol::new("member"), None)
        .unwrap();
    contract.revoke_role(admin.clone(), id, addr("GMEMBER")).unwrap();
    contract
        .grant_role(admin.clone(), id, addr("GOTHER"), Symbol::new("member"), None)
        .unwrap();
    contract.create_community(admin.clone(), Symbol::new("Next")).unwrap();
    assert!(contract
        .grant_role(addr("GSTRANGER"), id, addr("GMEMBER"), Symbol::new("member"), None)
        .is_err());
    contract.revoke_role(admin.clone(), id, addr("GMEMBER")).unwrap();
    for t in [0u64, 10, u64::MAX] {
        contract.set_ledger_timestamp(t);
        assert!(!contract.has_access(addr("GMEMBER"), id).unwrap());
    }
    assert!(contract.get_role(addr("GMEMBER"), id).unwrap().unwrap().revoked);
}

#[test]
fn granted_role_holds_over_time_and_other_operations() {
    let admin = addr("GADMIN");
    let (mut contract, id) = guild(&admin);
    contract
        .grant_role(admin.clone(), id, addr("GMEMBER"), Symbol::new("member"), Some(500))
        .unwrap();
    contract
        .grant_role(admin.clone(), id, addr("GOTHER"), Symbol::new("member"), None)
        .unwrap();
    contract.revoke_role(admin.clone(), id, addr("GOTHER")).unwrap();
    contract.upgrade(addr("GUPGRADE"), [3u8; 32]).unwrap();
    contract.set_ledger_timestamp(499);
    assert!(contract.has_access(addr("GMEMBER"), id).unwrap());
    contract.set_ledger_timestamp(500);
    assert!(!contract.has_access(addr("GMEMBER"), id).unwrap());
}

#[test]
fn upgrade_verdicts() {
    assert_eq!(
        authorize_upgrade(&None, &addr("GA"), [0u8; 32]).err(),
        Some(Error::NotInitialized)
    );
    assert_eq!(
        authorize_upgrade(&Some(addr("GA")), &addr("GB"), [0u8; 32]).err(),
        Some(Error::UpgradeNotAuthorized)
    );
    assert_eq!(
        authorize_upgrade(&Some(addr("GA")), &addr("GA"), [7u8; 32]).unwrap().wasm_hash,
        [7u8; 32]
    );
}

#[test]
fn error_codes() {
    assert_eq!(Error::AlreadyInitialized.code(), 1);
    assert_eq!(Error::NotInitialized.code(), 2);
    assert_eq!(Error::CommunityNotFound.code(), 3);
    assert_eq!(Error::NotCommunityAdmin.code(), 4);
    assert_eq!(Error::MemberNotFound.code(), 5);
    assert_eq!(Error::UpgradeNotAuthorized.code(), 6);
    assert_eq!(Error::UpgradeAdminCannotCreate.code(), 7);
}

#[test]
fn addresses_and_symbols_compare_by_text() {
    assert_eq!(addr("GA"), Address::from_string(String::from("GA")));
    assert_ne!(addr("GA"), addr("GB"));
    assert_eq!(addr("GA").to_string(), "GA");
    assert_eq!(Symbol::from_string(String::from("x")), Symbol::new("x"));
    assert_eq!(Symbol::new("x").to_string(), "x");
    assert_ne!(Symbol::new("x"), Symbol::new("y"));
}
