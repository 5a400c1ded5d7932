//! The values that the membership registry stores and reports: addresses,
//! symbols, communities, role records, storage keys, errors and events.

use vstd::prelude::*;
use vstd::std_specs::cmp::PartialEqSpecImpl;

verus! {

/// A wallet or contract address, held as its strkey text (`G...` or `C...`).
/// Two addresses are the same when their texts are the same.
#[derive(Debug)]
pub struct Address {
    strkey: String,
}

impl View for Address {
    type V = Seq<char>;

    closed spec fn view(&self) -> Seq<char> {
        self.strkey@
    }
}

impl Address {
    /// An address from its strkey text.
    pub fn from_string(strkey: String) -> (a: Address)
        ensures
            a@ == strkey@,
    {
        Address { strkey }
    }

    /// An address from its strkey text.
    pub fn from_str(strkey: &str) -> (a: Address)
        ensures
            a@ == strkey@,
    {
        Address { strkey: strkey.to_owned() }
    }

    /// The strkey text of the address.
    pub fn to_string(&self) -> (s: String)
        ensures
            s@ == self@,
    {
        self.strkey.clone()
    }
}

impl Clone for Address {
    fn clone(&self) -> (res: Self)
        ensures
            res == *self,
    {
        Address { strkey: self.strkey.clone() }
    }
}

impl PartialEq for Address {
    fn eq(&self, other: &Self) -> (res: bool) {
        self.strkey == other.strkey
    }
}

impl PartialEqSpecImpl for Address {
    open spec fn obeys_eq_spec() -> bool {
        true
    }

    open spec fn eq_spec(&self, other: &Address) -> bool {
        self@ == other@
    }
}

impl Eq for Address {
}

/// A short name (a community name or a role), held as its text.
/// Two symbols are the same when their texts are the same.
#[derive(Debug)]
pub struct Symbol {
    text: String,
}

impl View for Symbol {
    type V = Seq<char>;

    closed spec fn view(&self) -> Seq<char> {
        self.text@
    }
}

impl Symbol {
    /// A symbol with the given text.
    pub fn new(text: &str) -> (s: Symbol)
        ensures
            s@ == text@,
    {
        Symbol { text: text.to_owned() }
    }

    /// A symbol with the given text.
    pub fn from_string(text: String) -> (s: Symbol)
        ensures
            s@ == text@,
    {
        Symbol { text }
    }

    /// The text of the symbol.
    pub fn to_string(&self) -> (s: String)
        ensures
            s@ == self@,
    {
        self.text.clone()
    }
}

impl Clone for Symbol {
    fn clone(&self) -> (res: Self)
        ensures
            res == *self,
    {
        Symbol { text: self.text.clone() }
    }
}

impl PartialEq for Symbol {
    fn eq(&self, other: &Self) -> (res: bool) {
        self.text == other.text
    }
}

impl PartialEqSpecImpl for Symbol {
    open spec fn obeys_eq_spec() -> bool {
        true
    }

    open spec fn eq_spec(&self, other: &Symbol) -> bool {
        self@ == other@
    }
}

impl Eq for Symbol {
}

/// The keys of the contract-wide (instance) storage.
#[derive(Debug, Clone, Copy, PartialEq, Eq, Structural)]
pub enum InstanceKey {
    UpgradeAdmin,
    NextCommunityId,
}

/// A community: its identifier, its admin wallet, its name and when it was created.
#[derive(Debug)]
pub struct Community {
    pub id: u64,
    pub admin: Address,
    pub name: Symbol,
    pub created_at: u64,
}

impl Clone for Community {
    fn clone(&self) -> (res: Self)
        ensures
            res == *self,
    {
        Community {
            id: self.id,
            admin: self.admin.clone(),
            name: self.name.clone(),
            created_at: self.created_at,
        }
    }
}

/// The one role record that a wallet holds in a community.
/// `expires_at == None` means that the role never expires.
#[derive(Debug)]
pub struct RoleRecord {
    pub role: Symbol,
    pub expires_at: Option<u64>,
    pub revoked: bool,
    pub updated_at: u64,
}

impl Clone for RoleRecord {
    fn clone(&self) -> (res: Self)
        ensures
            res == *self,
    {
        RoleRecord {
            role: self.role.clone(),
            expires_at: self.expires_at,
            revoked: self.revoked,
            updated_at: self.updated_at,
        }
    }
}

/// The key under which a community is stored.
#[derive(Debug, Clone, Copy, PartialEq, Eq, Structural)]
pub enum CommunityKey {
    ById(u64),
}

/// The key under which the role record of a wallet in a community is stored.
#[derive(Debug)]
pub struct MembershipKey {
    pub community_id: u64,
    pub member: Address,
}

impl MembershipKey {
    /// The key as plain values: the community and the member's address text.
    pub open spec fn spec_key(self) -> (u64, Seq<char>) {
        (self.community_id, self.member@)
    }
}

impl Clone for MembershipKey {
    fn clone(&self) -> (res: Self)
        ensures
            res == *self,
    {
        MembershipKey { community_id: self.community_id, member: self.member.clone() }
    }
}

/// The errors that the contract's operations report.
#[derive(Debug, Clone, Copy, PartialEq, Eq, Structural)]
pub enum Error {
    AlreadyInitialized,
    NotInitialized,
    CommunityNotFound,
    NotCommunityAdmin,
    MemberNotFound,
    UpgradeNotAuthorized,
    /// The upgrade admin asked to create a community: it may replace code only.
    UpgradeAdminCannotCreate,
}

impl Error {
    /// The error's code in the contract interface.
    pub fn code(&self) -> (c: u32)
        ensures
            c == error_code(*self),
    {
        match self {
            Error::AlreadyInitialized => 1,
            Error::NotInitialized => 2,
            Error::CommunityNotFound => 3,
            Error::NotCommunityAdmin => 4,
            Error::MemberNotFound => 5,
            Error::UpgradeNotAuthorized => 6,
            Error::UpgradeAdminCannotCreate => 7,
        }
    }
}

/// The code of each error in the contract interface.
pub open spec fn error_code(e: Error) -> u32 {
    match e {
        Error::AlreadyInitialized => 1,
        Error::NotInitialized => 2,
        Error::CommunityNotFound => 3,
        Error::NotCommunityAdmin => 4,
        Error::MemberNotFound => 5,
        Error::UpgradeNotAuthorized => 6,
        Error::UpgradeAdminCannotCreate => 7,
    }
}

/// Published when a community is created.
#[derive(Debug)]
pub struct CommunityCreated {
    pub community_id: u64,
    pub admin: Address,
    pub name: Symbol,
}

/// Published when a wallet that held no record in a community is given a role.
#[derive(Debug)]
pub struct RoleGranted {
    pub community_id: u64,
    pub member: Address,
    pub role: Symbol,
    pub expires_at: Option<u64>,
}

/// Published when an existing record is replaced by a changed or renewed grant.
#[derive(Debug)]
pub struct RoleUpdated {
    pub community_id: u64,
    pub member: Address,
    pub old_role: Symbol,
    pub role: Symbol,
    pub expires_at: Option<u64>,
}

/// Published when an active record is revoked.
#[derive(Debug)]
pub struct RoleRevoked {
    pub community_id: u64,
    pub member: Address,
}

/// Published when the contract code is replaced.
#[derive(Debug)]
pub struct ContractUpgraded {
    pub wasm_hash: [u8; 32],
}

/// Any of the events that the contract publishes, in the order published.
#[derive(Debug)]
pub enum ContractEvent {
    CommunityCreated(CommunityCreated),
    RoleGranted(RoleGranted),
    RoleUpdated(RoleUpdated),
    RoleRevoked(RoleRevoked),
    ContractUpgraded(ContractUpgraded),
}

} // verus!
