//! The record types of the bounty-board registry and their spec-level
//! models.
//!
//! The bounty board itself is external, read-only configuration: each
//! operation receives a snapshot of it.  Contributor records and bounty
//! applications are the records this core creates; both are modelled at
//! the spec level by plain structs over byte sequences.

use vstd::prelude::*;
use crate::address::Address;
use crate::role::RoleName;
use crate::role::roles_view;

verus! {

/// Read-only snapshot of a bounty board: its own address, the realm it
/// belongs to, and its configured role catalog.
#[derive(Clone, Debug)]
pub struct BountyBoard {
    pub address: Address,
    pub realm: Address,
    pub roles: Vec<RoleName>,
}

/// Spec-level model of a bounty-board snapshot.
#[verifier::ext_equal]
pub struct BountyBoardV {
    pub address: Seq<u8>,
    pub realm: Seq<u8>,
    pub roles: Seq<Seq<u8>>,
}

impl View for BountyBoard {
    type V = BountyBoardV;

    open spec fn view(&self) -> BountyBoardV {
        BountyBoardV {
            address: self.address@,
            realm: self.realm@,
            roles: roles_view(self.roles@),
        }
    }
}

impl BountyBoard {
    /// A well-formed board has 32-byte addresses and fixed-capacity
    /// catalog entries.
    pub open spec fn wf(&self) -> bool {
        &&& self.address.wf()
        &&& self.realm.wf()
        &&& forall|i: int| 0 <= i < self.roles@.len() ==> (#[trigger] self.roles@[i]).wf()
    }
}

/// One wallet's participation state within one bounty board.
#[derive(Clone, Debug)]
pub struct ContributorRecord {
    pub bounty_board: Address,
    pub realm: Address,
    pub associated_wallet: Address,
    pub role: RoleName,
    pub reputation: u64,
    pub recent_rep_change: i64,
    pub bounty_completed: u64,
    pub skills_pt: Vec<u64>,
    pub initialized: bool,
}

/// Spec-level model of a contributor record.
#[verifier::ext_equal]
pub struct ContributorRecordV {
    pub bounty_board: Seq<u8>,
    pub realm: Seq<u8>,
    pub associated_wallet: Seq<u8>,
    pub role: Seq<u8>,
    pub reputation: u64,
    pub recent_rep_change: i64,
    pub bounty_completed: u64,
    pub skills_pt: Seq<u64>,
    pub initialized: bool,
}

impl View for ContributorRecord {
    type V = ContributorRecordV;

    open spec fn view(&self) -> ContributorRecordV {
        ContributorRecordV {
            bounty_board: self.bounty_board@,
            realm: self.realm@,
            associated_wallet: self.associated_wallet@,
            role: self.role@,
            reputation: self.reputation,
            recent_rep_change: self.recent_rep_change,
            bounty_completed: self.bounty_completed,
            skills_pt: self.skills_pt@,
            initialized: self.initialized,
        }
    }
}

/// The model of a contributor record as both creation paths first write
/// it: counters zeroed, skills empty, initialized set, role as given.
pub open spec fn fresh_contributor_record(
    board: BountyBoardV,
    wallet: Seq<u8>,
    role: Seq<u8>,
) -> ContributorRecordV {
    ContributorRecordV {
        bounty_board: board.address,
        realm: board.realm,
        associated_wallet: wallet,
        role: role,
        reputation: 0,
        recent_rep_change: 0,
        bounty_completed: 0,
        skills_pt: Seq::empty(),
        initialized: true,
    }
}

/// Assignment state of a bounty application.  This core only ever
/// produces `NotAssigned`; later states belong to out-of-scope assignment
/// and completion logic.
#[derive(Clone, Copy, Debug, PartialEq, Eq, Structural)]
pub enum BountyApplicationStatus {
    NotAssigned,
}

/// One contributor's application to one bounty.
#[derive(Clone, Debug)]
pub struct BountyApplication {
    pub bounty: Address,
    pub applicant: Address,
    pub contributor_record: Address,
    pub validity: u64,
    pub applied_at: i64,
    pub status: BountyApplicationStatus,
}

/// Spec-level model of a bounty application.
#[verifier::ext_equal]
pub struct BountyApplicationV {
    pub bounty: Seq<u8>,
    pub applicant: Seq<u8>,
    pub contributor_record: Seq<u8>,
    pub validity: u64,
    pub applied_at: i64,
    pub status: BountyApplicationStatus,
}

impl View for BountyApplication {
    type V = BountyApplicationV;

    open spec fn view(&self) -> BountyApplicationV {
        BountyApplicationV {
            bounty: self.bounty@,
            applicant: self.applicant@,
            contributor_record: self.contributor_record@,
            validity: self.validity,
            applied_at: self.applied_at,
            status: self.status,
        }
    }
}

/// A record stored at a derived address.
#[derive(Clone, Debug)]
pub enum Record {
    Contributor(ContributorRecord),
    Application(BountyApplication),
}

/// Spec-level model of a stored record.
#[verifier::ext_equal]
pub enum RecordV {
    Contributor(ContributorRecordV),
    Application(BountyApplicationV),
}

impl View for Record {
    type V = RecordV;

    open spec fn view(&self) -> RecordV {
        match self {
            Record::Contributor(c) => RecordV::Contributor(c@),
            Record::Application(a) => RecordV::Application(a@),
        }
    }
}

} // verus!
