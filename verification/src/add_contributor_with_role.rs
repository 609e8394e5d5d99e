//! Governance-initiated contributor registration.
//!
//! A governance signer registers a wallet under an explicitly chosen role.
//! The role must be present in the board's catalog; the record is created
//! at the address derived from the (board, wallet) pair, so a wallet that
//! already holds a record cannot be registered twice.
//!
//! Errors are detected in a fixed order before any state is written:
//! missing signers, then an unknown role, then an unresolvable derived
//! address, then an address collision, then insufficient payer funds.

use vstd::prelude::*;
use crate::address::Address;
use crate::address::contributor_record_pda;
use crate::address::derive_contributor_record_address;
use crate::errors::BountyBoardError;
use crate::role::padded_role;
use crate::role::role_in_catalog;
use crate::role::role_name_from_bytes;
use crate::role::validate_role;
use crate::state::BountyBoard;
use crate::state::BountyBoardV;
use crate::state::ContributorRecord;
use crate::state::Record;
use crate::state::RecordV;
use crate::state::fresh_contributor_record;
use crate::store::Store;

verus! {

/// Caller-supplied arguments of governance-initiated registration.
pub struct AddContributorWithRoleVM {
    pub contributor_wallet: Address,
    pub role_name: Vec<u8>,
}

/// Spec-level model of the arguments.
#[verifier::ext_equal]
pub struct AddContributorWithRoleVMV {
    pub contributor_wallet: Seq<u8>,
    pub role_name: Seq<u8>,
}

impl View for AddContributorWithRoleVM {
    type V = AddContributorWithRoleVMV;

    open spec fn view(&self) -> AddContributorWithRoleVMV {
        AddContributorWithRoleVMV {
            contributor_wallet: self.contributor_wallet@,
            role_name: self.role_name@,
        }
    }
}

/// The operation's environment: the board snapshot, which of the required
/// signers the transaction carries, and the paying signer's funds against
/// the host-determined allocation cost of one record.
pub struct AddContributorWithRole {
    pub bounty_board: BountyBoard,
    pub realm_governance_signed: bool,
    pub proposal_executor_signed: bool,
    pub proposal_executor_balance: u64,
    pub record_cost: u64,
}

/// Spec-level model of the operation's environment.
#[verifier::ext_equal]
pub struct AddContributorWithRoleV {
    pub bounty_board: BountyBoardV,
    pub realm_governance_signed: bool,
    pub proposal_executor_signed: bool,
    pub proposal_executor_balance: u64,
    pub record_cost: u64,
}

impl View for AddContributorWithRole {
    type V = AddContributorWithRoleV;

    open spec fn view(&self) -> AddContributorWithRoleV {
        AddContributorWithRoleV {
            bounty_board: self.bounty_board@,
            realm_governance_signed: self.realm_governance_signed,
            proposal_executor_signed: self.proposal_executor_signed,
            proposal_executor_balance: self.proposal_executor_balance,
            record_cost: self.record_cost,
        }
    }
}

/// The transition that governance-initiated registration performs on the
/// store: either the new store plus the created record's address, or the
/// error that aborts the operation with the store untouched.
pub open spec fn add_contributor_with_role_spec(
    store: Map<Seq<u8>, RecordV>,
    program_id: Seq<u8>,
    ctx: AddContributorWithRoleV,
    data: AddContributorWithRoleVMV,
) -> Result<(Map<Seq<u8>, RecordV>, Seq<u8>), BountyBoardError> {
    if !(ctx.realm_governance_signed && ctx.proposal_executor_signed) {
        Err(BountyBoardError::AuthorizationFailure)
    } else if !role_in_catalog(data.role_name, ctx.bounty_board.roles) {
        Err(BountyBoardError::InvalidRole)
    } else {
        match contributor_record_pda(program_id, ctx.bounty_board.address, data.contributor_wallet) {
            None => Err(BountyBoardError::AddressUnresolvable),
            Some(addr) => if store.contains_key(addr) {
                Err(BountyBoardError::DuplicateRecord)
            } else if ctx.proposal_executor_balance < ctx.record_cost {
                Err(BountyBoardError::InsufficientResources)
            } else {
                Ok(
                    (
                        store.insert(
                            addr,
                            RecordV::Contributor(
                                fresh_contributor_record(
                                    ctx.bounty_board,
                                    data.contributor_wallet,
                                    padded_role(data.role_name),
                                ),
                            ),
                        ),
                        addr,
                    ),
                )
            },
        }
    }
}

/// Registers `data.contributor_wallet` under `data.role_name` on behalf of
/// governance.  On success the created record's address is returned; on
/// failure the store is untouched.
pub fn add_contributor_with_role(
    store: &mut Store,
    program_id: &Address,
    ctx: &AddContributorWithRole,
    data: &AddContributorWithRoleVM,
) -> (r: Result<Address, BountyBoardError>)
    requires
        old(store).wf(),
        program_id.wf(),
    ensures
        final(store).wf(),
        match r {
            Ok(addr) => {
                &&& add_contributor_with_role_spec(old(store)@, program_id@, ctx@, data@)
                    matches Ok(p) && p.0 == final(store)@ && p.1 == addr@
                &&& addr.wf()
            },
            Err(e) => {
                &&& add_contributor_with_role_spec(old(store)@, program_id@, ctx@, data@)
                    == Result::<(Map<Seq<u8>, RecordV>, Seq<u8>), BountyBoardError>::Err(e)
                &&& *final(store) == *old(store)
            },
        },
{
    if !(ctx.realm_governance_signed && ctx.proposal_executor_signed) {
        return Err(BountyBoardError::AuthorizationFailure);
    }
    if !validate_role(&data.role_name, &ctx.bounty_board.roles) {
        return Err(BountyBoardError::InvalidRole);
    }
    let addr = match derive_contributor_record_address(
        program_id,
        &ctx.bounty_board.address,
        &data.contributor_wallet,
    ) {
        None => {
            return Err(BountyBoardError::AddressUnresolvable);
        },
        Some(a) => a,
    };
    if store.contains(&addr) {
        return Err(BountyBoardError::DuplicateRecord);
    }
    if ctx.proposal_executor_balance < ctx.record_cost {
        return Err(BountyBoardError::InsufficientResources);
    }
    let role = match role_name_from_bytes(&data.role_name) {
        Some(rn) => rn,
        None => {
            // unreachable: a name that passed validation fits the buffer
            return Err(BountyBoardError::InvalidRole);
        },
    };
    let record = ContributorRecord {
        bounty_board: ctx.bounty_board.address.duplicate(),
        realm: ctx.bounty_board.realm.duplicate(),
        associated_wallet: data.contributor_wallet.duplicate(),
        role: role,
        reputation: 0,
        recent_rep_change: 0,
        bounty_completed: 0,
        skills_pt: Vec::new(),
        initialized: true,
    };
    proof {
        assert(record@ =~= fresh_contributor_record(
            ctx.bounty_board@,
            data.contributor_wallet@,
            padded_role(data.role_name@),
        ));
    }
    let allocated = store.allocate(&addr, Record::Contributor(record));
    proof {
        assert(allocated);
    }
    Ok(addr)
}

} // verus!
