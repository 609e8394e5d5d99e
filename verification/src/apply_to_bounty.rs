//! Self-service bounty application, with implicit contributor
//! registration.
//!
//! The applicant signs for itself and pays for the records it allocates.
//! If the applicant has no contributor record under the board yet, one is
//! created with the catalog's default role; an existing record is left
//! byte-for-byte untouched.  The application is then created at the
//! address derived from the (bounty, contributor record) pair, with the
//! authoritative ledger time as its timestamp, so a second application of
//! the same contributor to the same bounty collides and is rejected.
//!
//! Errors are detected in a fixed order before any state is written:
//! missing applicant signature, then an unresolvable derived address, then
//! an address collision (an existing application, or the two derived
//! addresses coinciding), then insufficient applicant funds, then an empty
//! role catalog when a record would have to be created.

use vstd::prelude::*;
use crate::address::Address;
use crate::address::bounty_application_pda;
use crate::address::contributor_record_pda;
use crate::address::derive_bounty_application_address;
use crate::address::derive_contributor_record_address;
use crate::bytes::bytes_eq;
use crate::errors::BountyBoardError;
use crate::role::default_role;
use crate::role::get_default_role;
use crate::state::BountyApplication;
use crate::state::BountyApplicationStatus;
use crate::state::BountyApplicationV;
use crate::state::BountyBoard;
use crate::state::BountyBoardV;
use crate::state::ContributorRecord;
use crate::state::Record;
use crate::state::RecordV;
use crate::state::fresh_contributor_record;
use crate::store::Store;

verus! {

/// Caller-supplied arguments of a bounty application.  The validity value
/// is stored verbatim; its interpretation is owned by out-of-scope logic.
pub struct ApplyToBountyVM {
    pub validity: u64,
}

/// Spec-level model of the arguments.
#[verifier::ext_equal]
pub struct ApplyToBountyVMV {
    pub validity: u64,
}

impl View for ApplyToBountyVM {
    type V = ApplyToBountyVMV;

    open spec fn view(&self) -> ApplyToBountyVMV {
        ApplyToBountyVMV { validity: self.validity }
    }
}

/// The operation's environment: the board snapshot, the bounty applied
/// to, the applicant and its signature, the applicant's funds against the
/// host-determined allocation costs, and the authoritative ledger time.
pub struct ApplyToBounty {
    pub bounty_board: BountyBoard,
    pub bounty: Address,
    pub applicant: Address,
    pub applicant_signed: bool,
    pub applicant_balance: u64,
    pub record_cost: u64,
    pub application_cost: u64,
    pub clock_unix_timestamp: i64,
}

/// Spec-level model of the operation's environment.
#[verifier::ext_equal]
pub struct ApplyToBountyV {
    pub bounty_board: BountyBoardV,
    pub bounty: Seq<u8>,
    pub applicant: Seq<u8>,
    pub applicant_signed: bool,
    pub applicant_balance: u64,
    pub record_cost: u64,
    pub application_cost: u64,
    pub clock_unix_timestamp: i64,
}

impl View for ApplyToBounty {
    type V = ApplyToBountyV;

    open spec fn view(&self) -> ApplyToBountyV {
        ApplyToBountyV {
            bounty_board: self.bounty_board@,
            bounty: self.bounty@,
            applicant: self.applicant@,
            applicant_signed: self.applicant_signed,
            applicant_balance: self.applicant_balance,
            record_cost: self.record_cost,
            application_cost: self.application_cost,
            clock_unix_timestamp: self.clock_unix_timestamp,
        }
    }
}

/// The application record as the operation first writes it.
pub open spec fn fresh_application(
    ctx: ApplyToBountyV,
    contributor_record: Seq<u8>,
    validity: u64,
) -> BountyApplicationV {
    BountyApplicationV {
        bounty: ctx.bounty,
        applicant: ctx.applicant,
        contributor_record: contributor_record,
        validity: validity,
        applied_at: ctx.clock_unix_timestamp,
        status: BountyApplicationStatus::NotAssigned,
    }
}

/// The transition that a bounty application performs on the store: either
/// the new store plus the created application's address, or the error
/// that aborts the operation with the store untouched.
pub open spec fn apply_to_bounty_spec(
    store: Map<Seq<u8>, RecordV>,
    program_id: Seq<u8>,
    ctx: ApplyToBountyV,
    data: ApplyToBountyVMV,
) -> Result<(Map<Seq<u8>, RecordV>, Seq<u8>), BountyBoardError> {
    if !ctx.applicant_signed {
        Err(BountyBoardError::AuthorizationFailure)
    } else {
        match contributor_record_pda(program_id, ctx.bounty_board.address, ctx.applicant) {
            None => Err(BountyBoardError::AddressUnresolvable),
            Some(rec_addr) => match bounty_application_pda(program_id, ctx.bounty, rec_addr) {
                None => Err(BountyBoardError::AddressUnresolvable),
                Some(app_addr) => {
                    let record_exists = store.contains_key(rec_addr);
                    if store.contains_key(app_addr) || (!record_exists && rec_addr == app_addr) {
                        Err(BountyBoardError::DuplicateRecord)
                    } else if (ctx.applicant_balance as int) < ctx.application_cost as int + (
                    if record_exists {
                        0int
                    } else {
                        ctx.record_cost as int
                    }) {
                        Err(BountyBoardError::InsufficientResources)
                    } else if !record_exists && ctx.bounty_board.roles.len() == 0 {
                        Err(BountyBoardError::NoDefaultRole)
                    } else {
                        let s1 = if record_exists {
                            store
                        } else {
                            store.insert(
                                rec_addr,
                                RecordV::Contributor(
                                    fresh_contributor_record(
                                        ctx.bounty_board,
                                        ctx.applicant,
                                        default_role(ctx.bounty_board.roles),
                                    ),
                                ),
                            )
                        };
                        Ok(
                            (
                                s1.insert(
                                    app_addr,
                                    RecordV::Application(
                                        fresh_application(ctx, rec_addr, data.validity),
                                    ),
                                ),
                                app_addr,
                            ),
                        )
                    }
                },
            },
        }
    }
}

/// Applies `ctx.applicant` to `ctx.bounty`, creating the applicant's
/// contributor record first if none exists.  On success the created
/// application's address is returned; on failure the store is untouched.
pub fn apply_to_bounty(
    store: &mut Store,
    program_id: &Address,
    ctx: &ApplyToBounty,
    data: &ApplyToBountyVM,
) -> (r: Result<Address, BountyBoardError>)
    requires
        old(store).wf(),
        program_id.wf(),
    ensures
        final(store).wf(),
        match r {
            Ok(addr) => {
                &&& apply_to_bounty_spec(old(store)@, program_id@, ctx@, data@)
                    matches Ok(p) && p.0 == final(store)@ && p.1 == addr@
                &&& addr.wf()
            },
            Err(e) => {
                &&& apply_to_bounty_spec(old(store)@, program_id@, ctx@, data@)
                    == Result::<(Map<Seq<u8>, RecordV>, Seq<u8>), BountyBoardError>::Err(e)
                &&& *final(store) == *old(store)
            },
        },
{
    if !ctx.applicant_signed {
        return Err(BountyBoardError::AuthorizationFailure);
    }
    let rec_addr = match derive_contributor_record_address(
        program_id,
        &ctx.bounty_board.address,
        &ctx.applicant,
    ) {
        None => {
            return Err(BountyBoardError::AddressUnresolvable);
        },
        Some(a) => a,
    };
    let app_addr = match derive_bounty_application_address(program_id, &ctx.bounty, &rec_addr) {
        None => {
            return Err(BountyBoardError::AddressUnresolvable);
        },
        Some(a) => a,
    };
    let record_exists = store.contains(&rec_addr);
    if store.contains(&app_addr) {
        return Err(BountyBoardError::DuplicateRecord);
    }
    if !record_exists && bytes_eq(&rec_addr.bytes, &app_addr.bytes) {
        return Err(BountyBoardError::DuplicateRecord);
    }
    if ctx.applicant_balance < ctx.application_cost {
        return Err(BountyBoardError::InsufficientResources);
    }
    if !record_exists && ctx.applicant_balance - ctx.application_cost < ctx.record_cost {
        return Err(BountyBoardError::InsufficientResources);
    }
    if !record_exists {
        let role = match get_default_role(&ctx.bounty_board.roles) {
            Ok(rn) => rn,
            Err(_) => {
                return Err(BountyBoardError::NoDefaultRole);
            },
        };
        let record = ContributorRecord {
            bounty_board: ctx.bounty_board.address.duplicate(),
            realm: ctx.bounty_board.realm.duplicate(),
            associated_wallet: ctx.applicant.duplicate(),
            role: role,
            reputation: 0,
            recent_rep_change: 0,
            bounty_completed: 0,
            skills_pt: Vec::new(),
            initialized: true,
        };
        proof {
            assert(record@ =~= fresh_contributor_record(
                ctx.bounty_board@,
                ctx.applicant@,
                default_role(ctx.bounty_board@.roles),
            ));
        }
        let allocated = store.allocate(&rec_addr, Record::Contributor(record));
        proof {
            assert(allocated);
        }
    }
    let application = BountyApplication {
        bounty: ctx.bounty.duplicate(),
        applicant: ctx.applicant.duplicate(),
        contributor_record: rec_addr.duplicate(),
        validity: data.validity,
        applied_at: ctx.clock_unix_timestamp,
        status: BountyApplicationStatus::NotAssigned,
    };
    proof {
        assert(application@ =~= fresh_application(ctx@, rec_addr@, data.validity));
    }
    let allocated = store.allocate(&app_addr, Record::Application(application));
    proof {
        assert(allocated);
    }
    Ok(app_addr)
}

} // verus!
