//! The registry's laws, proved over the operations' transition functions.
//!
//! Each lemma states one guarantee of the lifecycle: what governance
//! registration creates and when it is owed success, what self-service
//! application creates on a fresh wallet, that an existing record is left
//! untouched, and that a colliding creation is rejected — so a wallet ends
//! up with exactly one contributor record and a (bounty, contributor
//! record) pair with exactly one application, regardless of call order or
//! repetition.  The operations' own contracts add that a rejected
//! operation leaves the store byte-for-byte unchanged.

use vstd::prelude::*;
use crate::add_contributor_with_role::AddContributorWithRoleV;
use crate::add_contributor_with_role::AddContributorWithRoleVMV;
use crate::add_contributor_with_role::add_contributor_with_role_spec;
use crate::address::bounty_application_pda;
use crate::address::contributor_record_pda;
use crate::apply_to_bounty::ApplyToBountyV;
use crate::apply_to_bounty::ApplyToBountyVMV;
use crate::apply_to_bounty::apply_to_bounty_spec;
use crate::apply_to_bounty::fresh_application;
use crate::errors::BountyBoardError;
use crate::role::default_role;
use crate::role::padded_role;
use crate::role::role_in_catalog;
use crate::state::BountyApplicationStatus;
use crate::state::RecordV;
use crate::state::fresh_contributor_record;

verus! {

/// Governance registration with a role from the board's catalog is owed
/// success: with both signers present, sufficient payer funds, a viable
/// derived address, and no record at it yet, the operation succeeds and
/// creates exactly one contributor record there, holding the requested
/// role in stored form, zeroed counters, and the initialized flag set.
pub proof fn lemma_add_contributor_valid_role(
    store: Map<Seq<u8>, RecordV>,
    program_id: Seq<u8>,
    ctx: AddContributorWithRoleV,
    data: AddContributorWithRoleVMV,
)
    requires
        ctx.realm_governance_signed,
        ctx.proposal_executor_signed,
        ctx.proposal_executor_balance >= ctx.record_cost,
        role_in_catalog(data.role_name, ctx.bounty_board.roles),
    ensures
        ({
            let r = add_contributor_with_role_spec(store, program_id, ctx, data);
            match contributor_record_pda(
                program_id,
                ctx.bounty_board.address,
                data.contributor_wallet,
            ) {
                Some(addr) => !store.contains_key(addr) ==> {
                    &&& r matches Ok(p) && p.0 == store.insert(
                        addr,
                        RecordV::Contributor(
                            fresh_contributor_record(
                                ctx.bounty_board,
                                data.contributor_wallet,
                                padded_role(data.role_name),
                            ),
                        ),
                    ) && p.1 == addr
                    &&& r matches Ok(p) && p.0[addr] matches RecordV::Contributor(c)
                        && c.role == padded_role(data.role_name) && c.reputation == 0
                        && c.bounty_completed == 0 && c.initialized
                },
                None => r matches Err(e) && e == BountyBoardError::AddressUnresolvable,
            }
        }),
{
}

/// Governance registration with a role absent from the board's catalog
/// fails with `InvalidRole`, whatever the store holds.
pub proof fn lemma_add_contributor_unknown_role(
    store: Map<Seq<u8>, RecordV>,
    program_id: Seq<u8>,
    ctx: AddContributorWithRoleV,
    data: AddContributorWithRoleVMV,
)
    requires
        ctx.realm_governance_signed,
        ctx.proposal_executor_signed,
        !role_in_catalog(data.role_name, ctx.bounty_board.roles),
    ensures
        add_contributor_with_role_spec(store, program_id, ctx, data) matches Err(e)
            && e == BountyBoardError::InvalidRole,
{
}

/// A second governance registration of the same wallet under the same
/// board fails with `DuplicateRecord`: both calls derive the same
/// address, and the second finds it occupied.
pub proof fn lemma_contributor_record_unique(
    store: Map<Seq<u8>, RecordV>,
    program_id: Seq<u8>,
    ctx: AddContributorWithRoleV,
    data: AddContributorWithRoleVMV,
    ctx2: AddContributorWithRoleV,
    data2: AddContributorWithRoleVMV,
)
    requires
        add_contributor_with_role_spec(store, program_id, ctx, data) is Ok,
        ctx2.realm_governance_signed,
        ctx2.proposal_executor_signed,
        ctx2.bounty_board.address == ctx.bounty_board.address,
        data2.contributor_wallet == data.contributor_wallet,
        role_in_catalog(data2.role_name, ctx2.bounty_board.roles),
    ensures
        ({
            let s1 = add_contributor_with_role_spec(store, program_id, ctx, data)->Ok_0.0;
            add_contributor_with_role_spec(s1, program_id, ctx2, data2) matches Err(e)
                && e == BountyBoardError::DuplicateRecord
        }),
{
}

/// Self-service application by a wallet with no contributor record yet:
/// with the applicant signed, sufficient funds for both allocations, a
/// non-empty role catalog, viable and distinct derived addresses, and no
/// application at the derived address yet, the operation succeeds and
/// creates exactly two records — one contributor record holding the
/// catalog's default role, and one application with status `NotAssigned`,
/// the given validity, and the ledger time as its timestamp.
pub proof fn lemma_apply_fresh_wallet(
    store: Map<Seq<u8>, RecordV>,
    program_id: Seq<u8>,
    ctx: ApplyToBountyV,
    data: ApplyToBountyVMV,
)
    requires
        ctx.applicant_signed,
        ctx.applicant_balance as int >= ctx.application_cost as int + ctx.record_cost as int,
        ctx.bounty_board.roles.len() > 0,
    ensures
        ({
            let r = apply_to_bounty_spec(store, program_id, ctx, data);
            match contributor_record_pda(program_id, ctx.bounty_board.address, ctx.applicant) {
                Some(rec_addr) => match bounty_application_pda(program_id, ctx.bounty, rec_addr) {
                    Some(app_addr) => (!store.contains_key(rec_addr)
                        && !store.contains_key(app_addr) && rec_addr != app_addr) ==> {
                        &&& r matches Ok(p) && p.0 == store.insert(
                            rec_addr,
                            RecordV::Contributor(
                                fresh_contributor_record(
                                    ctx.bounty_board,
                                    ctx.applicant,
                                    default_role(ctx.bounty_board.roles),
                                ),
                            ),
                        ).insert(
                            app_addr,
                            RecordV::Application(fresh_application(ctx, rec_addr, data.validity)),
                        ) && p.1 == app_addr
                        &&& r matches Ok(p) && p.0[rec_addr] matches RecordV::Contributor(c)
                            && c.role == default_role(ctx.bounty_board.roles) && c.reputation == 0
                            && c.bounty_completed == 0 && c.initialized
                        &&& r matches Ok(p) && p.0[app_addr] matches RecordV::Application(a)
                            && a.status == BountyApplicationStatus::NotAssigned
                            && a.validity == data.validity
                            && a.applied_at == ctx.clock_unix_timestamp
                    },
                    None => r matches Err(e) && e == BountyBoardError::AddressUnresolvable,
                },
                None => r matches Err(e) && e == BountyBoardError::AddressUnresolvable,
            }
        }),
{
}

/// Self-service application by a wallet that already holds a contributor
/// record: the record is left untouched — the new store still maps its
/// address to the very same value — and only the application is created.
pub proof fn lemma_apply_existing_record(
    store: Map<Seq<u8>, RecordV>,
    program_id: Seq<u8>,
    ctx: ApplyToBountyV,
    data: ApplyToBountyVMV,
)
    requires
        ctx.applicant_signed,
        ctx.applicant_balance >= ctx.application_cost,
    ensures
        ({
            let r = apply_to_bounty_spec(store, program_id, ctx, data);
            match contributor_record_pda(program_id, ctx.bounty_board.address, ctx.applicant) {
                Some(rec_addr) => match bounty_application_pda(program_id, ctx.bounty, rec_addr) {
                    Some(app_addr) => (store.contains_key(rec_addr)
                        && !store.contains_key(app_addr)) ==> {
                        &&& r matches Ok(p) && p.0 == store.insert(
                            app_addr,
                            RecordV::Application(fresh_application(ctx, rec_addr, data.validity)),
                        ) && p.1 == app_addr
                        &&& r matches Ok(p) && p.0[rec_addr] == store[rec_addr]
                    },
                    None => r matches Err(e) && e == BountyBoardError::AddressUnresolvable,
                },
                None => r matches Err(e) && e == BountyBoardError::AddressUnresolvable,
            }
        }),
{
    let r = apply_to_bounty_spec(store, program_id, ctx, data);
    match contributor_record_pda(program_id, ctx.bounty_board.address, ctx.applicant) {
        Some(rec_addr) => match bounty_application_pda(program_id, ctx.bounty, rec_addr) {
            Some(app_addr) => {
                if store.contains_key(rec_addr) && !store.contains_key(app_addr) {
                    assert(rec_addr != app_addr);
                }
            },
            None => {},
        },
        None => {},
    }
}

/// Two applications resolving to the same (bounty, contributor record)
/// pair: after the first succeeds, the second — under the same board,
/// bounty and applicant, whatever its funds, validity or ledger time —
/// fails with `DuplicateRecord`, because both derive the same application
/// address and the second finds it occupied.  The first application
/// stands untouched: a failing operation changes nothing.
pub proof fn lemma_apply_duplicate_application(
    store: Map<Seq<u8>, RecordV>,
    program_id: Seq<u8>,
    ctx: ApplyToBountyV,
    data: ApplyToBountyVMV,
    ctx2: ApplyToBountyV,
    data2: ApplyToBountyVMV,
)
    requires
        apply_to_bounty_spec(store, program_id, ctx, data) is Ok,
        ctx2.applicant_signed,
        ctx2.bounty_board.address == ctx.bounty_board.address,
        ctx2.applicant == ctx.applicant,
        ctx2.bounty == ctx.bounty,
    ensures
        ({
            let s1 = apply_to_bounty_spec(store, program_id, ctx, data)->Ok_0.0;
            apply_to_bounty_spec(s1, program_id, ctx2, data2) matches Err(e)
                && e == BountyBoardError::DuplicateRecord
        }),
{
}

} // verus!

