use dao_bounty_board::add_contributor_with_role::AddContributorWithRole;
use dao_bounty_board::add_contributor_with_role::AddContributorWithRoleVM;
use dao_bounty_board::add_contributor_with_role::add_contributor_with_role;
use dao_bounty_board::address::Address;
use dao_bounty_board::address::derive_bounty_application_address;
use dao_bounty_board::address::derive_contributor_record_address;
use dao_bounty_board::apply_to_bounty::ApplyToBounty;
use dao_bounty_board::apply_to_bounty::ApplyToBountyVM;
use dao_bounty_board::apply_to_bounty::apply_to_bounty;
use dao_bounty_board::errors::BountyBoardError;
use dao_bounty_board::role::RoleName;
use dao_bounty_board::role::role_name_from_bytes;
use dao_bounty_board::state::BountyApplicationStatus;
use dao_bounty_board::state::BountyBoard;
use dao_bounty_board::state::Record;
use dao_bounty_board::store::Store;

fn addr(n: u8) -> Address {
    Address { bytes: vec![n; 32] }
}

fn padded(s: &str) -> Vec<u8> {
    let mut v = s.as_bytes().to_vec();
    while v.len() < 24 {
        v.push(0);
    }
    v
}

fn rn(s: &str) -> RoleName {
    role_name_from_bytes(&s.as_bytes().to_vec()).unwrap()
}

fn member_admin_board() -> BountyBoard {
    BountyBoard {
        address: addr(1),
        realm: addr(2),
        roles: vec![rn("member"), rn("admin")],
    }
}

fn governance_ctx(board: BountyBoard) -> AddContributorWithRole {
    AddContributorWithRole {
        bounty_board: board,
        realm_governance_signed: true,
        proposal_executor_signed: true,
        proposal_executor_balance: 100,
        record_cost: 10,
    }
}

fn applicant_ctx(board: BountyBoard, bounty: Address, applicant: Address) -> ApplyToBounty {
    ApplyToBounty {
        bounty_board: board,
        bounty,
        applicant,
        applicant_signed: true,
        applicant_balance: 100,
        record_cost: 10,
        application_cost: 5,
        clock_unix_timestamp: 1_700_000_000,
    }
}

#[test]
fn governance_add_with_catalog_role_succeeds() {
    let mut store = Store::new();
    let program_id = addr(9);
    let ctx = governance_ctx(member_admin_board());
    let data = AddContributorWithRoleVM {
        contributor_wallet: addr(3),
        role_name: b"admin".to_vec(),
    };
    let rec_addr = add_contributor_with_role(&mut store, &program_id, &ctx, &data).unwrap();
    assert_eq!(store.len(), 1);
    match store.get(&rec_addr).unwrap() {
        Record::Contributor(c) => {
            assert_eq!(c.bounty_board.bytes, addr(1).bytes);
            assert_eq!(c.realm.bytes, addr(2).bytes);
            assert_eq!(c.associated_wallet.bytes, addr(3).bytes);
            assert_eq!(c.role.bytes, padded("admin"));
            assert_eq!(c.reputation, 0);
            assert_eq!(c.recent_rep_change, 0);
            assert_eq!(c.bounty_completed, 0);
            assert!(c.skills_pt.is_empty());
            assert!(c.initialized);
        }
        _ => panic!("expected a contributor record"),
    }
}

#[test]
fn governance_add_unknown_role_fails_invalid_role() {
    let mut store = Store::new();
    let program_id = addr(9);
    let ctx = governance_ctx(member_admin_board());
    let data = AddContributorWithRoleVM {
        contributor_wallet: addr(3),
        role_name: b"ghost".to_vec(),
    };
    let r = add_contributor_with_role(&mut store, &program_id, &ctx, &data);
    assert_eq!(r.unwrap_err(), BountyBoardError::InvalidRole);
    assert_eq!(store.len(), 0);
    let rec_addr =
        derive_contributor_record_address(&program_id, &ctx.bounty_board.address, &addr(3))
            .unwrap();
    assert!(store.get(&rec_addr).is_none());
}

#[test]
fn governance_add_rejects_overlong_role_name() {
    // A name longer than the 24-byte capacity never matches, even when a
    // catalog entry equals its truncation.
    let mut store = Store::new();
    let program_id = addr(9);
    let board = BountyBoard {
        address: addr(1),
        realm: addr(2),
        roles: vec![rn("aaaaaaaaaaaaaaaaaaaaaaaa")],
    };
    let ctx = governance_ctx(board);
    let data = AddContributorWithRoleVM {
        contributor_wallet: addr(3),
        role_name: vec![b'a'; 25],
    };
    let r = add_contributor_with_role(&mut store, &program_id, &ctx, &data);
    assert_eq!(r.unwrap_err(), BountyBoardError::InvalidRole);
    assert_eq!(store.len(), 0);
}

#[test]
fn governance_add_requires_both_signers() {
    let program_id = addr(9);
    let data = AddContributorWithRoleVM {
        contributor_wallet: addr(3),
        role_name: b"admin".to_vec(),
    };

    let mut store = Store::new();
    let mut ctx = governance_ctx(member_admin_board());
    ctx.realm_governance_signed = false;
    let r = add_contributor_with_role(&mut store, &program_id, &ctx, &data);
    assert_eq!(r.unwrap_err(), BountyBoardError::AuthorizationFailure);
    assert_eq!(store.len(), 0);

    let mut store = Store::new();
    let mut ctx = governance_ctx(member_admin_board());
    ctx.proposal_executor_signed = false;
    let r = add_contributor_with_role(&mut store, &program_id, &ctx, &data);
    assert_eq!(r.unwrap_err(), BountyBoardError::AuthorizationFailure);
    assert_eq!(store.len(), 0);
}

#[test]
fn governance_add_insufficient_funds() {
    let mut store = Store::new();
    let program_id = addr(9);
    let mut ctx = governance_ctx(member_admin_board());
    ctx.proposal_executor_balance = 9;
    ctx.record_cost = 10;
    let data = AddContributorWithRoleVM {
        contributor_wallet: addr(3),
        role_name: b"admin".to_vec(),
    };
    let r = add_contributor_with_role(&mut store, &program_id, &ctx, &data);
    assert_eq!(r.unwrap_err(), BountyBoardError::InsufficientResources);
    assert_eq!(store.len(), 0);
}

#[test]
fn governance_add_duplicate_wallet_fails() {
    let mut store = Store::new();
    let program_id = addr(9);
    let ctx = governance_ctx(member_admin_board());
    let data = AddContributorWithRoleVM {
        contributor_wallet: addr(3),
        role_name: b"admin".to_vec(),
    };
    add_contributor_with_role(&mut store, &program_id, &ctx, &data).unwrap();

    // Same wallet, other role: the derived address is already taken.
    let data2 = AddContributorWithRoleVM {
        contributor_wallet: addr(3),
        role_name: b"member".to_vec(),
    };
    let r = add_contributor_with_role(&mut store, &program_id, &ctx, &data2);
    assert_eq!(r.unwrap_err(), BountyBoardError::DuplicateRecord);
    assert_eq!(store.len(), 1);

    // The first record is untouched.
    let rec_addr =
        derive_contributor_record_address(&program_id, &ctx.bounty_board.address, &addr(3))
            .unwrap();
    match store.get(&rec_addr).unwrap() {
        Record::Contributor(c) => assert_eq!(c.role.bytes, padded("admin")),
        _ => panic!("expected a contributor record"),
    }
}

#[test]
fn governance_add_empty_catalog_fails_invalid_role() {
    let mut store = Store::new();
    let program_id = addr(9);
    let board = BountyBoard { address: addr(1), realm: addr(2), roles: vec![] };
    let ctx = governance_ctx(board);
    let data = AddContributorWithRoleVM {
        contributor_wallet: addr(3),
        role_name: b"member".to_vec(),
    };
    let r = add_contributor_with_role(&mut store, &program_id, &ctx, &data);
    assert_eq!(r.unwrap_err(), BountyBoardError::InvalidRole);
}

#[test]
fn apply_fresh_wallet_creates_record_and_application() {
    let mut store = Store::new();
    let program_id = addr(9);
    let ctx = applicant_ctx(member_admin_board(), addr(5), addr(4));
    let data = ApplyToBountyVM { validity: 77 };
    let app_addr = apply_to_bounty(&mut store, &program_id, &ctx, &data).unwrap();
    assert_eq!(store.len(), 2);

    let rec_addr =
        derive_contributor_record_address(&program_id, &ctx.bounty_board.address, &addr(4))
            .unwrap();
    match store.get(&rec_addr).unwrap() {
        Record::Contributor(c) => {
            // The default role is the catalog's first entry.
            assert_eq!(c.role.bytes, padded("member"));
            assert_eq!(c.associated_wallet.bytes, addr(4).bytes);
            assert_eq!(c.reputation, 0);
            assert_eq!(c.bounty_completed, 0);
            assert!(c.initialized);
        }
        _ => panic!("expected a contributor record"),
    }
    match store.get(&app_addr).unwrap() {
        Record::Application(a) => {
            assert_eq!(a.bounty.bytes, addr(5).bytes);
            assert_eq!(a.applicant.bytes, addr(4).bytes);
            assert_eq!(a.contributor_record.bytes, rec_addr.bytes);
            assert_eq!(a.validity, 77);
            assert_eq!(a.applied_at, 1_700_000_000);
            assert_eq!(a.status, BountyApplicationStatus::NotAssigned);
        }
        _ => panic!("expected a bounty application"),
    }
}

#[test]
fn apply_existing_record_left_untouched() {
    let mut store = Store::new();
    let program_id = addr(9);
    let gov = governance_ctx(member_admin_board());
    let data = AddContributorWithRoleVM {
        contributor_wallet: addr(4),
        role_name: b"admin".to_vec(),
    };
    let rec_addr = add_contributor_with_role(&mut store, &program_id, &gov, &data).unwrap();
    let before = match store.get(&rec_addr).unwrap() {
        Record::Contributor(c) => c.clone(),
        _ => panic!("expected a contributor record"),
    };

    let ctx = applicant_ctx(member_admin_board(), addr(5), addr(4));
    let vm = ApplyToBountyVM { validity: 3 };
    let app_addr = apply_to_bounty(&mut store, &program_id, &ctx, &vm).unwrap();
    assert_eq!(store.len(), 2);

    // The existing record keeps the governance-chosen role and all other
    // fields, byte for byte.
    match store.get(&rec_addr).unwrap() {
        Record::Contributor(c) => {
            assert_eq!(c.bounty_board.bytes, before.bounty_board.bytes);
            assert_eq!(c.realm.bytes, before.realm.bytes);
            assert_eq!(c.associated_wallet.bytes, before.associated_wallet.bytes);
            assert_eq!(c.role.bytes, before.role.bytes);
            assert_eq!(c.role.bytes, padded("admin"));
            assert_eq!(c.reputation, before.reputation);
            assert_eq!(c.recent_rep_change, before.recent_rep_change);
            assert_eq!(c.bounty_completed, before.bounty_completed);
            assert_eq!(c.skills_pt, before.skills_pt);
            assert_eq!(c.initialized, before.initialized);
        }
        _ => panic!("expected a contributor record"),
    }
    match store.get(&app_addr).unwrap() {
        Record::Application(a) => assert_eq!(a.validity, 3),
        _ => panic!("expected a bounty application"),
    }
}

#[test]
fn apply_duplicate_application_fails() {
    let mut store = Store::new();
    let program_id = addr(9);
    let ctx = applicant_ctx(member_admin_board(), addr(5), addr(4));
    let vm = ApplyToBountyVM { validity: 1 };
    let app_addr = apply_to_bounty(&mut store, &program_id, &ctx, &vm).unwrap();

    // Same bounty, same applicant: the same application address is derived
    // again and found occupied, whatever the new validity.
    let vm2 = ApplyToBountyVM { validity: 2 };
    let r = apply_to_bounty(&mut store, &program_id, &ctx, &vm2);
    assert_eq!(r.unwrap_err(), BountyBoardError::DuplicateRecord);
    assert_eq!(store.len(), 2);
    match store.get(&app_addr).unwrap() {
        Record::Application(a) => assert_eq!(a.validity, 1),
        _ => panic!("expected a bounty application"),
    }
}

#[test]
fn apply_empty_catalog_fails_no_default_role() {
    let mut store = Store::new();
    let program_id = addr(9);
    let board = BountyBoard { address: addr(1), realm: addr(2), roles: vec![] };
    let ctx = applicant_ctx(board, addr(5), addr(4));
    let vm = ApplyToBountyVM { validity: 1 };
    let r = apply_to_bounty(&mut store, &program_id, &ctx, &vm);
    assert_eq!(r.unwrap_err(), BountyBoardError::NoDefaultRole);
    assert_eq!(store.len(), 0);
}

#[test]
fn apply_requires_applicant_signature() {
    let mut store = Store::new();
    let program_id = addr(9);
    let mut ctx = applicant_ctx(member_admin_board(), addr(5), addr(4));
    ctx.applicant_signed = false;
    let vm = ApplyToBountyVM { validity: 1 };
    let r = apply_to_bounty(&mut store, &program_id, &ctx, &vm);
    assert_eq!(r.unwrap_err(), BountyBoardError::AuthorizationFailure);
    assert_eq!(store.len(), 0);
}

#[test]
fn apply_insufficient_funds_for_application() {
    let mut store = Store::new();
    let program_id = addr(9);
    let mut ctx = applicant_ctx(member_admin_board(), addr(5), addr(4));
    ctx.applicant_balance = 4;
    ctx.application_cost = 5;
    let vm = ApplyToBountyVM { validity: 1 };
    let r = apply_to_bounty(&mut store, &program_id, &ctx, &vm);
    assert_eq!(r.unwrap_err(), BountyBoardError::InsufficientResources);
    assert_eq!(store.len(), 0);
}

#[test]
fn apply_insufficient_funds_for_record_creation() {
    // The balance covers the application alone; a fresh wallet also needs
    // its contributor record paid for.
    let mut store = Store::new();
    let program_id = addr(9);
    let mut ctx = applicant_ctx(member_admin_board(), addr(5), addr(4));
    ctx.applicant_balance = 14;
    ctx.application_cost = 5;
    ctx.record_cost = 10;
    let vm = ApplyToBountyVM { validity: 1 };
    let r = apply_to_bounty(&mut store, &program_id, &ctx, &vm);
    assert_eq!(r.unwrap_err(), BountyBoardError::InsufficientResources);
    assert_eq!(store.len(), 0);

    // An existing record costs nothing: the same balance then suffices.
    let gov = governance_ctx(member_admin_board());
    let data = AddContributorWithRoleVM {
        contributor_wallet: addr(4),
        role_name: b"member".to_vec(),
    };
    add_contributor_with_role(&mut store, &program_id, &gov, &data).unwrap();
    let r = apply_to_bounty(&mut store, &program_id, &ctx, &vm);
    assert!(r.is_ok());
}

#[test]
fn overlong_seed_fails_address_unresolvable() {
    // A parent identifier longer than the host's seed-length cap leaves
    // the derivation without any viable address.
    let mut store = Store::new();
    let program_id = addr(9);
    let board = BountyBoard {
        address: Address { bytes: vec![1; 33] },
        realm: addr(2),
        roles: vec![rn("member")],
    };
    let ctx = governance_ctx(board);
    let data = AddContributorWithRoleVM {
        contributor_wallet: addr(3),
        role_name: b"member".to_vec(),
    };
    let r = add_contributor_with_role(&mut store, &program_id, &ctx, &data);
    assert_eq!(r.unwrap_err(), BountyBoardError::AddressUnresolvable);
    assert_eq!(store.len(), 0);
}

#[test]
fn role_name_padding_exact_bytes() {
    let rn = role_name_from_bytes(&b"admin".to_vec()).unwrap();
    let mut expected = vec![97u8, 100, 109, 105, 110];
    expected.extend(std::iter::repeat(0u8).take(19));
    assert_eq!(rn.bytes, expected);
    assert_eq!(rn.bytes.len(), 24);
}

#[test]
fn role_name_longer_than_capacity_rejected() {
    assert!(role_name_from_bytes(&vec![b'x'; 25]).is_none());
    assert!(role_name_from_bytes(&vec![b'x'; 24]).is_some());
}

#[test]
fn derived_address_matches_host_derivation() {
    let program_id = addr(9);
    let lib_addr = derive_contributor_record_address(&program_id, &addr(1), &addr(3)).unwrap();
    let pid = solana_program::pubkey::Pubkey::new_from_array([9u8; 32]);
    let (expected, _bump) = solana_program::pubkey::Pubkey::find_program_address(
        &[b"bounty_board", &[1u8; 32], b"contributor_record", &[3u8; 32]],
        &pid,
    );
    assert_eq!(lib_addr.bytes, expected.to_bytes().to_vec());

    let lib_app = derive_bounty_application_address(&program_id, &addr(5), &lib_addr).unwrap();
    let (expected_app, _bump) = solana_program::pubkey::Pubkey::find_program_address(
        &[b"bounty_board", &[5u8; 32], b"bounty_application", &expected.to_bytes()],
        &pid,
    );
    assert_eq!(lib_app.bytes, expected_app.to_bytes().to_vec());
}

#[test]
fn derived_address_deterministic_and_distinct() {
    let program_id = addr(9);
    let a1 = derive_contributor_record_address(&program_id, &addr(1), &addr(3)).unwrap();
    let a2 = derive_contributor_record_address(&program_id, &addr(1), &addr(3)).unwrap();
    assert_eq!(a1.bytes, a2.bytes);

    let other_wallet = derive_contributor_record_address(&program_id, &addr(1), &addr(4)).unwrap();
    assert_ne!(a1.bytes, other_wallet.bytes);
    let other_board = derive_contributor_record_address(&program_id, &addr(2), &addr(3)).unwrap();
    assert_ne!(a1.bytes, other_board.bytes);

    // The derived address is none of the inputs.
    assert_ne!(a1.bytes, addr(1).bytes);
    assert_ne!(a1.bytes, addr(3).bytes);
}

#[test]
fn scenario_member_admin_catalog() {
    // Catalog ["member", "admin"].  Governance registers wallet W as
    // "admin"; then applicant X, with no prior record, applies to bounty B
    // with validity 10 at ledger time T.
    let mut store = Store::new();
    let program_id = addr(9);
    let w = addr(3);
    let x = addr(4);
    let b = addr(5);
    let t: i64 = 42_000;

    let gov = governance_ctx(member_admin_board());
    let data = AddContributorWithRoleVM { contributor_wallet: w, role_name: b"admin".to_vec() };
    let w_rec = add_contributor_with_role(&mut store, &program_id, &gov, &data).unwrap();
    match store.get(&w_rec).unwrap() {
        Record::Contributor(c) => {
            assert_eq!(c.role.bytes, padded("admin"));
            assert_eq!(c.reputation, 0);
        }
        _ => panic!("expected a contributor record"),
    }

    let mut ctx = applicant_ctx(member_admin_board(), b.clone(), x.clone());
    ctx.clock_unix_timestamp = t;
    let vm = ApplyToBountyVM { validity: 10 };
    let app_addr = apply_to_bounty(&mut store, &program_id, &ctx, &vm).unwrap();

    let x_rec = derive_contributor_record_address(&program_id, &addr(1), &x).unwrap();
    match store.get(&x_rec).unwrap() {
        Record::Contributor(c) => {
            assert_eq!(c.role.bytes, padded("member"));
            assert_eq!(c.reputation, 0);
        }
        _ => panic!("expected a contributor record"),
    }
    match store.get(&app_addr).unwrap() {
        Record::Application(a) => {
            assert_eq!(a.bounty.bytes, b.bytes);
            assert_eq!(a.applicant.bytes, x.bytes);
            assert_eq!(a.status, BountyApplicationStatus::NotAssigned);
            assert_eq!(a.applied_at, t);
            assert_eq!(a.validity, 10);
        }
        _ => panic!("expected a bounty application"),
    }
}
