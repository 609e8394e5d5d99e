//! Deterministic address derivation for bounty-board records.
//!
//! Every record of the registry lives at an address derived from an ordered
//! list of byte-string seeds: a fixed program-namespace tag, the parent
//! record's address, a record-type tag, and the subject's identifier.  The
//! derivation is a pure function of the seeds and the program id, so the
//! same (parent, subject) pair always resolves to the same address; the
//! store's allocate-or-fail primitive then turns address equality into the
//! uniqueness guarantee of the whole registry.

use vstd::prelude::*;
use crate::bytes::bytes_dup;

verus! {

/// A 32-byte storage address (a public key of the host ledger).
#[derive(Clone, Debug)]
pub struct Address {
    pub bytes: Vec<u8>,
}

impl View for Address {
    type V = Seq<u8>;

    open spec fn view(&self) -> Seq<u8> {
        self.bytes@
    }
}

impl Address {
    /// A well-formed address is exactly 32 bytes.
    pub open spec fn wf(&self) -> bool {
        self.bytes@.len() == 32
    }

    /// An identical copy of this address.
    pub fn duplicate(&self) -> (r: Address)
        ensures
            r@ == self@,
    {
        Address { bytes: bytes_dup(&self.bytes) }
    }
}

/// The address that the host ledger's program-derived-address search
/// resolves for the given seeds under the given program id, or `None` in
/// the statistically improbable event that no viable address exists.
pub uninterp spec fn pda_of(seeds: Seq<Seq<u8>>, program_id: Seq<u8>) -> Option<Seq<u8>>;

/// Relies on `solana_program`'s `Pubkey::try_find_program_address`: the
/// derived address is a pure function of the seeds and the program id, it
/// is 32 bytes long, and `None` is returned only when no bump seed yields a
/// viable address.
#[verifier::external_body]
fn try_derive_address(
    seed0: &Vec<u8>,
    seed1: &Vec<u8>,
    seed2: &Vec<u8>,
    seed3: &Vec<u8>,
    program_id: &Address,
) -> (r: Option<Address>)
    requires
        program_id.wf(),
    ensures
        match r {
            Some(a) => a.wf() && Some(a@) == pda_of(
                seq![seed0@, seed1@, seed2@, seed3@],
                program_id@,
            ),
            None => pda_of(seq![seed0@, seed1@, seed2@, seed3@], program_id@) is None,
        },
{
    let mut pid = [0u8; 32];
    pid.copy_from_slice(program_id.bytes.as_slice());
    let pid = solana_program::pubkey::Pubkey::new_from_array(pid);
    let seeds: [&[u8]; 4] = [
        seed0.as_slice(),
        seed1.as_slice(),
        seed2.as_slice(),
        seed3.as_slice(),
    ];
    solana_program::pubkey::Pubkey::try_find_program_address(&seeds, &pid)
        .map(|(addr, _bump)| Address { bytes: addr.to_bytes().to_vec() })
}

/// The fixed program-namespace tag that leads every seed list.
pub open spec fn program_authority_seed() -> Seq<u8> {
    seq![98u8, 111u8, 117u8, 110u8, 116u8, 121u8, 95u8, 98u8, 111u8, 97u8, 114u8, 100u8]
}

/// The record-type tag of contributor records.
pub open spec fn contributor_record_tag() -> Seq<u8> {
    seq![
        99u8, 111u8, 110u8, 116u8, 114u8, 105u8, 98u8, 117u8, 116u8, 111u8, 114u8, 95u8,
        114u8, 101u8, 99u8, 111u8, 114u8, 100u8,
    ]
}

/// The record-type tag of bounty applications.
pub open spec fn bounty_application_tag() -> Seq<u8> {
    seq![
        98u8, 111u8, 117u8, 110u8, 116u8, 121u8, 95u8, 97u8, 112u8, 112u8, 108u8, 105u8,
        99u8, 97u8, 116u8, 105u8, 111u8, 110u8,
    ]
}

/// The namespace tag `"bounty_board"` as a byte vector.
pub fn program_authority_seed_vec() -> (r: Vec<u8>)
    ensures
        r@ == program_authority_seed(),
{
    let r: Vec<u8> = vec![98u8, 111u8, 117u8, 110u8, 116u8, 121u8, 95u8, 98u8, 111u8, 97u8, 114u8, 100u8];
    proof {
        assert(r@ =~= program_authority_seed());
    }
    r
}

/// The tag `"contributor_record"` as a byte vector.
pub fn contributor_record_tag_vec() -> (r: Vec<u8>)
    ensures
        r@ == contributor_record_tag(),
{
    let r: Vec<u8> = vec![
        99u8, 111u8, 110u8, 116u8, 114u8, 105u8, 98u8, 117u8, 116u8, 111u8, 114u8, 95u8,
        114u8, 101u8, 99u8, 111u8, 114u8, 100u8,
    ];
    proof {
        assert(r@ =~= contributor_record_tag());
    }
    r
}

/// The tag `"bounty_application"` as a byte vector.
pub fn bounty_application_tag_vec() -> (r: Vec<u8>)
    ensures
        r@ == bounty_application_tag(),
{
    let r: Vec<u8> = vec![
        98u8, 111u8, 117u8, 110u8, 116u8, 121u8, 95u8, 97u8, 112u8, 112u8, 108u8, 105u8,
        99u8, 97u8, 116u8, 105u8, 111u8, 110u8,
    ];
    proof {
        assert(r@ =~= bounty_application_tag());
    }
    r
}

/// The seed list that addresses a contributor record: one record per
/// (bounty board, wallet) pair.
pub open spec fn contributor_record_seeds(board: Seq<u8>, wallet: Seq<u8>) -> Seq<Seq<u8>> {
    seq![program_authority_seed(), board, contributor_record_tag(), wallet]
}

/// The derived address of the contributor record of `wallet` under `board`.
pub open spec fn contributor_record_pda(
    program_id: Seq<u8>,
    board: Seq<u8>,
    wallet: Seq<u8>,
) -> Option<Seq<u8>> {
    pda_of(contributor_record_seeds(board, wallet), program_id)
}

/// The seed list that addresses a bounty application: one application per
/// (bounty, contributor record) pair.
pub open spec fn bounty_application_seeds(
    bounty: Seq<u8>,
    contributor_record: Seq<u8>,
) -> Seq<Seq<u8>> {
    seq![program_authority_seed(), bounty, bounty_application_tag(), contributor_record]
}

/// The derived address of the application of `contributor_record` to
/// `bounty`.
pub open spec fn bounty_application_pda(
    program_id: Seq<u8>,
    bounty: Seq<u8>,
    contributor_record: Seq<u8>,
) -> Option<Seq<u8>> {
    pda_of(bounty_application_seeds(bounty, contributor_record), program_id)
}

/// Derives the address of the contributor record of `wallet` under
/// `board`.
pub fn derive_contributor_record_address(
    program_id: &Address,
    board: &Address,
    wallet: &Address,
) -> (r: Option<Address>)
    requires
        program_id.wf(),
    ensures
        match r {
            Some(a) => a.wf() && Some(a@) == contributor_record_pda(program_id@, board@, wallet@),
            None => contributor_record_pda(program_id@, board@, wallet@) is None,
        },
{
    let tag0 = program_authority_seed_vec();
    let tag2 = contributor_record_tag_vec();
    let r = try_derive_address(&tag0, &board.bytes, &tag2, &wallet.bytes, program_id);
    proof {
        assert(seq![tag0@, board.bytes@, tag2@, wallet.bytes@] =~= contributor_record_seeds(
            board@,
            wallet@,
        ));
    }
    r
}

/// Derives the address of the application of `contributor_record` to
/// `bounty`.
pub fn derive_bounty_application_address(
    program_id: &Address,
    bounty: &Address,
    contributor_record: &Address,
) -> (r: Option<Address>)
    requires
        program_id.wf(),
    ensures
        match r {
            Some(a) => a.wf() && Some(a@) == bounty_application_pda(
                program_id@,
                bounty@,
                contributor_record@,
            ),
            None => bounty_application_pda(program_id@, bounty@, contributor_record@) is None,
        },
{
    let tag0 = program_authority_seed_vec();
    let tag2 = bounty_application_tag_vec();
    let r = try_derive_address(&tag0, &bounty.bytes, &tag2, &contributor_record.bytes, program_id);
    proof {
        assert(seq![tag0@, bounty.bytes@, tag2@, contributor_record.bytes@]
            =~= bounty_application_seeds(bounty@, contributor_record@));
    }
    r
}

} // verus!
