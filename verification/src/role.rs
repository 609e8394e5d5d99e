//! Fixed-capacity role names and validation against a board's catalog.
//!
//! A role name is stored in a fixed 24-byte buffer, zero-padded on the
//! right.  A candidate name longer than the capacity is rejected outright
//! rather than truncated, so two distinct names can never collide after
//! padding.  The default role for self-service registration is the first
//! entry of the catalog, in catalog order.

use vstd::prelude::*;
use crate::bytes::bytes_dup;
use crate::bytes::bytes_eq;
use crate::errors::BountyBoardError;

verus! {

/// Capacity, in bytes, of a stored role name.
pub const ROLE_NAME_LEN: usize = 24;

/// A role name held in a fixed-capacity, zero-padded buffer.
#[derive(Clone, Debug)]
pub struct RoleName {
    pub bytes: Vec<u8>,
}

impl View for RoleName {
    type V = Seq<u8>;

    open spec fn view(&self) -> Seq<u8> {
        self.bytes@
    }
}

impl RoleName {
    /// A well-formed role name fills its buffer exactly.
    pub open spec fn wf(&self) -> bool {
        self.bytes@.len() == ROLE_NAME_LEN
    }

    /// An identical copy of this role name.
    pub fn duplicate(&self) -> (r: RoleName)
        ensures
            r@ == self@,
    {
        RoleName { bytes: bytes_dup(&self.bytes) }
    }
}

/// The stored form of a candidate role name: the name itself, zero-padded
/// on the right up to the buffer capacity.
pub open spec fn padded_role(name: Seq<u8>) -> Seq<u8>
    recommends
        name.len() <= ROLE_NAME_LEN,
{
    name + Seq::new((ROLE_NAME_LEN as int - name.len() as int) as nat, |i: int| 0u8)
}

/// The catalog entries of a board, as byte strings.
pub open spec fn roles_view(roles: Seq<RoleName>) -> Seq<Seq<u8>> {
    roles.map_values(|r: RoleName| r@)
}

/// True iff the candidate name fits the buffer and its padded form equals
/// some entry of the catalog.
pub open spec fn role_in_catalog(name: Seq<u8>, roles: Seq<Seq<u8>>) -> bool {
    &&& name.len() <= ROLE_NAME_LEN
    &&& exists|i: int| 0 <= i < roles.len() && roles[i] == padded_role(name)
}

/// The designated default role of a catalog: its first entry.
pub open spec fn default_role(roles: Seq<Seq<u8>>) -> Seq<u8>
    recommends
        roles.len() > 0,
{
    roles[0]
}

/// Zero-pads a candidate role name into its stored form; a name longer
/// than the buffer capacity is rejected.
pub fn role_name_from_bytes(name: &Vec<u8>) -> (r: Option<RoleName>)
    ensures
        name@.len() <= ROLE_NAME_LEN ==> (r matches Some(rn) && rn@ == padded_role(name@)
            && rn.wf()),
        name@.len() > ROLE_NAME_LEN ==> r is None,
{
    if name.len() > ROLE_NAME_LEN {
        return None;
    }
    let mut buf = bytes_dup(name);
    while buf.len() < ROLE_NAME_LEN
        invariant
            name@.len() <= ROLE_NAME_LEN,
            name@.len() <= buf@.len() <= ROLE_NAME_LEN,
            forall|j: int| 0 <= j < name@.len() ==> buf@[j] == name@[j],
            forall|j: int| name@.len() <= j < buf@.len() ==> buf@[j] == 0u8,
        decreases ROLE_NAME_LEN - buf@.len(),
    {
        buf.push(0u8);
    }
    proof {
        assert(buf@ =~= padded_role(name@));
    }
    Some(RoleName { bytes: buf })
}

/// True iff the candidate name, in its stored form, equals some entry of
/// the board's catalog.
pub fn validate_role(name: &Vec<u8>, roles: &Vec<RoleName>) -> (r: bool)
    ensures
        r == role_in_catalog(name@, roles_view(roles@)),
{
    let padded = match role_name_from_bytes(name) {
        Some(p) => p,
        None => {
            return false;
        },
    };
    let n: usize = roles.len();
    let mut i: usize = 0;
    while i < n
        invariant
            n == roles@.len(),
            0 <= i <= n,
            name@.len() <= ROLE_NAME_LEN,
            padded@ == padded_role(name@),
            forall|j: int| 0 <= j < i ==> roles_view(roles@)[j] != padded_role(name@),
        decreases n - i,
    {
        if bytes_eq(&roles[i].bytes, &padded.bytes) {
            proof {
                assert(roles_view(roles@)[i as int] == padded_role(name@));
            }
            return true;
        }
        proof {
            assert(roles_view(roles@)[i as int] == roles@[i as int]@);
        }
        i += 1;
    }
    false
}

/// Resolves the catalog's default role, or reports that the catalog is
/// empty.
pub fn get_default_role(roles: &Vec<RoleName>) -> (r: Result<RoleName, BountyBoardError>)
    ensures
        roles@.len() > 0 ==> (r matches Ok(rn) && rn@ == default_role(roles_view(roles@))),
        roles@.len() == 0 ==> (r matches Err(e) && e == BountyBoardError::NoDefaultRole),
{
    if roles.len() == 0 {
        Err(BountyBoardError::NoDefaultRole)
    } else {
        Ok(roles[0].duplicate())
    }
}

} // verus!
