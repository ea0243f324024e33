use vstd::prelude::*;

use crate::error::MultisigError;
use crate::pubkey::contains_key;
use crate::pubkey::Pubkey;
use crate::state::multisig::members_wf;
use crate::state::multisig::Multisig;

verus! {

/// The checks registry creation performs, in order: the member list must be
/// non-empty, the creator must appear in it, and the threshold must lie
/// between one and the member count. Creation stores the member list as
/// given; it neither rejects nor drops duplicate entries.
pub open spec fn create_check(members: Seq<Pubkey>, threshold: u8, creator: Pubkey) -> Result<
    (),
    MultisigError,
> {
    if members.len() == 0 {
        Err(MultisigError::EmptyMembersList)
    } else if !members.contains(creator) {
        Err(MultisigError::CreatorNotInMembers)
    } else if threshold == 0 || threshold as int > members.len() {
        Err(MultisigError::InvalidThreshold)
    } else {
        Ok(())
    }
}

/// Creates a registry for `members` with quorum `threshold`. `creator` must
/// be one of the members; `base` is the founding identity the group's
/// derived signing authority is computed from, and `bump` the stored
/// disambiguation value of that derivation. The id counter starts at zero.
pub fn create_multisig(
    members: Vec<Pubkey>,
    threshold: u8,
    creator: Pubkey,
    base: Pubkey,
    bump: u8,
) -> (result: Result<Multisig, MultisigError>)
    ensures
        result is Ok <==> create_check(members@, threshold, creator) is Ok,
        result matches Err(e) ==> create_check(members@, threshold, creator) == Err::<
            (),
            MultisigError,
        >(e),
        result matches Ok(m) ==> {
            &&& m.threshold == threshold
            &&& m.bump == bump
            &&& m.next_transaction_id == 0
            &&& m.base == base
            &&& m.members@ == members@
        },
{
    if members.len() == 0 {
        return Err(MultisigError::EmptyMembersList);
    }
    if !contains_key(&members, creator) {
        return Err(MultisigError::CreatorNotInMembers);
    }
    if threshold == 0 || threshold as usize > members.len() {
        return Err(MultisigError::InvalidThreshold);
    }
    Ok(Multisig { threshold, bump, next_transaction_id: 0, base, members })
}

/// A freshly created registry is well formed whenever the member list it
/// was given is duplicate-free.
pub proof fn lemma_create_wf(members: Seq<Pubkey>, threshold: u8, creator: Pubkey)
    requires
        create_check(members, threshold, creator) is Ok,
        members.no_duplicates(),
    ensures
        members_wf(threshold, members),
{
}

} // verus!
