use vstd::prelude::*;

use crate::error::MultisigError;
use crate::pubkey::contains_key;
use crate::pubkey::Pubkey;
use crate::state::multisig::Multisig;
use crate::state::transaction::Transaction;

verus! {

/// The checks voting performs, in order: the voter must be a member of the
/// registry, the transaction must not have been executed, and the voter
/// must not have approved this transaction already. Membership is judged
/// against the registry as it stands at vote time.
pub open spec fn vote_check(
    members: Seq<Pubkey>,
    signers: Seq<Pubkey>,
    executed: bool,
    member: Pubkey,
) -> Result<(), MultisigError> {
    if !members.contains(member) {
        Err(MultisigError::UnauthorizedMember)
    } else if executed {
        Err(MultisigError::TransactionAlreadyExecuted)
    } else if signers.contains(member) {
        Err(MultisigError::MemberAlreadyVoted)
    } else {
        Ok(())
    }
}

/// Records `member`'s approval of the transaction: on success the member is
/// appended to the approval list, so approvals keep their arrival order; a
/// rejected vote leaves the transaction untouched. The registry is never
/// written by a vote.
pub fn cast_vote(multisig: &Multisig, transaction: &mut Transaction, member: Pubkey) -> (result:
    Result<(), MultisigError>)
    ensures
        result is Ok <==> vote_check(
            multisig.members@,
            old(transaction).signers@,
            old(transaction).executed,
            member,
        ) is Ok,
        result matches Err(e) ==> {
            &&& vote_check(
                multisig.members@,
                old(transaction).signers@,
                old(transaction).executed,
                member,
            ) == Err::<(), MultisigError>(e)
            &&& *final(transaction) == *old(transaction)
        },
        result is Ok ==> {
            &&& final(transaction).signers@ == old(transaction).signers@.push(member)
            &&& final(transaction).bump == old(transaction).bump
            &&& final(transaction).executed == old(transaction).executed
            &&& final(transaction).id == old(transaction).id
            &&& final(transaction).multisig == old(transaction).multisig
            &&& final(transaction).proposer == old(transaction).proposer
            &&& final(transaction).transaction_types@ == old(transaction).transaction_types@
        },
{
    if !contains_key(&multisig.members, member) {
        return Err(MultisigError::UnauthorizedMember);
    }
    if transaction.executed {
        return Err(MultisigError::TransactionAlreadyExecuted);
    }
    if contains_key(&transaction.signers, member) {
        return Err(MultisigError::MemberAlreadyVoted);
    }
    transaction.signers.push(member);
    Ok(())
}

/// A member's approval is counted once: right after a successful vote, a
/// second vote by the same member is refused as a duplicate.
pub proof fn lemma_no_double_vote(members: Seq<Pubkey>, signers: Seq<Pubkey>, member: Pubkey)
    requires
        vote_check(members, signers, false, member) is Ok,
    ensures
        vote_check(members, signers.push(member), false, member) == Err::<(), MultisigError>(
            MultisigError::MemberAlreadyVoted,
        ),
{
    assert(signers.push(member)[signers.len() as int] == member);
    assert(signers.push(member).contains(member));
}

/// A successful vote keeps the approval list free of duplicates.
pub proof fn lemma_vote_keeps_distinct(members: Seq<Pubkey>, signers: Seq<Pubkey>, member: Pubkey)
    requires
        signers.no_duplicates(),
        vote_check(members, signers, false, member) is Ok,
    ensures
        signers.push(member).no_duplicates(),
{
    let out = signers.push(member);
    assert forall|i: int, j: int|
        0 <= i < out.len() && 0 <= j < out.len() && i != j implies out[i] != out[j] by {
        if i < signers.len() && j < signers.len() {
            assert(signers[i] == out[i] && signers[j] == out[j]);
        } else if i == signers.len() {
            assert(out[i] == member);
            if out[j] == member {
                assert(signers[j] == member);
                assert(signers.contains(member));
            }
        } else {
            assert(out[j] == member);
            if out[i] == member {
                assert(signers[i] == member);
                assert(signers.contains(member));
            }
        }
    }
}

} // verus!
