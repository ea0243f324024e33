use vstd::prelude::*;

use crate::error::MultisigError;
use crate::pubkey::contains_key;
use crate::pubkey::Pubkey;
use crate::state::multisig::Multisig;
use crate::state::transaction::Transaction;
use crate::state::transaction::TransactionType;

verus! {

/// The checks proposing performs, in order: the proposer must be a member
/// of the registry, and the batch must carry at least one action.
pub open spec fn propose_check(
    members: Seq<Pubkey>,
    proposer: Pubkey,
    transaction_types: Seq<TransactionType>,
) -> Result<(), MultisigError> {
    if !members.contains(proposer) {
        Err(MultisigError::UnauthorizedMember)
    } else if transaction_types.len() == 0 {
        Err(MultisigError::EmptyTransactionTypesList)
    } else {
        Ok(())
    }
}

/// Proposes a transaction against the registry: on success the new record
/// takes the registry's current counter value as its id, starts with no
/// approvals and the executed flag clear, and the counter advances by one.
/// A rejected proposal leaves the registry untouched. `multisig_key` is the
/// registry record's storage address, kept on the transaction as a back
/// reference; `bump` is the transaction record's own derivation value.
pub fn propose_transaction(
    multisig: &mut Multisig,
    multisig_key: Pubkey,
    proposer: Pubkey,
    transaction_types: Vec<TransactionType>,
    bump: u8,
) -> (result: Result<Transaction, MultisigError>)
    requires
        old(multisig).next_transaction_id < u16::MAX,
    ensures
        result is Ok <==> propose_check(old(multisig).members@, proposer, transaction_types@)
            is Ok,
        result matches Err(e) ==> {
            &&& propose_check(old(multisig).members@, proposer, transaction_types@) == Err::<
                (),
                MultisigError,
            >(e)
            &&& *final(multisig) == *old(multisig)
        },
        result matches Ok(t) ==> {
            &&& t.bump == bump
            &&& t.executed == false
            &&& t.id == old(multisig).next_transaction_id
            &&& t.multisig == multisig_key
            &&& t.proposer == proposer
            &&& t.signers@ == Seq::<Pubkey>::empty()
            &&& t.transaction_types@ == transaction_types@
            &&& final(multisig).next_transaction_id == old(multisig).next_transaction_id + 1
            &&& final(multisig).threshold == old(multisig).threshold
            &&& final(multisig).bump == old(multisig).bump
            &&& final(multisig).base == old(multisig).base
            &&& final(multisig).members@ == old(multisig).members@
        },
{
    if !contains_key(&multisig.members, proposer) {
        return Err(MultisigError::UnauthorizedMember);
    }
    if transaction_types.len() == 0 {
        return Err(MultisigError::EmptyTransactionTypesList);
    }
    let transaction = Transaction {
        bump,
        executed: false,
        id: multisig.next_transaction_id,
        multisig: multisig_key,
        proposer,
        signers: Vec::new(),
        transaction_types,
    };
    multisig.next_transaction_id = multisig.next_transaction_id + 1;
    Ok(transaction)
}

/// The id counter never hands out a value twice: ids taken from a counter
/// that starts at zero and advances by one per successful proposal are
/// exactly 0, 1, 2, ... — strictly increasing with no gaps.
pub proof fn lemma_proposal_ids_gapless(counters: Seq<int>, ids: Seq<int>)
    requires
        counters.len() == ids.len() + 1,
        counters.len() >= 1,
        counters[0] == 0,
        forall|i: int| 0 <= i < ids.len() ==> #[trigger] ids[i] == counters[i],
        forall|i: int| 0 <= i < ids.len() ==> #[trigger] counters[i + 1] == counters[i] + 1,
    ensures
        forall|i: int| 0 <= i < ids.len() ==> #[trigger] ids[i] == i,
{
    assert forall|i: int| 0 <= i < ids.len() implies #[trigger] ids[i] == i by {
        lemma_counter_value(counters, ids.len() as int, i);
    }
}

proof fn lemma_counter_value(counters: Seq<int>, n: int, i: int)
    requires
        counters.len() == n + 1,
        n >= 0,
        counters[0] == 0,
        forall|j: int| 0 <= j < n ==> #[trigger] counters[j + 1] == counters[j] + 1,
        0 <= i <= n,
    ensures
        counters[i] == i,
    decreases i,
{
    if i > 0 {
        lemma_counter_value(counters, n, i - 1);
        assert(counters[(i - 1) + 1] == counters[i - 1] + 1);
    }
}

} // verus!
