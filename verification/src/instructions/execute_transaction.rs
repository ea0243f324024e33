use vstd::prelude::*;

use crate::error::MultisigError;
use crate::pubkey::contains_key;
use crate::pubkey::copy_keys;
use crate::pubkey::lemma_remove_key_properties;
use crate::pubkey::remove_key;
use crate::pubkey::Pubkey;
use crate::state::multisig::members_wf;
use crate::state::multisig::Multisig;
use crate::state::transaction::Instruction;
use crate::state::transaction::InstructionView;
use crate::state::transaction::MultisigAction;
use crate::state::transaction::Transaction;
use crate::state::transaction::TransactionType;

verus! {

/// What execution validates before any action is applied, in order: the
/// executor must be a member of the registry, the approvals collected must
/// meet the threshold, and the transaction must not have been executed.
pub open spec fn execute_check(
    threshold: u8,
    members: Seq<Pubkey>,
    signers: Seq<Pubkey>,
    executed: bool,
    member: Pubkey,
) -> Result<(), MultisigError> {
    if !members.contains(member) {
        Err(MultisigError::UnauthorizedMember)
    } else if signers.len() < threshold as int {
        Err(MultisigError::InsufficientVotes)
    } else if executed {
        Err(MultisigError::TransactionAlreadyExecuted)
    } else {
        Ok(())
    }
}

/// What one membership action does to the registry. Adding requires the
/// identity to be new and appends it. Removing requires the member count to
/// exceed the threshold strictly and the identity to be present, and drops
/// every occurrence of it. Setting the threshold requires the new value to
/// lie between one and the member count as it stands at that point.
pub open spec fn apply_action(
    threshold: u8,
    members: Seq<Pubkey>,
    action: MultisigAction,
) -> Result<(u8, Seq<Pubkey>), MultisigError> {
    match action {
        MultisigAction::AddMember { member } => if members.contains(member) {
            Err(MultisigError::MemberAlreadyExists)
        } else {
            Ok((threshold, members.push(member)))
        },
        MultisigAction::RemoveMember { member } => if members.len() <= threshold as int {
            Err(MultisigError::CannotRemoveMemberBelowThreshold)
        } else if !members.contains(member) {
            Err(MultisigError::MemberDoesNotExist)
        } else {
            Ok((threshold, members.filter(|k: Pubkey| k != member)))
        },
        MultisigAction::SetThreshold { threshold: value } => if value == 0 || value as int
            > members.len() {
            Err(MultisigError::InvalidThreshold)
        } else {
            Ok((value, members))
        },
    }
}

/// What a whole batch does to the registry: the actions run in list order,
/// each membership action observing the member list and threshold as
/// already altered by the actions before it; external calls leave the
/// registry as it is. The first failing action decides the error, and a
/// failing batch has no effect at all.
pub open spec fn apply_transaction_types(
    threshold: u8,
    members: Seq<Pubkey>,
    transaction_types: Seq<TransactionType>,
) -> Result<(u8, Seq<Pubkey>), MultisigError>
    decreases transaction_types.len(),
{
    if transaction_types.len() == 0 {
        Ok((threshold, members))
    } else {
        let rest = transaction_types.subrange(1, transaction_types.len() as int);
        match transaction_types[0] {
            TransactionType::Instruction(_) => apply_transaction_types(threshold, members, rest),
            TransactionType::MultisigAction(action) => match apply_action(
                threshold,
                members,
                action,
            ) {
                Ok(next) => apply_transaction_types(next.0, next.1, rest),
                Err(e) => Err(e),
            },
        }
    }
}

/// The external calls a batch asks for, in list order.
pub open spec fn external_calls(transaction_types: Seq<TransactionType>) -> Seq<InstructionView>
    decreases transaction_types.len(),
{
    if transaction_types.len() == 0 {
        Seq::empty()
    } else {
        let rest = external_calls(transaction_types.drop_last());
        match transaction_types.last() {
            TransactionType::Instruction(instruction) => rest.push(instruction@),
            TransactionType::MultisigAction(_) => rest,
        }
    }
}

/// Everything execution decides: the entry checks first, then the batch.
pub open spec fn execute_full(
    threshold: u8,
    members: Seq<Pubkey>,
    signers: Seq<Pubkey>,
    executed: bool,
    member: Pubkey,
    transaction_types: Seq<TransactionType>,
) -> Result<(u8, Seq<Pubkey>), MultisigError> {
    match execute_check(threshold, members, signers, executed, member) {
        Ok(_) => apply_transaction_types(threshold, members, transaction_types),
        Err(e) => Err(e),
    }
}

/// Executes the transaction on behalf of `member`. On success the
/// registry's threshold and member list are what the batch makes of them,
/// the transaction is marked executed, and the external calls of the batch
/// come back in list order for the host to dispatch under the group's
/// derived signing authority; a host for which such a dispatch fails must
/// discard the records written here rather than commit them, so that a
/// failing batch has no durable effect. On any refusal both records are
/// left untouched.
pub fn execute_transaction(
    multisig: &mut Multisig,
    transaction: &mut Transaction,
    member: Pubkey,
) -> (result: Result<Vec<Instruction>, MultisigError>)
    ensures
        result is Ok <==> execute_full(
            old(multisig).threshold,
            old(multisig).members@,
            old(transaction).signers@,
            old(transaction).executed,
            member,
            old(transaction).transaction_types@,
        ) is Ok,
        result matches Err(e) ==> {
            &&& execute_full(
                old(multisig).threshold,
                old(multisig).members@,
                old(transaction).signers@,
                old(transaction).executed,
                member,
                old(transaction).transaction_types@,
            ) == Err::<(u8, Seq<Pubkey>), MultisigError>(e)
            &&& *final(multisig) == *old(multisig)
            &&& *final(transaction) == *old(transaction)
        },
        result matches Ok(calls) ==> {
            &&& apply_transaction_types(
                old(multisig).threshold,
                old(multisig).members@,
                old(transaction).transaction_types@,
            ) == Ok::<(u8, Seq<Pubkey>), MultisigError>(
                (final(multisig).threshold, final(multisig).members@),
            )
            &&& final(multisig).bump == old(multisig).bump
            &&& final(multisig).base == old(multisig).base
            &&& final(multisig).next_transaction_id == old(multisig).next_transaction_id
            &&& final(transaction).executed == true
            &&& final(transaction).bump == old(transaction).bump
            &&& final(transaction).id == old(transaction).id
            &&& final(transaction).multisig == old(transaction).multisig
            &&& final(transaction).proposer == old(transaction).proposer
            &&& final(transaction).signers@ == old(transaction).signers@
            &&& final(transaction).transaction_types@ == old(transaction).transaction_types@
            &&& calls@.map_values(|instruction: Instruction| instruction@) == external_calls(
                old(transaction).transaction_types@,
            )
        },
{
    if !contains_key(&multisig.members, member) {
        return Err(MultisigError::UnauthorizedMember);
    }
    if transaction.signers.len() < multisig.threshold as usize {
        return Err(MultisigError::InsufficientVotes);
    }
    if transaction.executed {
        return Err(MultisigError::TransactionAlreadyExecuted);
    }

    let ghost threshold0 = multisig.threshold;
    let ghost members0 = multisig.members@;
    let ghost all_types = transaction.transaction_types@;

    let mut threshold: u8 = multisig.threshold;
    let mut members: Vec<Pubkey> = copy_keys(&multisig.members);
    let mut calls: Vec<Instruction> = Vec::new();
    let mut i: usize = 0;
    proof {
        assert(all_types.subrange(0, all_types.len() as int) =~= all_types);
        assert(all_types.subrange(0, 0) =~= Seq::<TransactionType>::empty());
        assert(calls@.map_values(|instruction: Instruction| instruction@) =~= external_calls(
            all_types.subrange(0, 0),
        ));
    }
    while i < transaction.transaction_types.len()
        invariant
            0 <= i <= all_types.len(),
            *multisig == *old(multisig),
            *transaction == *old(transaction),
            threshold0 == old(multisig).threshold,
            members0 == old(multisig).members@,
            all_types == old(transaction).transaction_types@,
            execute_check(
                old(multisig).threshold,
                old(multisig).members@,
                old(transaction).signers@,
                old(transaction).executed,
                member,
            ) is Ok,
            apply_transaction_types(threshold0, members0, all_types) == apply_transaction_types(
                threshold,
                members@,
                all_types.subrange(i as int, all_types.len() as int),
            ),
            calls@.map_values(|instruction: Instruction| instruction@) == external_calls(
                all_types.subrange(0, i as int),
            ),
        decreases all_types.len() - i,
    {
        let ghost rest = all_types.subrange(i as int, all_types.len() as int);
        proof {
            assert(rest[0] == all_types[i as int]);
            assert(rest.subrange(1, rest.len() as int) =~= all_types.subrange(
                i + 1,
                all_types.len() as int,
            ));
            assert(all_types.subrange(0, i + 1).drop_last() =~= all_types.subrange(0, i as int));
            assert(all_types.subrange(0, i + 1).last() == all_types[i as int]);
        }
        match &transaction.transaction_types[i] {
            TransactionType::Instruction(instruction) => {
                calls.push(instruction.duplicate());
                assert(calls@.map_values(|instruction: Instruction| instruction@)
                    =~= external_calls(all_types.subrange(0, i + 1)));
            },
            TransactionType::MultisigAction(action) => {
                match *action {
                    MultisigAction::AddMember { member: candidate } => {
                        if contains_key(&members, candidate) {
                            return Err(MultisigError::MemberAlreadyExists);
                        }
                        members.push(candidate);
                    },
                    MultisigAction::RemoveMember { member: candidate } => {
                        if members.len() <= threshold as usize {
                            return Err(MultisigError::CannotRemoveMemberBelowThreshold);
                        }
                        if !contains_key(&members, candidate) {
                            return Err(MultisigError::MemberDoesNotExist);
                        }
                        members = remove_key(&members, candidate);
                    },
                    MultisigAction::SetThreshold { threshold: value } => {
                        if value == 0 || value as usize > members.len() {
                            return Err(MultisigError::InvalidThreshold);
                        }
                        threshold = value;
                    },
                }
                assert(calls@.map_values(|instruction: Instruction| instruction@)
                    =~= external_calls(all_types.subrange(0, i + 1)));
            },
        }
        i = i + 1;
    }
    proof {
        assert(all_types.subrange(i as int, all_types.len() as int) =~= Seq::<
            TransactionType,
        >::empty());
        assert(all_types.subrange(0, i as int) =~= all_types);
    }
    multisig.threshold = threshold;
    multisig.members = members;
    transaction.executed = true;
    Ok(calls)
}

/// One successfully applied membership action keeps the registry well
/// formed.
pub proof fn lemma_apply_action_preserves_wf(
    threshold: u8,
    members: Seq<Pubkey>,
    action: MultisigAction,
)
    requires
        members_wf(threshold, members),
        apply_action(threshold, members, action) is Ok,
    ensures
        apply_action(threshold, members, action) matches Ok(next) ==> members_wf(next.0, next.1),
{
    match action {
        MultisigAction::AddMember { member } => {
            crate::pubkey::lemma_push_no_duplicates(members, member);
        },
        MultisigAction::RemoveMember { member } => {
            lemma_remove_key_properties(members, member);
        },
        MultisigAction::SetThreshold { threshold: _ } => {
        },
    }
}

/// For every valid registry, the member list stays duplicate-free and the
/// threshold stays between one and the member count across any
/// successfully applied batch.
pub proof fn lemma_apply_preserves_wf(
    threshold: u8,
    members: Seq<Pubkey>,
    transaction_types: Seq<TransactionType>,
)
    requires
        members_wf(threshold, members),
        apply_transaction_types(threshold, members, transaction_types) is Ok,
    ensures
        apply_transaction_types(threshold, members, transaction_types) matches Ok(next)
            ==> members_wf(next.0, next.1),
    decreases transaction_types.len(),
{
    if transaction_types.len() > 0 {
        let rest = transaction_types.subrange(1, transaction_types.len() as int);
        match transaction_types[0] {
            TransactionType::Instruction(_) => {
                lemma_apply_preserves_wf(threshold, members, rest);
            },
            TransactionType::MultisigAction(action) => {
                let step = apply_action(threshold, members, action);
                lemma_apply_action_preserves_wf(threshold, members, action);
                match step {
                    Ok(next) => {
                        lemma_apply_preserves_wf(next.0, next.1, rest);
                    },
                    Err(_) => {
                    },
                }
            },
        }
    }
}

/// For every valid registry, a successful execution leaves a valid
/// registry: the member list stays duplicate-free and the threshold stays
/// between one and the member count.
pub proof fn lemma_execute_preserves_wf(
    threshold: u8,
    members: Seq<Pubkey>,
    signers: Seq<Pubkey>,
    executed: bool,
    member: Pubkey,
    transaction_types: Seq<TransactionType>,
)
    requires
        members_wf(threshold, members),
    ensures
        execute_full(threshold, members, signers, executed, member, transaction_types) matches Ok(
            next,
        ) ==> members_wf(next.0, next.1),
{
    if execute_full(threshold, members, signers, executed, member, transaction_types) is Ok {
        lemma_apply_preserves_wf(threshold, members, transaction_types);
    }
}

/// Execution never succeeds without a quorum: when the batch goes through,
/// the executor was a member, the approvals met the threshold, and the
/// transaction had not been executed before. Together with the execution
/// contract this pins the executed flag to a single false-to-true flip.
pub proof fn lemma_quorum_required(
    threshold: u8,
    members: Seq<Pubkey>,
    signers: Seq<Pubkey>,
    executed: bool,
    member: Pubkey,
    transaction_types: Seq<TransactionType>,
)
    ensures
        execute_full(threshold, members, signers, executed, member, transaction_types) is Ok ==> {
            &&& members.contains(member)
            &&& signers.len() >= threshold as int
            &&& !executed
        },
{
}

/// An already executed transaction is never executed again: whatever else
/// holds, the entry checks refuse it.
pub proof fn lemma_no_reexecution(
    threshold: u8,
    members: Seq<Pubkey>,
    signers: Seq<Pubkey>,
    member: Pubkey,
    transaction_types: Seq<TransactionType>,
)
    ensures
        execute_full(threshold, members, signers, true, member, transaction_types) is Err,
{
}

/// Removal is allowed only while the member count strictly exceeds the
/// threshold: at exactly the threshold every removal is refused, and a
/// successful removal from a duplicate-free list lowers the count by
/// exactly one, never below the threshold.
pub proof fn lemma_remove_member_strict(threshold: u8, members: Seq<Pubkey>, member: Pubkey)
    ensures
        apply_action(threshold, members, (MultisigAction::RemoveMember { member })) is Ok <==> (
        members.len() > threshold as int && members.contains(member)),
        members.no_duplicates() ==> (apply_action(
            threshold,
            members,
            (MultisigAction::RemoveMember { member }),
        ) matches Ok(next) ==> next.1.len() == members.len() - 1 && next.1.len() >= threshold as int
            && next.0 == threshold),
{
    lemma_remove_key_properties(members, member);
}

/// Actions of one batch observe the effect of the actions before them: a
/// threshold change that follows an addition is validated against the
/// member count after that addition, and takes effect exactly when the new
/// threshold fits the grown list.
pub proof fn lemma_add_then_set_threshold(
    threshold: u8,
    members: Seq<Pubkey>,
    member: Pubkey,
    value: u8,
)
    requires
        !members.contains(member),
    ensures
        1 <= value as int <= members.len() + 1 ==> apply_transaction_types(
            threshold,
            members,
            add_then_set_batch(member, value),
        ) == Ok::<(u8, Seq<Pubkey>), MultisigError>((value, members.push(member))),
        value == 0 || value as int > members.len() + 1 ==> apply_transaction_types(
            threshold,
            members,
            add_then_set_batch(member, value),
        ) == Err::<(u8, Seq<Pubkey>), MultisigError>(MultisigError::InvalidThreshold),
{
    reveal_with_fuel(apply_transaction_types, 3);
    let batch = add_then_set_batch(member, value);
    let rest = batch.subrange(1, 2);
    assert(batch.subrange(1, batch.len() as int) =~= rest);
    assert(batch[0] == TransactionType::MultisigAction(MultisigAction::AddMember { member }));
    assert(rest[0] == TransactionType::MultisigAction(
        MultisigAction::SetThreshold { threshold: value },
    ));
    assert(rest.subrange(1, 1) =~= Seq::<TransactionType>::empty());
    assert(rest.subrange(1, rest.len() as int) =~= Seq::<TransactionType>::empty());
}

/// The two-action batch that adds a member and then changes the threshold.
pub open spec fn add_then_set_batch(member: Pubkey, value: u8) -> Seq<TransactionType> {
    seq![
        TransactionType::MultisigAction(MultisigAction::AddMember { member }),
        TransactionType::MultisigAction(MultisigAction::SetThreshold { threshold: value }),
    ]
}

} // verus!
