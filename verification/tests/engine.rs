use multisig::cast_vote;
use multisig::create_multisig;
use multisig::execute_transaction;
use multisig::propose_transaction;
use multisig::AccountMeta;
use multisig::Instruction;
use multisig::Multisig;
use multisig::MultisigAction;
use multisig::MultisigError;
use multisig::Pubkey;
use multisig::Transaction;
use multisig::TransactionType;

fn key(n: u64) -> Pubkey {
    Pubkey { w0: n, w1: 0, w2: 0, w3: 0 }
}

fn registry(members: Vec<Pubkey>, threshold: u8) -> Multisig {
    create_multisig(members, threshold, key(1), key(900), 255).expect("valid registry")
}

fn sample_call(n: u64) -> Instruction {
    Instruction {
        program_id: key(700 + n),
        accounts: vec![
            AccountMeta { pubkey: key(800 + n), is_signer: false, is_writable: true },
            AccountMeta { pubkey: key(810 + n), is_signer: true, is_writable: false },
        ],
        data: vec![1, 2, 3, n as u8],
    }
}

fn proposal(registry: &mut Multisig, actions: Vec<TransactionType>) -> Transaction {
    propose_transaction(registry, key(600), key(1), actions, 254).expect("valid proposal")
}

#[test]
fn create_rejects_empty_members() {
    match create_multisig(Vec::new(), 0, key(1), key(900), 255) {
        Err(e) => assert_eq!(e, MultisigError::EmptyMembersList),
        Ok(_) => panic!("empty member list accepted"),
    }
}

#[test]
fn create_rejects_absent_creator() {
    match create_multisig(vec![key(1), key(2)], 2, key(3), key(900), 255) {
        Err(e) => assert_eq!(e, MultisigError::CreatorNotInMembers),
        Ok(_) => panic!("absent creator accepted"),
    }
}

#[test]
fn create_rejects_zero_threshold() {
    match create_multisig(vec![key(1), key(2)], 0, key(1), key(900), 255) {
        Err(e) => assert_eq!(e, MultisigError::InvalidThreshold),
        Ok(_) => panic!("zero threshold accepted"),
    }
}

#[test]
fn create_rejects_threshold_above_member_count() {
    match create_multisig(vec![key(1), key(2)], 3, key(1), key(900), 255) {
        Err(e) => assert_eq!(e, MultisigError::InvalidThreshold),
        Ok(_) => panic!("oversized threshold accepted"),
    }
}

#[test]
fn create_initializes_registry() {
    let m = registry(vec![key(1), key(2), key(3)], 2);
    assert_eq!(m.threshold, 2);
    assert_eq!(m.bump, 255);
    assert_eq!(m.next_transaction_id, 0);
    assert_eq!(m.base, key(900));
    assert_eq!(m.members, vec![key(1), key(2), key(3)]);
}

#[test]
fn create_keeps_member_list_as_given() {
    // Duplicate entries are neither rejected nor collapsed at creation.
    let m = registry(vec![key(1), key(1), key(2)], 2);
    assert_eq!(m.members, vec![key(1), key(1), key(2)]);
}

#[test]
fn propose_rejects_non_member() {
    let mut m = registry(vec![key(1), key(2)], 2);
    let actions = vec![TransactionType::Instruction(sample_call(0))];
    match propose_transaction(&mut m, key(600), key(5), actions, 254) {
        Err(e) => assert_eq!(e, MultisigError::UnauthorizedMember),
        Ok(_) => panic!("non-member proposal accepted"),
    }
    assert_eq!(m.next_transaction_id, 0);
}

#[test]
fn propose_rejects_empty_actions() {
    let mut m = registry(vec![key(1), key(2)], 2);
    match propose_transaction(&mut m, key(600), key(1), Vec::new(), 254) {
        Err(e) => assert_eq!(e, MultisigError::EmptyTransactionTypesList),
        Ok(_) => panic!("empty action batch accepted"),
    }
    assert_eq!(m.next_transaction_id, 0);
}

#[test]
fn propose_initializes_transaction() {
    let mut m = registry(vec![key(1), key(2)], 2);
    let t = proposal(&mut m, vec![TransactionType::Instruction(sample_call(0))]);
    assert_eq!(t.bump, 254);
    assert!(!t.executed);
    assert_eq!(t.id, 0);
    assert_eq!(t.multisig, key(600));
    assert_eq!(t.proposer, key(1));
    assert!(t.signers.is_empty());
    assert_eq!(t.transaction_types.len(), 1);
}

#[test]
fn propose_assigns_sequential_ids() {
    let mut m = registry(vec![key(1), key(2)], 2);
    let batch = || {
        vec![TransactionType::MultisigAction(MultisigAction::SetThreshold { threshold: 1 })]
    };
    let t0 = proposal(&mut m, batch());
    let t1 = proposal(&mut m, batch());
    // A rejected proposal must not consume an id.
    assert!(propose_transaction(&mut m, key(600), key(1), Vec::new(), 254).is_err());
    let t2 = proposal(&mut m, batch());
    assert_eq!(t0.id, 0);
    assert_eq!(t1.id, 1);
    assert_eq!(t2.id, 2);
    assert_eq!(m.next_transaction_id, 3);
}

#[test]
fn vote_rejects_non_member() {
    let mut m = registry(vec![key(1), key(2)], 2);
    let mut t = proposal(&mut m, vec![TransactionType::Instruction(sample_call(0))]);
    match cast_vote(&m, &mut t, key(9)) {
        Err(e) => assert_eq!(e, MultisigError::UnauthorizedMember),
        Ok(_) => panic!("non-member vote accepted"),
    }
    assert!(t.signers.is_empty());
}

#[test]
fn vote_rejects_double_vote() {
    let mut m = registry(vec![key(1), key(2)], 2);
    let mut t = proposal(&mut m, vec![TransactionType::Instruction(sample_call(0))]);
    assert!(cast_vote(&m, &mut t, key(1)).is_ok());
    match cast_vote(&m, &mut t, key(1)) {
        Err(e) => assert_eq!(e, MultisigError::MemberAlreadyVoted),
        Ok(_) => panic!("double vote accepted"),
    }
    assert_eq!(t.signers, vec![key(1)]);
}

#[test]
fn vote_rejects_executed_transaction() {
    let mut m = registry(vec![key(1), key(2)], 1);
    let mut t = proposal(&mut m, vec![TransactionType::Instruction(sample_call(0))]);
    assert!(cast_vote(&m, &mut t, key(1)).is_ok());
    assert!(execute_transaction(&mut m, &mut t, key(2)).is_ok());
    match cast_vote(&m, &mut t, key(2)) {
        Err(e) => assert_eq!(e, MultisigError::TransactionAlreadyExecuted),
        Ok(_) => panic!("vote on executed transaction accepted"),
    }
}

#[test]
fn vote_appends_in_arrival_order() {
    let mut m = registry(vec![key(1), key(2), key(3)], 3);
    let mut t = proposal(&mut m, vec![TransactionType::Instruction(sample_call(0))]);
    assert!(cast_vote(&m, &mut t, key(2)).is_ok());
    assert!(cast_vote(&m, &mut t, key(1)).is_ok());
    assert!(cast_vote(&m, &mut t, key(3)).is_ok());
    assert_eq!(t.signers, vec![key(2), key(1), key(3)]);
}

#[test]
fn execute_rejects_non_member() {
    let mut m = registry(vec![key(1), key(2)], 1);
    let mut t = proposal(&mut m, vec![TransactionType::Instruction(sample_call(0))]);
    assert!(cast_vote(&m, &mut t, key(1)).is_ok());
    match execute_transaction(&mut m, &mut t, key(9)) {
        Err(e) => assert_eq!(e, MultisigError::UnauthorizedMember),
        Ok(_) => panic!("non-member execution accepted"),
    }
    assert!(!t.executed);
}

#[test]
fn execute_rejects_insufficient_votes() {
    let mut m = registry(vec![key(1), key(2), key(3)], 2);
    let mut t = proposal(&mut m, vec![TransactionType::Instruction(sample_call(0))]);
    assert!(cast_vote(&m, &mut t, key(1)).is_ok());
    match execute_transaction(&mut m, &mut t, key(1)) {
        Err(e) => assert_eq!(e, MultisigError::InsufficientVotes),
        Ok(_) => panic!("execution below quorum accepted"),
    }
    assert!(!t.executed);
}

#[test]
fn execute_rejects_reexecution() {
    let mut m = registry(vec![key(1), key(2)], 1);
    let mut t = proposal(&mut m, vec![TransactionType::Instruction(sample_call(0))]);
    assert!(cast_vote(&m, &mut t, key(1)).is_ok());
    assert!(execute_transaction(&mut m, &mut t, key(1)).is_ok());
    assert!(t.executed);
    match execute_transaction(&mut m, &mut t, key(1)) {
        Err(e) => assert_eq!(e, MultisigError::TransactionAlreadyExecuted),
        Ok(_) => panic!("re-execution accepted"),
    }
    assert!(t.executed);
}

#[test]
fn execute_returns_external_calls_in_order() {
    let mut m = registry(vec![key(1), key(2)], 1);
    let mut t = proposal(
        &mut m,
        vec![
            TransactionType::Instruction(sample_call(1)),
            TransactionType::MultisigAction(MultisigAction::AddMember { member: key(3) }),
            TransactionType::Instruction(sample_call(2)),
        ],
    );
    assert!(cast_vote(&m, &mut t, key(1)).is_ok());
    let calls = execute_transaction(&mut m, &mut t, key(2)).expect("execution succeeds");
    assert_eq!(calls.len(), 2);
    for (call, want) in calls.iter().zip([sample_call(1), sample_call(2)].iter()) {
        assert_eq!(call.program_id, want.program_id);
        assert_eq!(call.accounts, want.accounts);
        assert_eq!(call.data, want.data);
    }
    assert_eq!(m.members, vec![key(1), key(2), key(3)]);
    assert!(t.executed);
}

#[test]
fn execute_add_rejects_existing_member() {
    let mut m = registry(vec![key(1), key(2)], 1);
    let mut t = proposal(
        &mut m,
        vec![TransactionType::MultisigAction(MultisigAction::AddMember { member: key(2) })],
    );
    assert!(cast_vote(&m, &mut t, key(1)).is_ok());
    match execute_transaction(&mut m, &mut t, key(1)) {
        Err(e) => assert_eq!(e, MultisigError::MemberAlreadyExists),
        Ok(_) => panic!("duplicate member accepted"),
    }
    assert_eq!(m.members, vec![key(1), key(2)]);
    assert!(!t.executed);
}

#[test]
fn execute_add_then_set_threshold_sees_grown_count() {
    // The threshold change is validated against the member count after the
    // addition earlier in the same batch.
    let mut m = registry(vec![key(1), key(2)], 2);
    let mut t = proposal(
        &mut m,
        vec![
            TransactionType::MultisigAction(MultisigAction::AddMember { member: key(3) }),
            TransactionType::MultisigAction(MultisigAction::SetThreshold { threshold: 3 }),
        ],
    );
    assert!(cast_vote(&m, &mut t, key(1)).is_ok());
    assert!(cast_vote(&m, &mut t, key(2)).is_ok());
    assert!(execute_transaction(&mut m, &mut t, key(1)).is_ok());
    assert_eq!(m.members, vec![key(1), key(2), key(3)]);
    assert_eq!(m.threshold, 3);
    assert!(t.executed);
}

#[test]
fn execute_set_threshold_above_count_fails_atomically() {
    // The whole batch is refused: the addition applied before the failing
    // threshold change must not stick.
    let mut m = registry(vec![key(1), key(2)], 1);
    let mut t = proposal(
        &mut m,
        vec![
            TransactionType::MultisigAction(MultisigAction::AddMember { member: key(3) }),
            TransactionType::MultisigAction(MultisigAction::SetThreshold { threshold: 4 }),
        ],
    );
    assert!(cast_vote(&m, &mut t, key(1)).is_ok());
    match execute_transaction(&mut m, &mut t, key(1)) {
        Err(e) => assert_eq!(e, MultisigError::InvalidThreshold),
        Ok(_) => panic!("oversized threshold accepted"),
    }
    assert_eq!(m.members, vec![key(1), key(2)]);
    assert_eq!(m.threshold, 1);
    assert!(!t.executed);
}

#[test]
fn execute_set_threshold_zero_fails() {
    let mut m = registry(vec![key(1), key(2)], 1);
    let mut t = proposal(
        &mut m,
        vec![TransactionType::MultisigAction(MultisigAction::SetThreshold { threshold: 0 })],
    );
    assert!(cast_vote(&m, &mut t, key(1)).is_ok());
    match execute_transaction(&mut m, &mut t, key(1)) {
        Err(e) => assert_eq!(e, MultisigError::InvalidThreshold),
        Ok(_) => panic!("zero threshold accepted"),
    }
    assert_eq!(m.threshold, 1);
    assert!(!t.executed);
}

#[test]
fn execute_remove_at_threshold_fails() {
    // members {1, 2, 3}, threshold 3: any removal is refused.
    let mut m = registry(vec![key(1), key(2), key(3)], 3);
    let mut t = proposal(
        &mut m,
        vec![TransactionType::MultisigAction(MultisigAction::RemoveMember { member: key(3) })],
    );
    assert!(cast_vote(&m, &mut t, key(1)).is_ok());
    assert!(cast_vote(&m, &mut t, key(2)).is_ok());
    assert!(cast_vote(&m, &mut t, key(3)).is_ok());
    match execute_transaction(&mut m, &mut t, key(1)) {
        Err(e) => assert_eq!(e, MultisigError::CannotRemoveMemberBelowThreshold),
        Ok(_) => panic!("removal at the threshold accepted"),
    }
    assert_eq!(m.members, vec![key(1), key(2), key(3)]);
}

#[test]
fn execute_remove_above_threshold_succeeds() {
    // members {1, 2, 3, 4}, threshold 3: removing one member leaves 3.
    let mut m = registry(vec![key(1), key(2), key(3), key(4)], 3);
    let mut t = proposal(
        &mut m,
        vec![TransactionType::MultisigAction(MultisigAction::RemoveMember { member: key(4) })],
    );
    assert!(cast_vote(&m, &mut t, key(1)).is_ok());
    assert!(cast_vote(&m, &mut t, key(2)).is_ok());
    assert!(cast_vote(&m, &mut t, key(3)).is_ok());
    assert!(execute_transaction(&mut m, &mut t, key(1)).is_ok());
    assert_eq!(m.members, vec![key(1), key(2), key(3)]);
    assert_eq!(m.threshold, 3);
}

#[test]
fn execute_remove_missing_member_fails() {
    let mut m = registry(vec![key(1), key(2), key(3)], 1);
    let mut t = proposal(
        &mut m,
        vec![TransactionType::MultisigAction(MultisigAction::RemoveMember { member: key(9) })],
    );
    assert!(cast_vote(&m, &mut t, key(1)).is_ok());
    match execute_transaction(&mut m, &mut t, key(1)) {
        Err(e) => assert_eq!(e, MultisigError::MemberDoesNotExist),
        Ok(_) => panic!("removal of a missing member accepted"),
    }
    assert_eq!(m.members, vec![key(1), key(2), key(3)]);
}

#[test]
fn error_messages_match_their_variants() {
    assert_eq!(MultisigError::EmptyMembersList.message(), "Member list cannot be empty");
    assert_eq!(
        MultisigError::CannotRemoveMemberBelowThreshold.message(),
        "Member list will drop below threshold if member is removed"
    );
    assert_eq!(
        MultisigError::InsufficientVotes.message(),
        "Amount of signers do not meet threshold"
    );
}

#[test]
fn end_to_end_quorum_execution() {
    // Registry members [A, B, C], threshold 2; propose an external call;
    // A and B vote; C executes; afterwards D cannot vote, and any further
    // vote — C's late one or A's re-vote — finds the transaction executed.
    let a = key(1);
    let b = key(2);
    let c = key(3);
    let d = key(4);
    let mut m =
        create_multisig(vec![a, b, c], 2, a, key(900), 255).expect("valid registry");
    let mut t = propose_transaction(
        &mut m,
        key(600),
        a,
        vec![TransactionType::Instruction(sample_call(7))],
        254,
    )
    .expect("valid proposal");
    assert!(cast_vote(&m, &mut t, a).is_ok());
    assert!(cast_vote(&m, &mut t, b).is_ok());
    assert_eq!(t.signers, vec![a, b]);
    let calls = execute_transaction(&mut m, &mut t, c).expect("execution succeeds");
    assert!(t.executed);
    assert_eq!(calls.len(), 1);
    assert_eq!(calls[0].program_id, sample_call(7).program_id);
    match cast_vote(&m, &mut t, d) {
        Err(e) => assert_eq!(e, MultisigError::UnauthorizedMember),
        Ok(_) => panic!("non-member vote accepted"),
    }
    match cast_vote(&m, &mut t, c) {
        Err(e) => assert_eq!(e, MultisigError::TransactionAlreadyExecuted),
        Ok(_) => panic!("vote on executed transaction accepted"),
    }
    match cast_vote(&m, &mut t, a) {
        Err(e) => assert_eq!(e, MultisigError::TransactionAlreadyExecuted),
        Ok(_) => panic!("vote on executed transaction accepted"),
    }
    assert_eq!(t.signers, vec![a, b]);
}
