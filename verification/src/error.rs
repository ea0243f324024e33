use vstd::prelude::*;

verus! {

/// Every failure the governance engine can report. Each operation checks all
/// of its preconditions before writing any state, so a raised error implies
/// that no mutation took place.
#[derive(Clone, Copy, Debug, PartialEq, Eq, Structural)]
pub enum MultisigError {
    /// A registry cannot be created with no members.
    EmptyMembersList,
    /// The creator of a registry must appear in its member list.
    CreatorNotInMembers,
    /// A threshold must lie between one and the number of members.
    InvalidThreshold,
    /// The acting identity is not a member of the registry.
    UnauthorizedMember,
    /// A transaction must carry at least one action.
    EmptyTransactionTypesList,
    /// A member may approve a given transaction at most once.
    MemberAlreadyVoted,
    /// The transaction was already executed.
    TransactionAlreadyExecuted,
    /// The approvals collected so far do not meet the threshold.
    InsufficientVotes,
    /// The identity to add is already a member.
    MemberAlreadyExists,
    /// Removing a member is only allowed while the member count strictly
    /// exceeds the threshold.
    CannotRemoveMemberBelowThreshold,
    /// The identity to remove is not a member.
    MemberDoesNotExist,
}

impl MultisigError {
    /// The wording each failure carries.
    pub open spec fn spec_message(self) -> Seq<char> {
        match self {
            MultisigError::EmptyMembersList => "Member list cannot be empty"@,
            MultisigError::CreatorNotInMembers => "Creator must be included in the members list"@,
            MultisigError::InvalidThreshold => "Threshold cannot be greater than the number of members"@,
            MultisigError::UnauthorizedMember => "Member is not part of the multisig"@,
            MultisigError::EmptyTransactionTypesList => "Transaction types list cannot be empty"@,
            MultisigError::MemberAlreadyVoted => "Member has already voted on this transaction"@,
            MultisigError::TransactionAlreadyExecuted => "Transaction has already been executed"@,
            MultisigError::InsufficientVotes => "Amount of signers do not meet threshold"@,
            MultisigError::MemberAlreadyExists => "Member already exists in the multisig"@,
            MultisigError::CannotRemoveMemberBelowThreshold => "Member list will drop below threshold if member is removed"@,
            MultisigError::MemberDoesNotExist => "Member does not exist in the multisig"@,
        }
    }

    /// A human-readable description of the failure.
    pub fn message(&self) -> (text: &'static str)
        ensures
            text@ == self.spec_message(),
    {
        match self {
            MultisigError::EmptyMembersList => "Member list cannot be empty",
            MultisigError::CreatorNotInMembers => "Creator must be included in the members list",
            MultisigError::InvalidThreshold => "Threshold cannot be greater than the number of members",
            MultisigError::UnauthorizedMember => "Member is not part of the multisig",
            MultisigError::EmptyTransactionTypesList => "Transaction types list cannot be empty",
            MultisigError::MemberAlreadyVoted => "Member has already voted on this transaction",
            MultisigError::TransactionAlreadyExecuted => "Transaction has already been executed",
            MultisigError::InsufficientVotes => "Amount of signers do not meet threshold",
            MultisigError::MemberAlreadyExists => "Member already exists in the multisig",
            MultisigError::CannotRemoveMemberBelowThreshold => "Member list will drop below threshold if member is removed",
            MultisigError::MemberDoesNotExist => "Member does not exist in the multisig",
        }
    }
}

} // verus!
