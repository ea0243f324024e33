use vstd::prelude::*;

use crate::pubkey::Pubkey;
use crate::state::multisig::DISCRIMINATOR_LEN;

verus! {

/// Bytes one account reference occupies in a persisted action: a 32-byte
/// address plus the two flag bytes.
pub const ACCOUNT_META_BYTES: usize = 34;

/// Bytes a membership action's payload occupies: a fixed-width union of one
/// tag byte and the widest variant, a 32-byte identity.
pub const MULTISIG_ACTION_BYTES: usize = 33;

/// One account reference of an external call: an address and the flags
/// saying how the callee may use it.
#[derive(Clone, Copy, Debug, PartialEq, Eq, Structural)]
pub struct AccountMeta {
    pub pubkey: Pubkey,
    pub is_signer: bool,
    pub is_writable: bool,
}

/// An external call carried by a transaction: the target program, the
/// ordered account references, and the opaque payload bytes. The engine
/// never interprets the payload; it hands the call back to the host for
/// dispatch under the group's derived signing authority.
#[derive(Clone)]
pub struct Instruction {
    pub program_id: Pubkey,
    pub accounts: Vec<AccountMeta>,
    pub data: Vec<u8>,
}

/// The mathematical value of an [`Instruction`].
pub struct InstructionView {
    pub program_id: Pubkey,
    pub accounts: Seq<AccountMeta>,
    pub data: Seq<u8>,
}

impl View for Instruction {
    type V = InstructionView;

    open spec fn view(&self) -> InstructionView {
        InstructionView { program_id: self.program_id, accounts: self.accounts@, data: self.data@ }
    }
}

/// A self-administration action applied to the registry during execution.
#[derive(Clone, Copy, Debug, PartialEq, Eq, Structural)]
pub enum MultisigAction {
    AddMember { member: Pubkey },
    RemoveMember { member: Pubkey },
    SetThreshold { threshold: u8 },
}

/// One unit of work in a transaction: an external call or a membership
/// change.
#[derive(Clone)]
pub enum TransactionType {
    Instruction(Instruction),
    MultisigAction(MultisigAction),
}

/// A pending or executed batch of actions: its registry-local id, the
/// proposer, the ordered actions (fixed at creation), the members who have
/// approved so far in arrival order, and the executed flag.
pub struct Transaction {
    pub bump: u8,
    pub executed: bool,
    pub id: u16,
    pub multisig: Pubkey,
    pub proposer: Pubkey,
    pub signers: Vec<Pubkey>,
    pub transaction_types: Vec<TransactionType>,
}

impl Instruction {
    /// Bytes an external call with `n_accounts` references and `n_data`
    /// payload bytes occupies: the target address and the two
    /// length-prefixed lists.
    pub open spec fn spec_space(n_accounts: int, n_data: int) -> int {
        32 + 4 + n_accounts * (ACCOUNT_META_BYTES as int) + 4 + n_data
    }

    /// Computes the storage size of an external call's payload.
    pub fn space(accounts: &Vec<AccountMeta>, data: &Vec<u8>) -> (bytes: usize)
        requires
            Self::spec_space(accounts@.len() as int, data@.len() as int) <= usize::MAX as int,
        ensures
            bytes == Self::spec_space(accounts@.len() as int, data@.len() as int),
    {
        32 + (4 + accounts.len() * ACCOUNT_META_BYTES) + (4 + data.len())
    }

    /// Returns a fresh external call equal in value to this one.
    pub fn duplicate(&self) -> (out: Instruction)
        ensures
            out@ == self@,
    {
        let mut accounts: Vec<AccountMeta> = Vec::new();
        let mut i: usize = 0;
        while i < self.accounts.len()
            invariant
                0 <= i <= self.accounts@.len(),
                accounts@ == self.accounts@.subrange(0, i as int),
            decreases self.accounts@.len() - i,
        {
            accounts.push(self.accounts[i]);
            assert(accounts@ =~= self.accounts@.subrange(0, i + 1 as int));
            i = i + 1;
        }
        assert(accounts@ =~= self.accounts@);
        let mut data: Vec<u8> = Vec::new();
        let mut j: usize = 0;
        while j < self.data.len()
            invariant
                0 <= j <= self.data@.len(),
                data@ == self.data@.subrange(0, j as int),
            decreases self.data@.len() - j,
        {
            data.push(self.data[j]);
            assert(data@ =~= self.data@.subrange(0, j + 1 as int));
            j = j + 1;
        }
        assert(data@ =~= self.data@);
        Instruction { program_id: self.program_id, accounts, data }
    }
}

impl TransactionType {
    /// Bytes one action occupies: a tag byte plus its variant payload.
    pub open spec fn spec_space(self) -> int {
        1 + match self {
            TransactionType::Instruction(instruction) => Instruction::spec_space(
                instruction.accounts@.len() as int,
                instruction.data@.len() as int,
            ),
            TransactionType::MultisigAction(_) => MULTISIG_ACTION_BYTES as int,
        }
    }

    /// Computes the storage size of one action.
    pub fn space(&self) -> (bytes: usize)
        requires
            self.spec_space() <= usize::MAX as int,
        ensures
            bytes == self.spec_space(),
    {
        1 + match self {
            TransactionType::Instruction(instruction) => Instruction::space(
                &instruction.accounts,
                &instruction.data,
            ),
            TransactionType::MultisigAction(..) => MULTISIG_ACTION_BYTES,
        }
    }
}

/// Bytes the actions of a batch occupy together.
pub open spec fn spec_types_space(tts: Seq<TransactionType>) -> int
    decreases tts.len(),
{
    if tts.len() == 0 {
        0
    } else {
        spec_types_space(tts.drop_last()) + tts.last().spec_space()
    }
}

/// Every action occupies at least its tag byte.
pub proof fn lemma_type_space_pos(tt: TransactionType)
    ensures
        tt.spec_space() >= 1,
{
}

/// Appending one action to a batch adds exactly that action's size.
pub proof fn lemma_types_space_push(tts: Seq<TransactionType>, tt: TransactionType)
    ensures
        spec_types_space(tts.push(tt)) == spec_types_space(tts) + tt.spec_space(),
{
    assert(tts.push(tt).drop_last() =~= tts);
    assert(tts.push(tt).last() == tt);
}

/// A prefix of a batch never occupies more than the whole batch, and no
/// batch occupies a negative size.
pub proof fn lemma_types_space_prefix(tts: Seq<TransactionType>, i: int)
    requires
        0 <= i <= tts.len(),
    ensures
        0 <= spec_types_space(tts.subrange(0, i)),
        spec_types_space(tts.subrange(0, i)) <= spec_types_space(tts),
    decreases tts.len() - i,
{
    if i == tts.len() {
        assert(tts.subrange(0, i) =~= tts);
        lemma_types_space_nonneg(tts.subrange(0, i));
    } else {
        lemma_types_space_prefix(tts, i + 1);
        assert(tts.subrange(0, i + 1) =~= tts.subrange(0, i).push(tts[i]));
        lemma_types_space_push(tts.subrange(0, i), tts[i]);
        lemma_type_space_pos(tts[i]);
        lemma_types_space_nonneg(tts.subrange(0, i));
    }
}

/// No batch occupies a negative size.
pub proof fn lemma_types_space_nonneg(tts: Seq<TransactionType>)
    ensures
        spec_types_space(tts) >= 0,
    decreases tts.len(),
{
    if tts.len() > 0 {
        lemma_types_space_nonneg(tts.drop_last());
        lemma_type_space_pos(tts.last());
    }
}

impl Transaction {
    /// Bytes a freshly proposed transaction record occupies: the record
    /// discriminator, the fixed header (bump, executed flag, id, registry
    /// reference, proposer), the length prefix of the still-empty approval
    /// list, and the length-prefixed actions.
    pub open spec fn spec_space(tts: Seq<TransactionType>) -> int {
        DISCRIMINATOR_LEN as int + 1 + 1 + 2 + 32 + 32 + 4 + 4 + spec_types_space(tts)
    }

    /// Computes the storage size a transaction with these actions needs at
    /// proposal time, when no approvals are recorded yet.
    pub fn space(transaction_types: &Vec<TransactionType>) -> (bytes: usize)
        requires
            Self::spec_space(transaction_types@) <= usize::MAX as int,
        ensures
            bytes == Self::spec_space(transaction_types@),
    {
        let mut total: usize = DISCRIMINATOR_LEN + 1 + 1 + 2 + 32 + 32 + 4 + 4;
        let mut i: usize = 0;
        while i < transaction_types.len()
            invariant
                0 <= i <= transaction_types@.len(),
                Self::spec_space(transaction_types@) <= usize::MAX as int,
                total == DISCRIMINATOR_LEN as int + 76 + spec_types_space(
                    transaction_types@.subrange(0, i as int),
                ),
            decreases transaction_types@.len() - i,
        {
            proof {
                lemma_types_space_prefix(transaction_types@, i + 1);
                assert(transaction_types@.subrange(0, i + 1 as int) =~= transaction_types@.subrange(
                    0,
                    i as int,
                ).push(transaction_types@[i as int]));
                lemma_types_space_push(
                    transaction_types@.subrange(0, i as int),
                    transaction_types@[i as int],
                );
                lemma_types_space_nonneg(transaction_types@.subrange(0, i as int));
            }
            total = total + transaction_types[i].space();
            i = i + 1;
        }
        assert(transaction_types@.subrange(0, transaction_types@.len() as int)
            =~= transaction_types@);
        total
    }
}

} // verus!
