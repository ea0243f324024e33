use vstd::prelude::*;

use crate::pubkey::Pubkey;
use crate::pubkey::PUBKEY_BYTES;

verus! {

/// The number of bytes the storage layer prefixes to every persisted record
/// to tell record types apart.
pub const DISCRIMINATOR_LEN: usize = 8;

/// The multisig group's persistent record: the quorum threshold, the
/// disambiguation value under which the group's derived signing authority
/// was fixed, a monotonic counter handing out transaction ids, the immutable
/// founding identity, and the ordered member list.
pub struct Multisig {
    pub threshold: u8,
    pub bump: u8,
    pub next_transaction_id: u16,
    pub base: Pubkey,
    pub members: Vec<Pubkey>,
}

/// A member list and threshold are well formed when the list is free of
/// duplicates and the threshold lies between one and the member count.
pub open spec fn members_wf(threshold: u8, members: Seq<Pubkey>) -> bool {
    &&& 1 <= threshold as int
    &&& threshold as int <= members.len()
    &&& members.no_duplicates()
}

impl Multisig {
    /// The registry's invariant over its own fields.
    pub open spec fn wf(self) -> bool {
        members_wf(self.threshold, self.members@)
    }

    /// Bytes a registry record with `n_members` members occupies: the record
    /// discriminator, the fixed header (threshold, bump, counter, founding
    /// identity), and the length-prefixed member list.
    pub open spec fn spec_space(n_members: int) -> int {
        DISCRIMINATOR_LEN as int + 1 + 1 + 2 + 32 + 4 + n_members * (PUBKEY_BYTES as int)
    }

    /// Computes the storage size a registry with these members needs.
    pub fn space(members: &Vec<Pubkey>) -> (bytes: usize)
        requires
            Self::spec_space(members@.len() as int) <= usize::MAX as int,
        ensures
            bytes == Self::spec_space(members@.len() as int),
    {
        DISCRIMINATOR_LEN + 1 + 1 + 2 + 32 + (4 + members.len() * PUBKEY_BYTES)
    }

    /// The funding a payer owes so that a resized record keeps the required
    /// minimum balance: the shortfall of the current balance against that
    /// minimum, and nothing when the balance already suffices.
    pub fn top_up_amount(rent_exempt_lamports: u64, current_lamports: u64) -> (lamports: u64)
        ensures
            lamports == if rent_exempt_lamports >= current_lamports {
                (rent_exempt_lamports - current_lamports) as int
            } else {
                0int
            },
    {
        if rent_exempt_lamports >= current_lamports {
            rent_exempt_lamports - current_lamports
        } else {
            0
        }
    }
}

/// Growing a registry by one member costs exactly one identity-sized slot of
/// further storage.
pub proof fn lemma_space_grows_by_member(n_members: int)
    ensures
        Multisig::spec_space(n_members + 1) == Multisig::spec_space(n_members) + PUBKEY_BYTES as int,
{
    assert((n_members + 1) * (PUBKEY_BYTES as int) == n_members * (PUBKEY_BYTES as int)
        + PUBKEY_BYTES as int) by (nonlinear_arith);
}

} // verus!
