//! What an accepted operation asks of the token ledger.

use anchor_lang::prelude::Pubkey;
use vstd::prelude::*;

verus! {

/// One call on the ledger. Accounts are named by address: `program` is the
/// program account that the call is made with, `authority` the account that
/// signs for it.
#[derive(Clone, Copy, Debug, PartialEq, Eq)]
pub enum LedgerInstruction {
    /// Create `amount` new tokens of `mint` in the account `to`.
    MintTo { program: Pubkey, mint: Pubkey, to: Pubkey, authority: Pubkey, amount: u64 },
    /// Move `amount` tokens from the account `from` to the account `to`.
    Transfer { program: Pubkey, from: Pubkey, to: Pubkey, authority: Pubkey, amount: u64 },
    /// Destroy `amount` tokens of `mint` held in the account `from`.
    Burn { program: Pubkey, mint: Pubkey, from: Pubkey, authority: Pubkey, amount: u64 },
}

/// What an accepted operation leaves for its caller to do: the ledger calls,
/// to be made in this order and all or none, and then the event to publish.
#[derive(Debug, PartialEq, Eq)]
pub struct Effects<E> {
    pub instructions: Vec<LedgerInstruction>,
    pub event: E,
}

/// The test for an instruction that destroys tokens.
pub open spec fn is_burn() -> spec_fn(LedgerInstruction) -> bool {
    |i: LedgerInstruction| i is Burn
}

/// How many of `instructions` destroy tokens.
pub open spec fn burn_count(instructions: Seq<LedgerInstruction>) -> nat {
    instructions.filter(is_burn()).len()
}

/// Burns are counted one instruction after the other.
pub proof fn lemma_burn_count_push(instructions: Seq<LedgerInstruction>, last: LedgerInstruction)
    ensures
        burn_count(instructions.push(last)) == burn_count(instructions) + if last is Burn {
            1nat
        } else {
            0nat
        },
{
    instructions.lemma_filter_len_push(is_burn(), last);
}

/// Nothing is burnt where nothing is asked.
pub proof fn lemma_burn_count_empty()
    ensures
        burn_count(Seq::<LedgerInstruction>::empty()) == 0,
{
    Seq::<LedgerInstruction>::empty().lemma_filter_len(is_burn());
}

/// The burns of two runs of instructions add up.
pub proof fn lemma_burn_count_add(first: Seq<LedgerInstruction>, second: Seq<LedgerInstruction>)
    ensures
        burn_count(first + second) == burn_count(first) + burn_count(second),
{
    Seq::filter_distributes_over_add(first, second, is_burn());
}

} // verus!
