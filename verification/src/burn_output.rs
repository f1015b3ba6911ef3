//! What a burn leaves behind for the later mint: the burn key, the amounts,
//! and the commitments the mint has to honour.
use crate::address::Address;
use crate::contracts::network::Network;
use crate::u256::{u256_modulus, U256};
use vstd::prelude::*;

verus! {

/// The part of a burn that the proof commits to besides the amounts: who
/// receives the revealed BETH and the fees promised to the broadcaster and prover.
#[derive(Clone, Copy, Debug)]
pub struct ExtraCommitment {
    pub broadcaster_fee: U256,
    pub prover_fee: U256,
    pub receiver: Address,
}

/// The record of a burn, saved so that minting can be done (or retried) later.
#[derive(Clone, Debug)]
pub struct BurnOutput {
    /// The network the burn happened on.
    pub network: Network,
    /// The secret from which the burn address and nullifier derive.
    pub burn_key: U256,
    /// The wei sent to the burn address.
    pub burn_amount: U256,
    /// The wei revealed (minted as BETH) now; the rest stays in a note.
    pub reveal_amount: U256,
    pub extra_commitment: ExtraCommitment,
    /// The hook called for the receiver after the mint.
    pub receiver_hook: Vec<u8>,
}

/// The part of a burn that was not revealed and remains spendable later.
#[derive(Clone, Copy, Debug)]
pub struct RemainingNote {
    pub burn_key: U256,
    pub amount: U256,
    pub network: Network,
}

/// `burn - reveal` in 256-bit wrapping arithmetic, as the mint computes the note.
pub open spec fn remaining_value(burn: nat, reveal: nat) -> nat {
    if burn >= reveal {
        (burn - reveal) as nat
    } else {
        (burn - reveal + u256_modulus()) as nat
    }
}

impl BurnOutput {
    pub fn new(
        network: Network,
        burn_key: U256,
        burn_amount: U256,
        reveal_amount: U256,
        extra_commitment: ExtraCommitment,
        receiver_hook: Vec<u8>,
    ) -> (r: BurnOutput)
        ensures
            r.network == network,
            r.burn_key == burn_key,
            r.burn_amount == burn_amount,
            r.reveal_amount == reveal_amount,
            r.extra_commitment == extra_commitment,
            r.receiver_hook == receiver_hook,
    {
        BurnOutput { network, burn_key, burn_amount, reveal_amount, extra_commitment, receiver_hook }
    }

    /// The note left after minting the revealed amount: same key and network,
    /// `burn_amount - reveal_amount` wei (wrapping, as 256-bit subtraction does).
    pub fn remaining_note(&self) -> (r: RemainingNote)
        ensures
            r.burn_key == self.burn_key,
            r.network == self.network,
            r.amount@ == remaining_value(self.burn_amount@, self.reveal_amount@),
    {
        RemainingNote {
            burn_key: self.burn_key,
            amount: self.burn_amount.wrapping_sub(&self.reveal_amount),
            network: self.network,
        }
    }
}

/// When no more is revealed than was burnt, the note and the revealed
/// amount add up to the burnt amount.
pub proof fn law_note_and_reveal_make_up_the_burn(burn: nat, reveal: nat)
    requires
        reveal <= burn,
    ensures
        remaining_value(burn, reveal) + reveal == burn,
{
}

/// The remaining note and the revealed amount always add up to the burn
/// modulo 2^256: exactly when the reveal fits in the burn, and one 2^256
/// over when it does not (the wrap of 256-bit subtraction); the note is a
/// 256-bit value either way.
pub proof fn law_remaining_note_wraps_modulo(burn: nat, reveal: nat)
    requires
        burn < u256_modulus(),
        reveal < u256_modulus(),
    ensures
        remaining_value(burn, reveal) < u256_modulus(),
        reveal <= burn ==> remaining_value(burn, reveal) + reveal == burn,
        reveal > burn ==> remaining_value(burn, reveal) + reveal == burn + u256_modulus(),
{
}

} // verus!
