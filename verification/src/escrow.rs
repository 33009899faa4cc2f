use vstd::prelude::*;
use vstd::bytes::{spec_u64_from_le_bytes, u64_from_le_bytes};
use crate::types::Pubkey;

verus! {

/// Why a fee escrow cannot be closed.
#[derive(Clone, Copy, Debug, PartialEq, Eq, Structural)]
pub enum ErrorCode {
    /// The escrowed transaction is a withdrawal: there is nothing to return.
    NotDeposit,
    /// The escrow is still within its timeout and the closer is not the
    /// party that started the transaction.
    NotTimedOut,
}

/// The fee schedule of the escrow.
#[derive(Clone, Copy, Debug, PartialEq, Eq)]
pub struct EscrowConfig {
    /// What the relayer earns for each executed instruction.
    pub fee_per_instruction: u64,
    /// Number of slots after creation during which only the signer of the
    /// transaction may close the escrow.
    pub timeout_escrow: u64,
}

/// What closing an escrow reads from the escrow, the verifier state, the
/// signer and the clock.
#[derive(Clone, Copy, Debug, PartialEq, Eq)]
pub struct CloseFeeEscrowPda {
    /// The external amount of the transaction, a signed 64-bit number in
    /// little-endian bytes.
    pub ext_amount: [u8; 8],
    /// Number of instructions of the transaction executed so far.
    pub current_instruction_index: u64,
    /// Who started the transaction.
    pub verifier_signing_address: Pubkey,
    pub creation_slot: u64,
    pub relayer_fee: u64,
    pub tx_fee: u64,
    /// Who asks for the escrow to be closed.
    pub signing_address: Pubkey,
    pub current_slot: u64,
}

/// What is paid out when an escrow is closed.
#[derive(Clone, Copy, Debug, PartialEq, Eq)]
pub struct EscrowTransfers {
    pub relayer: u64,
    pub user: u64,
}

/// The identifier is all zero bytes.
pub open spec fn is_zero_key(key: Pubkey) -> bool {
    forall|i: int| 0 <= i < 32 ==> key@[i] == 0
}

impl CloseFeeEscrowPda {
    /// The external amount as an unsigned number.
    pub open spec fn spec_raw_amount(self) -> u64 {
        spec_u64_from_le_bytes(self.ext_amount@)
    }

    /// The external amount is negative: its sign bit is set.
    pub open spec fn spec_is_withdrawal(self) -> bool {
        self.spec_raw_amount() >= 0x8000_0000_0000_0000
    }

    /// The transaction has begun and its timeout has not passed.
    pub open spec fn spec_within_timeout(self, config: EscrowConfig) -> bool {
        self.current_instruction_index != 0 && self.creation_slot + config.timeout_escrow
            > self.current_slot
    }

    /// The closer must wait: the escrow is within its timeout and the closer
    /// is neither the zero key nor the party that started the transaction.
    pub open spec fn spec_must_wait(self, config: EscrowConfig) -> bool {
        &&& self.spec_within_timeout(config)
        &&& !is_zero_key(self.signing_address)
        &&& self.signing_address@ != self.verifier_signing_address@
    }

    /// What the relayer has earned.
    pub open spec fn spec_relayer_amount(self, config: EscrowConfig) -> int {
        self.current_instruction_index * config.fee_per_instruction
    }

    /// What goes back to the user: the fees that were escrowed, less what
    /// the relayer has earned, plus the deposit.
    pub open spec fn spec_user_amount(self, config: EscrowConfig) -> int {
        self.relayer_fee + self.tx_fee - self.spec_relayer_amount(config) + self.spec_raw_amount()
    }

    /// The amounts of the two transfers are representable, step by step.
    pub open spec fn amounts_representable(self, config: EscrowConfig) -> bool {
        &&& self.spec_relayer_amount(config) <= u64::MAX
        &&& self.relayer_fee + self.tx_fee <= u64::MAX
        &&& self.spec_relayer_amount(config) <= self.relayer_fee + self.tx_fee
        &&& self.spec_user_amount(config) <= u64::MAX
    }

    /// Every slot and amount that closing computes on its way is
    /// representable. A withdrawal is refused before anything is computed.
    /// The end of the timeout is computed for a deposit whose transaction has
    /// begun, and the amounts for a deposit whose closer need not wait.
    pub open spec fn representable(self, config: EscrowConfig) -> bool {
        !self.spec_is_withdrawal() ==> {
            &&& self.current_instruction_index != 0 ==> self.creation_slot
                + config.timeout_escrow <= u64::MAX
            &&& !self.spec_must_wait(config) ==> self.amounts_representable(config)
        }
    }

    /// Whether every slot and amount that closing computes on its way is
    /// representable.
    pub fn is_representable(&self, config: &EscrowConfig) -> (ok: bool)
        ensures
            ok == self.representable(*config),
    {
        let raw: u64 = u64_from_le_bytes(self.ext_amount.as_slice());
        if raw >= 0x8000_0000_0000_0000 {
            return true;
        }
        if self.current_instruction_index != 0 {
            if config.timeout_escrow > u64::MAX - self.creation_slot {
                return false;
            }
            if self.creation_slot + config.timeout_escrow > self.current_slot && !is_zero(
                &self.signing_address,
            ) && !self.signing_address.same_as(&self.verifier_signing_address) {
                return true;
            }
        }
        let relayer: u128 = {
            assert(self.current_instruction_index * config.fee_per_instruction
                <= 0xffff_ffff_ffff_ffff * 0xffff_ffff_ffff_ffff) by (nonlinear_arith)
                requires
                    0 <= self.current_instruction_index <= 0xffff_ffff_ffff_ffff,
                    0 <= config.fee_per_instruction <= 0xffff_ffff_ffff_ffff,
            ;
            (self.current_instruction_index as u128) * (config.fee_per_instruction as u128)
        };
        let fees: u128 = self.relayer_fee as u128 + self.tx_fee as u128;
        relayer <= u64::MAX as u128 && fees <= u64::MAX as u128 && relayer <= fees && fees - relayer
            + raw as u128 <= u64::MAX as u128
    }
}

fn is_zero(key: &Pubkey) -> (zero: bool)
    ensures
        zero == is_zero_key(*key),
{
    let mut i: usize = 0;
    while i < 32
        invariant
            i <= 32,
            forall|j: int| 0 <= j < i ==> key@[j] == 0,
        decreases 32 - i,
    {
        if key.bytes[i] != 0 {
            assert(key@[i as int] != 0);
            return false;
        }
        i += 1;
    }
    true
}

/// Settles a fee escrow.
///
/// A withdrawal has no escrow to return and is refused with `NotDeposit`.
/// While a started transaction is within its timeout, only the party that
/// started it, or the zero key, may close the escrow; anyone else is refused
/// with `NotTimedOut`. Otherwise the relayer is paid the fee of every
/// executed instruction, and the user gets the escrowed fees less that
/// payment, plus the deposit.
pub fn process_close_escrow(ctx: &CloseFeeEscrowPda, config: &EscrowConfig) -> (outcome: Result<
    EscrowTransfers,
    ErrorCode,
>)
    requires
        ctx.representable(*config),
    ensures
        ctx.spec_is_withdrawal() ==> outcome == Err::<EscrowTransfers, ErrorCode>(
            ErrorCode::NotDeposit,
        ),
        !ctx.spec_is_withdrawal() && ctx.spec_must_wait(*config) ==> outcome == Err::<
            EscrowTransfers,
            ErrorCode,
        >(ErrorCode::NotTimedOut),
        !ctx.spec_is_withdrawal() && !ctx.spec_must_wait(*config) ==> outcome == Ok::<
            EscrowTransfers,
            ErrorCode,
        >(
            EscrowTransfers {
                relayer: ctx.spec_relayer_amount(*config) as u64,
                user: ctx.spec_user_amount(*config) as u64,
            },
        ),
{
    let raw: u64 = u64_from_le_bytes(ctx.ext_amount.as_slice());
    if raw >= 0x8000_0000_0000_0000 {
        return Err(ErrorCode::NotDeposit);
    }
    if ctx.current_instruction_index != 0 && ctx.creation_slot + config.timeout_escrow
        > ctx.current_slot && !is_zero(&ctx.signing_address) {
        if !ctx.signing_address.same_as(&ctx.verifier_signing_address) {
            return Err(ErrorCode::NotTimedOut);
        }
    }
    let transfer_amount_relayer: u64 = ctx.current_instruction_index * config.fee_per_instruction;
    let transfer_amount_user: u64 = ctx.relayer_fee + ctx.tx_fee - transfer_amount_relayer + raw;
    Ok(EscrowTransfers { relayer: transfer_amount_relayer, user: transfer_amount_user })
}

/// Closing an escrow pays out exactly what was escrowed and deposited: the
/// two transfers add up to the escrowed fees plus the deposit.
pub proof fn lemma_close_pays_out_everything(ctx: CloseFeeEscrowPda, config: EscrowConfig)
    requires
        ctx.amounts_representable(config),
    ensures
        ctx.spec_relayer_amount(config) + ctx.spec_user_amount(config) == ctx.relayer_fee
            + ctx.tx_fee + ctx.spec_raw_amount(),
        0 <= ctx.spec_relayer_amount(config),
        0 <= ctx.spec_user_amount(config),
{
    assert(0 <= ctx.current_instruction_index * config.fee_per_instruction) by (nonlinear_arith)
        requires
            0 <= ctx.current_instruction_index,
            0 <= config.fee_per_instruction,
    ;
}

} // verus!
