//! Laws of the driver, proved once and for all register states.
//!
//! Each proof function below states a guarantee of the operation state
//! machine over the spec-level semantics that the contracts of
//! [`crate::regs::FlashRegs::erase_page`] and
//! [`crate::regs::FlashRegs::program_word`] pin down.

use vstd::prelude::*;
use crate::flash::{
    erase_final, erase_result, program_final, program_result, valid_erase_address,
    valid_program_address, FlashError,
};
use crate::regs::{bump64, spec_unlock, unlock_ok, FlashRegs};

verus! {

/// An erase address outside the flash bank or off a page boundary fails
/// validation before any register is touched: the outcome is
/// `InvalidAddress` and the register block is left exactly as it was.
pub proof fn lemma_invalid_erase_address_rejected(r: FlashRegs, address: u32, max_polls: u32)
    requires
        !valid_erase_address(address),
    ensures
        erase_result(r, address, max_polls) == Err::<(), FlashError>(FlashError::InvalidAddress),
        erase_final(r, address, max_polls) == r,
{
}

/// A program address outside the flash bank or off a word boundary fails
/// validation before any register is touched: the outcome is
/// `InvalidAddress` and the register block is left exactly as it was.
pub proof fn lemma_invalid_program_address_rejected(
    r: FlashRegs,
    address: u32,
    value: u32,
    max_polls: u32,
)
    requires
        !valid_program_address(address),
    ensures
        program_result(r, address, max_polls) == Err::<(), FlashError>(FlashError::InvalidAddress),
        program_final(r, address, value, max_polls) == r,
{
}

/// The unlock handshake opens the lock exactly when the key port is alive
/// and not mid-sequence at entry: [`unlock_ok`] says precisely when the two
/// ordered key writes of [`crate::flash::unlock_cr`] succeed on a locked
/// controller.
pub proof fn lemma_unlock_handshake(r: FlashRegs)
    requires
        r.lock,
    ensures
        !spec_unlock(r).lock <==> unlock_ok(r),
{
}

/// If the controller is busy when a validly addressed erase is requested,
/// the outcome is always `Busy`, and no register beyond the status flag
/// read for the check is touched: the whole block is left as it was.
pub proof fn lemma_busy_entry_erase(r: FlashRegs, address: u32, max_polls: u32)
    requires
        r.busy,
        valid_erase_address(address),
    ensures
        erase_result(r, address, max_polls) == Err::<(), FlashError>(FlashError::Busy),
        erase_final(r, address, max_polls) == r,
{
}

/// If the controller is busy when a validly addressed program is requested,
/// the outcome is always `Busy`, and no register beyond the status flag
/// read for the check is touched: the whole block is left as it was.
pub proof fn lemma_busy_entry_program(r: FlashRegs, address: u32, value: u32, max_polls: u32)
    requires
        r.busy,
        valid_program_address(address),
    ensures
        program_result(r, address, max_polls) == Err::<(), FlashError>(FlashError::Busy),
        program_final(r, address, value, max_polls) == r,
{
}

/// The unlock handshake is attempted if and only if the controller is
/// locked at entry and the call gets past validation and the busy check:
/// exactly then does the key port see exactly its two writes; a call on an
/// already-unlocked controller never writes the key port.
pub proof fn lemma_unlock_iff_locked_erase(r: FlashRegs, address: u32, max_polls: u32)
    ensures
        !r.lock ==> erase_final(r, address, max_polls).key_writes == r.key_writes,
        r.lock && !r.busy && valid_erase_address(address) ==> erase_final(
            r,
            address,
            max_polls,
        ).key_writes == bump64(bump64(r.key_writes)),
        r.lock && (r.busy || !valid_erase_address(address)) ==> erase_final(
            r,
            address,
            max_polls,
        ).key_writes == r.key_writes,
{
}

/// The unlock handshake is attempted if and only if the controller is
/// locked at entry and the call gets past validation and the busy check —
/// for word programming just as for page erase.
pub proof fn lemma_unlock_iff_locked_program(
    r: FlashRegs,
    address: u32,
    value: u32,
    max_polls: u32,
)
    ensures
        !r.lock ==> program_final(r, address, value, max_polls).key_writes == r.key_writes,
        r.lock && !r.busy && valid_program_address(address) ==> program_final(
            r,
            address,
            value,
            max_polls,
        ).key_writes == bump64(bump64(r.key_writes)),
        r.lock && (r.busy || !valid_program_address(address)) ==> program_final(
            r,
            address,
            value,
            max_polls,
        ).key_writes == r.key_writes,
{
}

/// After a successful erase the end-of-operation flag is observed clear and
/// the page-erase-enable bit is clear; the controller is idle again.
pub proof fn lemma_erase_success_clears_flags(r: FlashRegs, address: u32, max_polls: u32)
    requires
        erase_result(r, address, max_polls) == Ok::<(), FlashError>(()),
    ensures
        !erase_final(r, address, max_polls).eop,
        !erase_final(r, address, max_polls).per,
        !erase_final(r, address, max_polls).busy,
{
}

/// After a successful program the end-of-operation flag is observed clear
/// and the program-enable bit is clear; the controller is idle again.
pub proof fn lemma_program_success_clears_flags(
    r: FlashRegs,
    address: u32,
    value: u32,
    max_polls: u32,
)
    requires
        program_result(r, address, max_polls) == Ok::<(), FlashError>(()),
    ensures
        !program_final(r, address, value, max_polls).eop,
        !program_final(r, address, value, max_polls).pg,
        !program_final(r, address, value, max_polls).busy,
{
}

/// Erasing is idempotent from the driver's side: if an erase succeeds, and
/// the hardware keeps reporting success when asked again — erasing an
/// already-erased page succeeds at the hardware level — then a second erase
/// of the same page from the state the first one left behind succeeds too.
/// The driver does not special-case the repeat call in any way.
pub proof fn lemma_erase_idempotent(r: FlashRegs, address: u32, max_polls: u32)
    requires
        r.op_success,
        erase_result(r, address, max_polls) == Ok::<(), FlashError>(()),
    ensures
        erase_result(erase_final(r, address, max_polls), address, max_polls) == Ok::<
            (),
            FlashError,
        >(()),
{
}

} // verus!
