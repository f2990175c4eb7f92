//! The flash operation state machine: unlock handshake, page erase, word
//! program, bounded busy-wait, and outcome classification.

use vstd::prelude::*;
use crate::regs::{FlashRegs, spec_completed, spec_unlock, FLASH_KEYR_KEY_1, FLASH_KEYR_KEY_2};

verus! {

/// Smallest erasable unit of the flash array, in bytes; erase addresses
/// must be aligned to it.
pub const PAGE_SIZE: u32 = 0x800;

/// Width of one programmable word, in bytes; program addresses must be
/// aligned to it.
pub const WORD_SIZE: u32 = 4;

/// Base of the core-coupled RAM region that bounds the flash bank from above.
pub const CCM_RAM_START: u32 = 0x1000_0000;

/// Lowest address of the flash bank; the bank reaches up to the
/// core-coupled RAM.
pub const FLASH_BASE: u32 = 0x0800_0000;

/// Flash operation errors
#[derive(Clone, Copy, Debug, PartialEq, Eq)]
pub enum FlashError {
    /// The address lies outside the flash bank or is not aligned as the
    /// requested operation demands.
    InvalidAddress,
    /// Flash is already being accessed
    Busy,
    /// Could not erase the desired Page
    EraseFailed,
    /// Could not program the desired word
    ProgramFailed,
    /// Could not unlock Flash for Erasing/Writing
    UnlockFailed,
    /// The busy-wait bound expired before the hardware finished
    Timeout,
}

/// An erase address must sit on a page boundary.
pub open spec fn page_aligned(address: u32) -> bool {
    address % PAGE_SIZE == 0
}

/// A program address must sit on a word boundary.
pub open spec fn word_aligned(address: u32) -> bool {
    address % WORD_SIZE == 0
}

/// The address must fall within the flash bank; touching anything outside
/// it would risk corrupting running program code or RAM.
pub open spec fn in_flash_range(address: u32) -> bool {
    FLASH_BASE <= address && address < CCM_RAM_START
}

/// What validation demands of an erase address: within the flash bank and
/// on a page boundary.
pub open spec fn valid_erase_address(address: u32) -> bool {
    in_flash_range(address) && page_aligned(address)
}

/// What validation demands of a program address: within the flash bank and
/// on a word boundary.
pub open spec fn valid_program_address(address: u32) -> bool {
    in_flash_range(address) && word_aligned(address)
}

/// An unlocking sequence should be written to the key register to open the
/// access to the control register. This sequence consists of two write
/// operations into the key register:
/// 1. Write Key1
/// 2. Write Key2
/// Any wrong sequence locks up the controller until the next reset.
pub fn unlock_cr(flash: &mut FlashRegs)
    ensures
        *final(flash) == spec_unlock(*old(flash)),
{
    flash.write_key(FLASH_KEYR_KEY_1);
    flash.write_key(FLASH_KEYR_KEY_2);
}

/// The register state once an erase command has been issued from the ready
/// state `r`: controller unlocked (after the handshake, if one was needed),
/// page-erase enabled, the page selected, and the cycle started.
pub open spec fn erase_started(r: FlashRegs, address: u32) -> FlashRegs {
    let u = if r.lock {
        spec_unlock(r)
    } else {
        r
    };
    FlashRegs { per: true, ar: address, strt: true, busy: true, ..u }
}

/// The register state once a program command has been issued from the ready
/// state `r`. The payload write to the target address is what starts the
/// cycle; there is no separate start trigger for programming.
pub open spec fn program_started(r: FlashRegs, address: u32, value: u32) -> FlashRegs {
    let u = if r.lock {
        spec_unlock(r)
    } else {
        r
    };
    FlashRegs { pg: true, ar: address, busy: true, programmed: Some((address, value)), ..u }
}

/// Whether a cycle started in state `r` ends within `max_polls` reads of the
/// busy flag.
pub open spec fn completes_within(r: FlashRegs, max_polls: u32) -> bool {
    r.busy_polls < max_polls
}

/// Whether a cycle started in state `r` ends with the end-of-operation flag
/// observed set. The flag is latched, so a stale set flag also counts; the
/// driver clears it on every success path precisely so that its own next
/// call cannot be fooled this way.
pub open spec fn cycle_reports_success(r: FlashRegs) -> bool {
    r.eop || r.op_success
}

/// The outcome of `erase_page(address, max_polls)` run on register state `r`.
pub open spec fn erase_result(r: FlashRegs, address: u32, max_polls: u32) -> Result<
    (),
    FlashError,
> {
    if !valid_erase_address(address) {
        Err(FlashError::InvalidAddress)
    } else if r.busy {
        Err(FlashError::Busy)
    } else if r.lock && spec_unlock(r).lock {
        Err(FlashError::UnlockFailed)
    } else if !completes_within(r, max_polls) {
        Err(FlashError::Timeout)
    } else if cycle_reports_success(r) {
        Ok(())
    } else {
        Err(FlashError::EraseFailed)
    }
}

/// The register state `erase_page(address, max_polls)` leaves behind when
/// run on register state `r`.
pub open spec fn erase_final(r: FlashRegs, address: u32, max_polls: u32) -> FlashRegs {
    if !valid_erase_address(address) || r.busy {
        r
    } else if r.lock && spec_unlock(r).lock {
        spec_unlock(r)
    } else {
        let s = erase_started(r, address);
        if completes_within(r, max_polls) {
            FlashRegs { per: false, eop: false, ..spec_completed(s) }
        } else {
            FlashRegs { per: false, busy_polls: (s.busy_polls - max_polls) as u32, ..s }
        }
    }
}

impl FlashRegs {
    /// Erase the flash page at `address`, polling the busy flag at most
    /// `max_polls` times.
    ///
    /// The address is validated first: one outside the flash bank or off a
    /// page boundary is rejected before any register is touched. A
    /// controller that is busy at entry is
    /// left untouched and reported as such. The unlock handshake is run only
    /// if the controller is locked at entry; if it stays locked the call
    /// stops there. Otherwise the command is issued and awaited; whatever
    /// the outcome past that point, the page-erase-enable bit is cleared
    /// again before returning, and on success the end-of-operation flag is
    /// read and then explicitly cleared.
    pub fn erase_page(&mut self, address: u32, max_polls: u32) -> (r: Result<(), FlashError>)
        ensures
            r == erase_result(*old(self), address, max_polls),
            *final(self) == erase_final(*old(self), address, max_polls),
    {
        if address < FLASH_BASE || address >= CCM_RAM_START || address % PAGE_SIZE != 0 {
            return Err(FlashError::InvalidAddress);
        }
        if self.busy {
            return Err(FlashError::Busy);
        }
        if self.lock {
            unlock_cr(self);
            if self.lock {
                return Err(FlashError::UnlockFailed);
            }
        }
        self.enable_page_erase();
        self.select_address(address);
        self.trigger_start();
        let ghost started: FlashRegs = *self;
        let mut polls: u32 = 0;
        let mut busy: bool = true;
        while busy && polls < max_polls
            invariant
                busy == self.busy,
                polls <= max_polls,
                busy ==> polls <= started.busy_polls && *self == (FlashRegs {
                    busy_polls: (started.busy_polls - polls) as u32,
                    ..started
                }),
                !busy ==> started.busy_polls < max_polls && polls <= max_polls && *self
                    == spec_completed(started),
            decreases max_polls - polls,
        {
            busy = self.poll_busy();
            polls = polls + 1;
        }
        if busy {
            self.clear_page_erase();
            return Err(FlashError::Timeout);
        }
        if self.eop {
            self.clear_eop();
            self.clear_page_erase();
            Ok(())
        } else {
            self.clear_page_erase();
            Err(FlashError::EraseFailed)
        }
    }
}

/// The outcome of `program_word(address, value, max_polls)` run on register
/// state `r`.
pub open spec fn program_result(r: FlashRegs, address: u32, max_polls: u32) -> Result<
    (),
    FlashError,
> {
    if !valid_program_address(address) {
        Err(FlashError::InvalidAddress)
    } else if r.busy {
        Err(FlashError::Busy)
    } else if r.lock && spec_unlock(r).lock {
        Err(FlashError::UnlockFailed)
    } else if !completes_within(r, max_polls) {
        Err(FlashError::Timeout)
    } else if cycle_reports_success(r) {
        Ok(())
    } else {
        Err(FlashError::ProgramFailed)
    }
}

/// The register state `program_word(address, value, max_polls)` leaves
/// behind when run on register state `r`.
pub open spec fn program_final(r: FlashRegs, address: u32, value: u32, max_polls: u32) -> FlashRegs {
    if !valid_program_address(address) || r.busy {
        r
    } else if r.lock && spec_unlock(r).lock {
        spec_unlock(r)
    } else {
        let s = program_started(r, address, value);
        if completes_within(r, max_polls) {
            FlashRegs { pg: false, eop: false, ..spec_completed(s) }
        } else {
            FlashRegs { pg: false, busy_polls: (s.busy_polls - max_polls) as u32, ..s }
        }
    }
}

impl FlashRegs {
    /// Program the word `value` at `address`, polling the busy flag at most
    /// `max_polls` times.
    ///
    /// Same shape as [`FlashRegs::erase_page`]: validate the address, refuse
    /// a busy controller untouched, unlock only if locked. Then program-enable
    /// is set, the address latched, and the payload word written straight to
    /// the target address — that write starts the hardware cycle, so it
    /// happens before the busy-wait. The payload write is the point of no
    /// return: on a failed or timed-out cycle it has still happened. The
    /// program-enable bit is cleared again on every path past it, and on
    /// success the end-of-operation flag is read and then explicitly
    /// cleared.
    pub fn program_word(&mut self, address: u32, value: u32, max_polls: u32) -> (r: Result<
        (),
        FlashError,
    >)
        ensures
            r == program_result(*old(self), address, max_polls),
            *final(self) == program_final(*old(self), address, value, max_polls),
    {
        if address < FLASH_BASE || address >= CCM_RAM_START || address % WORD_SIZE != 0 {
            return Err(FlashError::InvalidAddress);
        }
        if self.busy {
            return Err(FlashError::Busy);
        }
        if self.lock {
            unlock_cr(self);
            if self.lock {
                return Err(FlashError::UnlockFailed);
            }
        }
        self.enable_programming();
        self.select_address(address);
        self.write_payload(address, value);
        let ghost started: FlashRegs = *self;
        let mut polls: u32 = 0;
        let mut busy: bool = true;
        while busy && polls < max_polls
            invariant
                busy == self.busy,
                polls <= max_polls,
                busy ==> polls <= started.busy_polls && *self == (FlashRegs {
                    busy_polls: (started.busy_polls - polls) as u32,
                    ..started
                }),
                !busy ==> started.busy_polls < max_polls && polls <= max_polls && *self
                    == spec_completed(started),
            decreases max_polls - polls,
        {
            busy = self.poll_busy();
            polls = polls + 1;
        }
        if busy {
            self.clear_programming();
            return Err(FlashError::Timeout);
        }
        if self.eop {
            self.clear_eop();
            self.clear_programming();
            Ok(())
        } else {
            self.clear_programming();
            Err(FlashError::ProgramFailed)
        }
    }
}

/// Address of the flash page that sits just below the core-coupled RAM.
pub fn page_to_address() -> (address: u32)
    ensures
        address == CCM_RAM_START - PAGE_SIZE,
        valid_erase_address(address),
{
    CCM_RAM_START - PAGE_SIZE
}

/// Extension trait to constrain the flash peripheral
pub trait FlashExt {
    /// The register block this peripheral stands for, as the contracts of
    /// the two operations speak of it.
    spec fn model(&self) -> FlashRegs;

    /// Constrains the flash peripheral to play nicely with the other
    /// abstractions
    fn constrain(self) -> Parts;

    /// Erase flash page at `address`, polling the busy flag at most
    /// `max_polls` times. Note that one page = 2 KiB. The address must lie
    /// in the flash bank on a page boundary; any other address is rejected
    /// before any register is touched.
    fn page_erase(&mut self, address: u32, max_polls: u32) -> (r: Result<(), FlashError>)
        ensures
            r == erase_result(old(self).model(), address, max_polls),
            final(self).model() == erase_final(old(self).model(), address, max_polls),
    ;

    /// Write one word to the flash page at `address`, polling the busy flag
    /// at most `max_polls` times. The address must lie in the flash bank on
    /// a word boundary; any other address is rejected before any register
    /// is touched.
    fn page_write(&mut self, address: u32, data: u32, max_polls: u32) -> (r: Result<
        (),
        FlashError,
    >)
        ensures
            r == program_result(old(self).model(), address, max_polls),
            final(self).model() == program_final(old(self).model(), address, data, max_polls),
    ;
}

impl FlashExt for FlashRegs {
    open spec fn model(&self) -> FlashRegs {
        *self
    }

    fn constrain(self) -> Parts {
        Parts { acr: ACR { _reserved: () } }
    }

    fn page_erase(&mut self, address: u32, max_polls: u32) -> (r: Result<(), FlashError>) {
        self.erase_page(address, max_polls)
    }

    fn page_write(&mut self, address: u32, data: u32, max_polls: u32) -> (r: Result<
        (),
        FlashError,
    >) {
        self.program_word(address, data, max_polls)
    }
}

/// Constrained flash peripheral
pub struct Parts {
    /// Opaque Access Control Register (ACR)
    pub acr: ACR,
}

/// Opaque Access Control Register (ACR)
pub struct ACR {
    _reserved: (),
}

} // verus!
