//! Model of the flash controller's register block.
//!
//! The physical controller is a memory-mapped register file: a lock/unlock
//! key port, a control register with enable and start bits, a target-address
//! register, and a status register with busy/end-of-operation/write-protect
//! flags. This module renders that surface as a plain value, [`FlashRegs`],
//! whose methods are the only sanctioned way the driver touches the
//! hardware. Each method carries an exact contract, stated through the spec
//! functions below, so the driver's own proofs rest on the documented
//! register semantics and on nothing else.
//!
//! Two fields script the parts of the hardware that software cannot see
//! into: `busy_polls` says for how many more status reads an in-flight cycle
//! keeps the busy flag asserted, and `op_success` says whether the cycle,
//! once it completes, latches the end-of-operation flag. A test double sets
//! them to simulate fast, slow, failing, or never-completing hardware.

use vstd::prelude::*;

verus! {

/// First word of the unlock handshake, written to the key port.
pub const FLASH_KEYR_KEY_1: u32 = 0x4567_0123;

/// Second word of the unlock handshake, written to the key port.
pub const FLASH_KEYR_KEY_2: u32 = 0xCDEF_89AB;

/// The flash controller's register block, with the scripted hardware
/// behaviour a test double needs.
///
/// `true` in a flag field means the bit is set. The key port keeps one bit
/// of latch state between the two writes of the unlock handshake
/// (`key1_seen`); a malformed write sequence trips `perm_locked`, which no
/// further key write can clear — only a device reset.
#[derive(Clone, Copy, Debug, PartialEq, Eq)]
pub struct FlashRegs {
    /// Lock bit of the control register: while set, command bits are inert.
    pub lock: bool,
    /// Busy flag of the status register: an erase/program cycle is running.
    pub busy: bool,
    /// End-of-operation flag: latched by hardware on success, write-to-clear.
    pub eop: bool,
    /// Write-protect-error flag: latched by hardware on a rejected cycle.
    pub wrprterr: bool,
    /// Page-erase-enable bit of the control register.
    pub per: bool,
    /// Program-enable bit of the control register.
    pub pg: bool,
    /// Start-trigger bit: setting it begins the selected erase cycle.
    pub strt: bool,
    /// Target-address register.
    pub ar: u32,
    /// Key-port latch: the first key word was accepted, the second is awaited.
    pub key1_seen: bool,
    /// The key port saw a wrong sequence and is dead until a device reset.
    pub perm_locked: bool,
    /// How many writes the key port has received (observability for laws and
    /// test doubles; saturates instead of wrapping).
    pub key_writes: u64,
    /// Scripted behaviour: status reads left before a running cycle ends.
    pub busy_polls: u32,
    /// Scripted behaviour: whether a completed cycle reports success.
    pub op_success: bool,
    /// Model of the memory-mapped payload cell: the last word-program write,
    /// as (address, value). Programming is triggered by this write itself,
    /// not by the start bit.
    pub programmed: Option<(u32, u32)>,
}

/// One more key-port write, saturating at the counter's ceiling.
pub open spec fn bump64(c: u64) -> u64 {
    if c == u64::MAX {
        c
    } else {
        (c + 1) as u64
    }
}

/// What one write of `key` to the unlock key port does.
///
/// The port is inert when the controller is already unlocked or permanently
/// latched. Otherwise it accepts the two key words in order; any deviation
/// trips the permanent latch. Every write, inert or not, is counted.
pub open spec fn spec_key_write(r: FlashRegs, key: u32) -> FlashRegs {
    let w = FlashRegs { key_writes: bump64(r.key_writes), ..r };
    if !r.lock || r.perm_locked {
        w
    } else if !r.key1_seen {
        if key == FLASH_KEYR_KEY_1 {
            FlashRegs { key1_seen: true, ..w }
        } else {
            FlashRegs { perm_locked: true, ..w }
        }
    } else {
        if key == FLASH_KEYR_KEY_2 {
            FlashRegs { lock: false, key1_seen: false, ..w }
        } else {
            FlashRegs { perm_locked: true, key1_seen: false, ..w }
        }
    }
}

/// The full unlock handshake: the two key words, written in order.
pub open spec fn spec_unlock(r: FlashRegs) -> FlashRegs {
    spec_key_write(spec_key_write(r, FLASH_KEYR_KEY_1), FLASH_KEYR_KEY_2)
}

/// The handshake opens the lock exactly when the port is alive and not
/// mid-sequence.
pub open spec fn unlock_ok(r: FlashRegs) -> bool {
    !r.perm_locked && !r.key1_seen
}

/// The register state after a running cycle ends: busy and start clear, the
/// end-of-operation flag latched on success, the write-protect-error flag
/// latched on failure. Latched means set-only: a stale set flag stays set.
pub open spec fn spec_completed(r: FlashRegs) -> FlashRegs {
    FlashRegs {
        busy: false,
        strt: false,
        busy_polls: 0,
        eop: r.eop || r.op_success,
        wrprterr: r.wrprterr || !r.op_success,
        ..r
    }
}

impl FlashRegs {
    /// The register block as a device reset leaves it: locked, idle, all
    /// flags clear, the key port alive, and a script that completes at once
    /// with success.
    pub fn at_reset() -> (r: FlashRegs)
        ensures
            r == (FlashRegs {
                lock: true,
                busy: false,
                eop: false,
                wrprterr: false,
                per: false,
                pg: false,
                strt: false,
                ar: 0,
                key1_seen: false,
                perm_locked: false,
                key_writes: 0,
                busy_polls: 0,
                op_success: true,
                programmed: None,
            }),
    {
        FlashRegs {
            lock: true,
            busy: false,
            eop: false,
            wrprterr: false,
            per: false,
            pg: false,
            strt: false,
            ar: 0,
            key1_seen: false,
            perm_locked: false,
            key_writes: 0,
            busy_polls: 0,
            op_success: true,
            programmed: None,
        }
    }

    /// One write to the unlock key port.
    pub fn write_key(&mut self, key: u32)
        ensures
            *final(self) == spec_key_write(*old(self), key),
    {
        if self.key_writes < u64::MAX {
            self.key_writes = self.key_writes + 1;
        }
        if !self.lock || self.perm_locked {
            return ;
        }
        if !self.key1_seen {
            if key == FLASH_KEYR_KEY_1 {
                self.key1_seen = true;
            } else {
                self.perm_locked = true;
            }
        } else {
            self.key1_seen = false;
            if key == FLASH_KEYR_KEY_2 {
                self.lock = false;
            } else {
                self.perm_locked = true;
            }
        }
    }

    /// One read of the busy flag while awaiting completion, advancing the
    /// scripted hardware by one step. Returns the flag as read.
    pub fn poll_busy(&mut self) -> (b: bool)
        ensures
            b == final(self).busy,
            !old(self).busy ==> *final(self) == *old(self),
            old(self).busy && old(self).busy_polls > 0 ==> *final(self) == (FlashRegs {
                busy_polls: (old(self).busy_polls - 1) as u32,
                ..*old(self)
            }),
            old(self).busy && old(self).busy_polls == 0 ==> *final(self) == spec_completed(
                *old(self),
            ),
    {
        if !self.busy {
            return false;
        }
        if self.busy_polls > 0 {
            self.busy_polls = self.busy_polls - 1;
            true
        } else {
            self.busy = false;
            self.strt = false;
            self.eop = self.eop || self.op_success;
            self.wrprterr = self.wrprterr || !self.op_success;
            false
        }
    }

    /// Set the page-erase-enable bit.
    pub fn enable_page_erase(&mut self)
        ensures
            *final(self) == (FlashRegs { per: true, ..*old(self) }),
    {
        self.per = true;
    }

    /// Clear the page-erase-enable bit.
    pub fn clear_page_erase(&mut self)
        ensures
            *final(self) == (FlashRegs { per: false, ..*old(self) }),
    {
        self.per = false;
    }

    /// Set the program-enable bit.
    pub fn enable_programming(&mut self)
        ensures
            *final(self) == (FlashRegs { pg: true, ..*old(self) }),
    {
        self.pg = true;
    }

    /// Clear the program-enable bit.
    pub fn clear_programming(&mut self)
        ensures
            *final(self) == (FlashRegs { pg: false, ..*old(self) }),
    {
        self.pg = false;
    }

    /// Write the target address to the address register.
    pub fn select_address(&mut self, address: u32)
        ensures
            *final(self) == (FlashRegs { ar: address, ..*old(self) }),
    {
        self.ar = address;
    }

    /// Set the start-trigger bit. The hardware begins the selected cycle and
    /// raises the busy flag; this is the point of no return.
    pub fn trigger_start(&mut self)
        ensures
            *final(self) == (FlashRegs { strt: true, busy: true, ..*old(self) }),
    {
        self.strt = true;
        self.busy = true;
    }

    /// Write one word to the target flash address through the memory-mapped
    /// payload cell. For programming this write itself starts the hardware
    /// cycle, so the busy flag rises with it.
    pub fn write_payload(&mut self, address: u32, value: u32)
        ensures
            *final(self) == (FlashRegs {
                programmed: Some((address, value)),
                busy: true,
                ..*old(self)
            }),
    {
        self.programmed = Some((address, value));
        self.busy = true;
    }

    /// Clear the end-of-operation flag (write-to-clear).
    pub fn clear_eop(&mut self)
        ensures
            *final(self) == (FlashRegs { eop: false, ..*old(self) }),
    {
        self.eop = false;
    }
}

} // verus!
