use flash_ctrl::flash::{page_to_address, unlock_cr, FlashError, FlashExt, Parts};
use flash_ctrl::regs::{FlashRegs, FLASH_KEYR_KEY_1};

/// An idle, already-unlocked controller whose next cycle keeps the busy
/// flag up for `busy_polls` reads and then reports success iff `op_success`.
fn unlocked_idle(busy_polls: u32, op_success: bool) -> FlashRegs {
    let mut r = FlashRegs::at_reset();
    r.lock = false;
    r.busy_polls = busy_polls;
    r.op_success = op_success;
    r
}

#[test]
fn erase_success_after_n_polls() {
    let mut r = unlocked_idle(3, true);
    assert_eq!(r.erase_page(0x0800_3000, 10), Ok(()));
    assert!(!r.busy);
    assert!(!r.eop);
    assert!(!r.per);
    assert!(!r.strt);
    assert_eq!(r.ar, 0x0800_3000);
    assert_eq!(r.key_writes, 0);
    assert_eq!(r.busy_polls, 0);
}

#[test]
fn erase_fails_when_eop_never_sets() {
    let mut r = unlocked_idle(2, false);
    assert_eq!(r.erase_page(0x0800_3000, 10), Err(FlashError::EraseFailed));
    assert!(!r.per);
    assert!(!r.busy);
    assert!(r.wrprterr);
}

#[test]
fn wrong_second_key_latches_lock() {
    let mut r = FlashRegs::at_reset();
    r.write_key(FLASH_KEYR_KEY_1);
    r.write_key(0x1111_1111);
    assert!(r.perm_locked);
    assert!(r.lock);
    let before = r;
    assert_eq!(r.erase_page(0x0800_3000, 10), Err(FlashError::UnlockFailed));
    assert!(r.lock);
    assert_eq!(r.per, before.per);
    assert_eq!(r.pg, before.pg);
    assert_eq!(r.strt, before.strt);
    assert_eq!(r.ar, before.ar);
    assert_eq!(r.programmed, None);
    assert_eq!(r.key_writes, before.key_writes + 2);
}

#[test]
fn busy_wait_bound_expires() {
    let mut r = unlocked_idle(u32::MAX, true);
    assert_eq!(r.erase_page(0x0800_3000, 5), Err(FlashError::Timeout));
    assert!(r.busy);
    assert!(!r.per);
}

#[test]
fn erase_twice_succeeds() {
    let mut r = unlocked_idle(0, true);
    assert_eq!(r.erase_page(0x0800_3000, 4), Ok(()));
    assert_eq!(r.erase_page(0x0800_3000, 4), Ok(()));
}

#[test]
fn misaligned_erase_rejected_untouched() {
    let mut r = unlocked_idle(0, true);
    let before = r;
    assert_eq!(r.erase_page(0x0800_3001, 4), Err(FlashError::InvalidAddress));
    assert_eq!(r, before);
}

#[test]
fn misaligned_program_rejected_untouched() {
    let mut r = unlocked_idle(0, true);
    let before = r;
    assert_eq!(
        r.program_word(0x0800_3002, 0xAABB_CCDD, 4),
        Err(FlashError::InvalidAddress)
    );
    assert_eq!(r, before);
}

#[test]
fn erase_outside_flash_bank_rejected_untouched() {
    let mut r = unlocked_idle(0, true);
    let before = r;
    // Page-aligned, but in SRAM, above the flash bank.
    assert_eq!(r.erase_page(0x2000_0000, 4), Err(FlashError::InvalidAddress));
    assert_eq!(r, before);
    // Page-aligned, but below the flash bank.
    assert_eq!(r.erase_page(0x0000_0000, 4), Err(FlashError::InvalidAddress));
    assert_eq!(r, before);
}

#[test]
fn program_outside_flash_bank_rejected_untouched() {
    let mut r = unlocked_idle(0, true);
    let before = r;
    assert_eq!(
        r.program_word(0x2000_0004, 0xAABB_CCDD, 4),
        Err(FlashError::InvalidAddress)
    );
    assert_eq!(r, before);
    assert_eq!(r.programmed, None);
}

#[test]
fn busy_at_entry_rejected_untouched() {
    let mut r = unlocked_idle(0, true);
    r.busy = true;
    let before = r;
    assert_eq!(r.erase_page(0x0800_3000, 4), Err(FlashError::Busy));
    assert_eq!(r, before);
    assert_eq!(r.program_word(0x0800_3004, 1, 4), Err(FlashError::Busy));
    assert_eq!(r, before);
}

#[test]
fn unlocked_controller_never_writes_key_port() {
    let mut r = unlocked_idle(0, true);
    assert_eq!(r.erase_page(0x0800_3000, 4), Ok(()));
    assert_eq!(r.key_writes, 0);
}

#[test]
fn locked_controller_gets_exactly_one_handshake() {
    let mut r = FlashRegs::at_reset();
    assert_eq!(r.erase_page(0x0800_3000, 4), Ok(()));
    assert!(!r.lock);
    assert_eq!(r.key_writes, 2);
}

#[test]
fn program_success_writes_payload() {
    let mut r = unlocked_idle(1, true);
    assert_eq!(r.program_word(0x0800_3004, 0xCAFE_F00D, 4), Ok(()));
    assert_eq!(r.programmed, Some((0x0800_3004, 0xCAFE_F00D)));
    assert!(!r.pg);
    assert!(!r.eop);
    assert!(!r.busy);
}

#[test]
fn failed_program_has_still_written_payload() {
    let mut r = unlocked_idle(0, false);
    assert_eq!(
        r.program_word(0x0800_3004, 0x1234_5678, 4),
        Err(FlashError::ProgramFailed)
    );
    assert_eq!(r.programmed, Some((0x0800_3004, 0x1234_5678)));
    assert!(!r.pg);
}

#[test]
fn program_on_dead_key_port_fails_to_unlock() {
    let mut r = FlashRegs::at_reset();
    r.perm_locked = true;
    assert_eq!(
        r.program_word(0x0800_3004, 7, 4),
        Err(FlashError::UnlockFailed)
    );
    assert!(r.lock);
    assert_eq!(r.programmed, None);
}

#[test]
fn page_to_address_is_page_below_ccm_ram() {
    let address = page_to_address();
    assert_eq!(address, 0x0FFF_F800);
    assert_eq!(address % 0x800, 0);
}

#[test]
fn unlock_cr_opens_the_lock() {
    let mut r = FlashRegs::at_reset();
    unlock_cr(&mut r);
    assert!(!r.lock);
    assert_eq!(r.key_writes, 2);
}

#[test]
fn timeout_boundary_is_exact() {
    let mut slow = unlocked_idle(5, true);
    assert_eq!(slow.erase_page(0x0800_3000, 5), Err(FlashError::Timeout));
    let mut fast = unlocked_idle(4, true);
    assert_eq!(fast.erase_page(0x0800_3000, 5), Ok(()));
}

#[test]
fn zero_poll_budget_times_out() {
    let mut r = unlocked_idle(0, true);
    assert_eq!(r.erase_page(0x0800_3000, 0), Err(FlashError::Timeout));
}

#[test]
fn stale_eop_cannot_fool_two_calls() {
    let mut r = unlocked_idle(0, false);
    r.eop = true;
    assert_eq!(r.erase_page(0x0800_3000, 4), Ok(()));
    assert!(!r.eop);
    assert_eq!(r.erase_page(0x0800_3000, 4), Err(FlashError::EraseFailed));
}

#[test]
fn extension_trait_forwards_to_the_driver() {
    let mut r = unlocked_idle(0, true);
    assert_eq!(FlashExt::page_erase(&mut r, 0x0800_3000, 4), Ok(()));
    assert_eq!(FlashExt::page_write(&mut r, 0x0800_3004, 42, 4), Ok(()));
    assert_eq!(r.programmed, Some((0x0800_3004, 42)));
    let parts: Parts = r.constrain();
    let _acr = parts.acr;
}
