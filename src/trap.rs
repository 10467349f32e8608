//! Classification of `scause` into the interrupts and exceptions that a
//! hypervisor on the H extension sees.
use vstd::prelude::*;

verus! {

/// The bit of `scause` that marks an interrupt.
pub const INTERRUPT_BIT: u64 = 0x8000_0000_0000_0000;
/// `scause` of a supervisor software interrupt; also its interrupt vector.
pub const S_SOFT: u64 = 0x8000_0000_0000_0001;
/// `scause` of a supervisor timer interrupt; also its interrupt vector.
pub const S_TIMER: u64 = 0x8000_0000_0000_0005;
/// `scause` of a supervisor external interrupt; also its interrupt vector.
pub const S_EXT: u64 = 0x8000_0000_0000_0009;

/// Supervisor-level interrupts.
#[derive(Clone, Copy, Debug, PartialEq, Eq, Structural)]
pub enum Interrupt {
    SupervisorSoft,
    SupervisorTimer,
    SupervisorExternal,
}

/// Synchronous exceptions, including those that the H extension adds.
#[derive(Clone, Copy, Debug, PartialEq, Eq, Structural)]
pub enum Exception {
    InstructionMisaligned,
    InstructionFault,
    IllegalInstruction,
    Breakpoint,
    LoadMisaligned,
    LoadFault,
    StoreMisaligned,
    StoreFault,
    UserEnvCall,
    SupervisorEnvCall,
    VirtualSupervisorEnvCall,
    InstructionPageFault,
    LoadPageFault,
    StorePageFault,
    InstructionGuestPageFault,
    LoadGuestPageFault,
    VirtualInstruction,
    StoreGuestPageFault,
}

/// A trap: an interrupt or an exception.
#[derive(Clone, Copy, Debug, PartialEq, Eq, Structural)]
pub enum Trap {
    Interrupt(Interrupt),
    Exception(Exception),
}

/// The interrupt with cause code `code`, if there is one.
pub open spec fn interrupt_of(code: u64) -> Option<Interrupt> {
    if code == 1 {
        Some(Interrupt::SupervisorSoft)
    } else if code == 5 {
        Some(Interrupt::SupervisorTimer)
    } else if code == 9 {
        Some(Interrupt::SupervisorExternal)
    } else {
        None
    }
}

/// The exception with cause code `code`, if there is one.
pub open spec fn exception_of(code: u64) -> Option<Exception> {
    if code == 0 {
        Some(Exception::InstructionMisaligned)
    } else if code == 1 {
        Some(Exception::InstructionFault)
    } else if code == 2 {
        Some(Exception::IllegalInstruction)
    } else if code == 3 {
        Some(Exception::Breakpoint)
    } else if code == 4 {
        Some(Exception::LoadMisaligned)
    } else if code == 5 {
        Some(Exception::LoadFault)
    } else if code == 6 {
        Some(Exception::StoreMisaligned)
    } else if code == 7 {
        Some(Exception::StoreFault)
    } else if code == 8 {
        Some(Exception::UserEnvCall)
    } else if code == 9 {
        Some(Exception::SupervisorEnvCall)
    } else if code == 10 {
        Some(Exception::VirtualSupervisorEnvCall)
    } else if code == 12 {
        Some(Exception::InstructionPageFault)
    } else if code == 13 {
        Some(Exception::LoadPageFault)
    } else if code == 15 {
        Some(Exception::StorePageFault)
    } else if code == 20 {
        Some(Exception::InstructionGuestPageFault)
    } else if code == 21 {
        Some(Exception::LoadGuestPageFault)
    } else if code == 22 {
        Some(Exception::VirtualInstruction)
    } else if code == 23 {
        Some(Exception::StoreGuestPageFault)
    } else {
        None
    }
}

/// The trap that `scause` encodes: the top bit tells an interrupt from an
/// exception, the other bits give the cause code.
pub open spec fn trap_of(scause: u64) -> Option<Trap> {
    if scause >= INTERRUPT_BIT {
        match interrupt_of((scause - INTERRUPT_BIT) as u64) {
            Some(i) => Some(Trap::Interrupt(i)),
            None => None,
        }
    } else {
        match exception_of(scause) {
            Some(e) => Some(Trap::Exception(e)),
            None => None,
        }
    }
}

fn interrupt_from_code(code: u64) -> (r: Option<Interrupt>)
    ensures
        r == interrupt_of(code),
{
    match code {
        1 => Some(Interrupt::SupervisorSoft),
        5 => Some(Interrupt::SupervisorTimer),
        9 => Some(Interrupt::SupervisorExternal),
        _ => None,
    }
}

fn exception_from_code(code: u64) -> (r: Option<Exception>)
    ensures
        r == exception_of(code),
{
    match code {
        0 => Some(Exception::InstructionMisaligned),
        1 => Some(Exception::InstructionFault),
        2 => Some(Exception::IllegalInstruction),
        3 => Some(Exception::Breakpoint),
        4 => Some(Exception::LoadMisaligned),
        5 => Some(Exception::LoadFault),
        6 => Some(Exception::StoreMisaligned),
        7 => Some(Exception::StoreFault),
        8 => Some(Exception::UserEnvCall),
        9 => Some(Exception::SupervisorEnvCall),
        10 => Some(Exception::VirtualSupervisorEnvCall),
        12 => Some(Exception::InstructionPageFault),
        13 => Some(Exception::LoadPageFault),
        15 => Some(Exception::StorePageFault),
        20 => Some(Exception::InstructionGuestPageFault),
        21 => Some(Exception::LoadGuestPageFault),
        22 => Some(Exception::VirtualInstruction),
        23 => Some(Exception::StoreGuestPageFault),
        _ => None,
    }
}

/// Decodes `scause`; `None` when it encodes no known trap.
pub fn decode_scause(scause: u64) -> (r: Option<Trap>)
    ensures
        r == trap_of(scause),
{
    if scause >= INTERRUPT_BIT {
        match interrupt_from_code(scause - INTERRUPT_BIT) {
            Some(i) => Some(Trap::Interrupt(i)),
            None => None,
        }
    } else {
        match exception_from_code(scause) {
            Some(e) => Some(Trap::Exception(e)),
            None => None,
        }
    }
}

} // verus!
