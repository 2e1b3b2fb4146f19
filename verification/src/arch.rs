//! Display names for the machine-type codes found in container headers.

use vstd::prelude::*;

verus! {

/// The display name of an ELF `e_machine` code.
pub open spec fn elf_architecture(machine: u16) -> Seq<char> {
    if machine == 0x03 {
        "x86"@
    } else if machine == 0x3E {
        "x86-64"@
    } else {
        "Unknown"@
    }
}

/// The display name of a PE/COFF machine code.
pub open spec fn pe_architecture(machine: u16) -> Seq<char> {
    if machine == 0x014c {
        "x86"@
    } else if machine == 0x0200 {
        "IA64"@
    } else if machine == 0x8664 {
        "x86-64"@
    } else {
        "Unknown"@
    }
}

/// Whether the ELF table has an entry for `machine`.
pub open spec fn elf_machine_is_mapped(machine: u16) -> bool {
    machine == 0x03 || machine == 0x3E
}

/// Whether the PE table has an entry for `machine`.
pub open spec fn pe_machine_is_mapped(machine: u16) -> bool {
    machine == 0x014c || machine == 0x0200 || machine == 0x8664
}

/// Resolves an ELF machine code to its display name. Codes without an entry
/// resolve to `"Unknown"`; no code is an error.
pub fn get_architecture_name_elf(machine: u16) -> (name: &'static str)
    ensures
        name@ == elf_architecture(machine),
        !elf_machine_is_mapped(machine) ==> name@ == "Unknown"@,
{
    match machine {
        0x03 => "x86",
        0x3E => "x86-64",
        _ => "Unknown",
    }
}

/// Resolves a PE/COFF machine code to its display name. Codes without an
/// entry resolve to `"Unknown"`; no code is an error.
pub fn get_architecture_name_pe(machine: u16) -> (name: &'static str)
    ensures
        name@ == pe_architecture(machine),
        !pe_machine_is_mapped(machine) ==> name@ == "Unknown"@,
{
    match machine {
        0x014c => "x86",
        0x0200 => "IA64",
        0x8664 => "x86-64",
        _ => "Unknown",
    }
}

} // verus!
