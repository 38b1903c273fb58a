use vstd::prelude::*;

verus! {

/// Size of the address space of the sound processor, in bytes.
pub const RAM_SIZE: usize = 65536;

/// Number of registers of the signal processor.
pub const DSP_REGISTER_COUNT: usize = 128;

/// Size of one entry of the sample directory, in bytes.
pub const DIRECTORY_ENTRY_SIZE: usize = 4;

/// Registers of the sound processor.
#[derive(Debug, Clone, Copy, PartialEq, Eq, Structural)]
pub struct CpuRegisters {
    pub pc: u16,
    pub a: u8,
    pub x: u8,
    pub y: u8,
    pub psw: u8,
    pub sp: u8,
}

/// Where the compressed waveform of a source starts and where it loops.
#[derive(Debug, Clone, Copy, PartialEq, Eq, Structural)]
pub struct DirectoryEntry {
    pub start_address: u16,
    pub loop_address: u16,
}

/// The frozen state that every emulator of one music file starts from.
#[derive(Debug)]
pub struct MemorySnapshot {
    registers: CpuRegisters,
    ram: Vec<u8>,
    dsp_registers: Vec<u8>,
}

/// The 16-bit number stored at `address`, low byte first.
pub open spec fn spec_word_at(ram: Seq<u8>, address: int) -> int {
    ram[address] as int + 256 * ram[address + 1] as int
}

/// The directory entry stored at `address`.
pub open spec fn spec_directory_entry(ram: Seq<u8>, address: int) -> DirectoryEntry {
    DirectoryEntry {
        start_address: spec_word_at(ram, address) as u16,
        loop_address: spec_word_at(ram, address + 2) as u16,
    }
}

/// The address of the directory entry of `source` in a directory that
/// starts at the 256-byte page `page`.
pub open spec fn spec_directory_address(page: u8, source: u8) -> int {
    page as int * 256 + 4 * source as int
}

/// The address of the directory entry of `source` in a directory that
/// starts at the 256-byte page `page`.
pub fn directory_address(page: u8, source: u8) -> (address: usize)
    ensures
        address == spec_directory_address(page, source),
{
    page as usize * 256 + 4 * source as usize
}

/// Reads the directory entry stored at `address`: two 16-bit numbers, low
/// byte first. `None` where the four bytes do not lie inside `ram`.
pub fn read_directory_entry(ram: &[u8], address: usize) -> (entry: Option<DirectoryEntry>)
    ensures
        entry == if address + DIRECTORY_ENTRY_SIZE <= ram@.len() {
            Some(spec_directory_entry(ram@, address as int))
        } else {
            None
        },
{
    if address > ram.len() || ram.len() - address < DIRECTORY_ENTRY_SIZE {
        return None;
    }
    let start: u16 = ram[address] as u16 + 256 * (ram[address + 1] as u16);
    let loop_start: u16 = ram[address + 2] as u16 + 256 * (ram[address + 3] as u16);
    Some(DirectoryEntry { start_address: start, loop_address: loop_start })
}

impl MemorySnapshot {
    #[verifier::type_invariant]
    spec fn well_formed(self) -> bool {
        self.ram@.len() == RAM_SIZE && self.dsp_registers@.len() == DSP_REGISTER_COUNT
    }

    pub closed spec fn spec_registers(self) -> CpuRegisters {
        self.registers
    }

    /// The 65536 bytes of memory.
    pub closed spec fn spec_ram(self) -> Seq<u8> {
        self.ram@
    }

    /// The 128 registers of the signal processor.
    pub closed spec fn spec_dsp_registers(self) -> Seq<u8> {
        self.dsp_registers@
    }

    /// A snapshot of the given state; `None` unless `ram` holds 65536 bytes
    /// and `dsp_registers` 128.
    pub fn new(registers: CpuRegisters, ram: Vec<u8>, dsp_registers: Vec<u8>) -> (snapshot: Option<
        MemorySnapshot,
    >)
        ensures
            snapshot is Some <==> ram@.len() == RAM_SIZE && dsp_registers@.len()
                == DSP_REGISTER_COUNT,
            snapshot matches Some(s) ==> s.spec_registers() == registers && s.spec_ram() == ram@
                && s.spec_dsp_registers() == dsp_registers@,
    {
        if ram.len() == RAM_SIZE && dsp_registers.len() == DSP_REGISTER_COUNT {
            Some(MemorySnapshot { registers, ram, dsp_registers })
        } else {
            None
        }
    }

    pub fn registers(&self) -> (registers: CpuRegisters)
        ensures
            registers == self.spec_registers(),
    {
        self.registers
    }

    pub fn ram(&self) -> (ram: &Vec<u8>)
        ensures
            ram@ == self.spec_ram(),
            ram@.len() == RAM_SIZE,
    {
        proof {
            use_type_invariant(self);
        }
        &self.ram
    }

    pub fn dsp_registers(&self) -> (dsp_registers: &Vec<u8>)
        ensures
            dsp_registers@ == self.spec_dsp_registers(),
            dsp_registers@.len() == DSP_REGISTER_COUNT,
    {
        proof {
            use_type_invariant(self);
        }
        &self.dsp_registers
    }

    /// The directory entry stored at `address`, or `None` where it would
    /// reach past the end of memory.
    pub fn directory_entry(&self, address: usize) -> (entry: Option<DirectoryEntry>)
        ensures
            entry == if address + DIRECTORY_ENTRY_SIZE <= RAM_SIZE {
                Some(spec_directory_entry(self.spec_ram(), address as int))
            } else {
                None
            },
    {
        proof {
            use_type_invariant(self);
        }
        read_directory_entry(self.ram.as_slice(), address)
    }
}

impl Clone for MemorySnapshot {
    fn clone(&self) -> (copy: MemorySnapshot)
        ensures
            copy.spec_registers() == self.spec_registers(),
            copy.spec_ram() == self.spec_ram(),
            copy.spec_dsp_registers() == self.spec_dsp_registers(),
    {
        proof {
            use_type_invariant(self);
        }
        MemorySnapshot {
            registers: self.registers,
            ram: self.ram.clone(),
            dsp_registers: self.dsp_registers.clone(),
        }
    }
}

} // verus!
