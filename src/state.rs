use crate::isa::Cause;
use vstd::prelude::*;

verus! {

/// The value a 32-bit result takes in a 64-bit register: sign-extended.
pub open spec fn sext32(v: u32) -> u64 {
    v as i32 as i64 as u64
}

/// Register file after writing `v` to index `i`; index 0 ignores writes.
pub open spec fn reg_write(x: Seq<u64>, i: int, v: u64) -> Seq<u64> {
    if i == 0 {
        x
    } else {
        x.update(i, v)
    }
}

/// The 32 integer registers, each 64 bits wide; register 0 always reads zero.
/// RV32 instructions use the low 32 bits and write sign-extended results.
pub struct IntegerRegister {
    regs: Vec<u64>,
}

impl View for IntegerRegister {
    type V = Seq<u64>;

    closed spec fn view(&self) -> Seq<u64> {
        self.regs@
    }
}

impl IntegerRegister {
    pub open spec fn wf(&self) -> bool {
        self@.len() == 32 && self@[0] == 0
    }

    pub fn new() -> (r: IntegerRegister)
        ensures
            r.wf(),
            r@ == Seq::new(32, |_i: int| 0u64),
    {
        let mut regs: Vec<u64> = Vec::new();
        let mut k: usize = 0;
        while k < 32
            invariant
                k <= 32,
                regs@ == Seq::new(k as nat, |_i: int| 0u64),
            decreases 32 - k,
        {
            regs.push(0);
            k = k + 1;
        }
        IntegerRegister { regs }
    }

    /// The full 64-bit value of register `i`.
    pub fn read_unsigned(&self, i: usize) -> (r: u64)
        requires
            self.wf(),
            i < 32,
        ensures
            r == self@[i as int],
            i == 0 ==> r == 0,
    {
        self.regs[i]
    }

    /// The 64-bit value of register `i`, reinterpreted as signed.
    pub fn read_signed(&self, i: usize) -> (r: i64)
        requires
            self.wf(),
            i < 32,
        ensures
            r == self@[i as int] as i64,
    {
        self.regs[i] as i64
    }

    /// The low 32 bits of register `i`.
    pub fn read_u32(&self, i: usize) -> (r: u32)
        requires
            self.wf(),
            i < 32,
        ensures
            r == self@[i as int] as u32,
    {
        self.regs[i] as u32
    }

    /// The low 32 bits of register `i`, reinterpreted as signed.
    pub fn read_i32(&self, i: usize) -> (r: i32)
        requires
            self.wf(),
            i < 32,
        ensures
            r == self@[i as int] as u32 as i32,
    {
        self.regs[i] as u32 as i32
    }

    pub fn write_unsigned(&mut self, i: usize, v: u64)
        requires
            old(self).wf(),
            i < 32,
        ensures
            final(self).wf(),
            final(self)@ == reg_write(old(self)@, i as int, v),
    {
        if i != 0 {
            self.regs.set(i, v);
        }
    }

    pub fn write_signed(&mut self, i: usize, v: i64)
        requires
            old(self).wf(),
            i < 32,
        ensures
            final(self).wf(),
            final(self)@ == reg_write(old(self)@, i as int, v as u64),
    {
        self.write_unsigned(i, v as u64);
    }

    /// Writes a 32-bit result, sign-extended to the register width.
    pub fn write_u32(&mut self, i: usize, v: u32)
        requires
            old(self).wf(),
            i < 32,
        ensures
            final(self).wf(),
            final(self)@ == reg_write(old(self)@, i as int, sext32(v)),
    {
        self.write_unsigned(i, v as i32 as i64 as u64);
    }
}

/// The 32 single-precision registers, each holding a raw 32-bit encoding.
pub struct FloatingPointRegister {
    regs: Vec<u32>,
}

impl View for FloatingPointRegister {
    type V = Seq<u32>;

    closed spec fn view(&self) -> Seq<u32> {
        self.regs@
    }
}

impl FloatingPointRegister {
    pub open spec fn wf(&self) -> bool {
        self@.len() == 32
    }

    pub fn new() -> (r: FloatingPointRegister)
        ensures
            r.wf(),
            r@ == Seq::new(32, |_i: int| 0u32),
    {
        let mut regs: Vec<u32> = Vec::new();
        let mut k: usize = 0;
        while k < 32
            invariant
                k <= 32,
                regs@ == Seq::new(k as nat, |_i: int| 0u32),
            decreases 32 - k,
        {
            regs.push(0);
            k = k + 1;
        }
        FloatingPointRegister { regs }
    }

    pub fn read_bits(&self, i: usize) -> (r: u32)
        requires
            self.wf(),
            i < 32,
        ensures
            r == self@[i as int],
    {
        self.regs[i]
    }

    pub fn write_bits(&mut self, i: usize, v: u32)
        requires
            old(self).wf(),
            i < 32,
        ensures
            final(self).wf(),
            final(self)@ == old(self)@.update(i as int, v),
    {
        self.regs.set(i, v);
    }
}

/// The program counter of a 32-bit hart.
pub struct ProgramCounter {
    pub value: u32,
}

impl ProgramCounter {
    pub fn new(value: u32) -> (r: ProgramCounter)
        ensures
            r.value == value,
    {
        ProgramCounter { value }
    }

    pub fn read(&self) -> (r: u32)
        ensures
            r == self.value,
    {
        self.value
    }

    /// Replaces the program counter.
    pub fn jump(&mut self, target: u32)
        ensures
            final(self).value == target,
    {
        self.value = target;
    }

    /// Adds a signed offset to the program counter, modulo 2^32.
    pub fn jump_relative(&mut self, offset: i32)
        ensures
            final(self).value == add_offset(old(self).value, offset),
    {
        self.value = offset32(self.value, offset);
    }
}

/// `base + offset` in 32-bit two's complement arithmetic.
pub open spec fn add_offset(base: u32, offset: i32) -> u32 {
    ((base as int + offset as int) % 0x1_0000_0000) as u32
}

/// Adds a signed offset to a 32-bit base, wrapping modulo 2^32.
pub fn offset32(base: u32, offset: i32) -> (r: u32)
    ensures
        r == add_offset(base, offset),
{
    let sum: i64 = base as i64 + offset as i64;
    let wrapped: i64 = if sum < 0 {
        sum + 0x1_0000_0000
    } else if sum >= 0x1_0000_0000 {
        sum - 0x1_0000_0000
    } else {
        sum
    };
    wrapped as u32
}

/// Number of CSR addresses: the address field is 12 bits wide.
pub const CSR_COUNT: usize = 4096;

/// Address of the floating-point control and status register.
pub const FCSR: u16 = 0x003;

/// The control and status registers, one 32-bit cell per 12-bit address.
pub struct ControlAndStatusRegister {
    regs: Vec<u32>,
}

impl View for ControlAndStatusRegister {
    type V = Seq<u32>;

    closed spec fn view(&self) -> Seq<u32> {
        self.regs@
    }
}

impl ControlAndStatusRegister {
    pub open spec fn wf(&self) -> bool {
        self@.len() == CSR_COUNT
    }

    pub fn new() -> (r: ControlAndStatusRegister)
        ensures
            r.wf(),
            r@ == Seq::new(CSR_COUNT as nat, |_i: int| 0u32),
    {
        let mut regs: Vec<u32> = Vec::new();
        let mut k: usize = 0;
        while k < CSR_COUNT
            invariant
                k <= CSR_COUNT,
                regs@ == Seq::new(k as nat, |_i: int| 0u32),
            decreases CSR_COUNT - k,
        {
            regs.push(0);
            k = k + 1;
        }
        ControlAndStatusRegister { regs }
    }

    pub fn read(&self, addr: u16) -> (r: u32)
        requires
            self.wf(),
            addr < CSR_COUNT,
        ensures
            r == self@[addr as int],
    {
        self.regs[addr as usize]
    }

    /// Replaces the CSR at `addr` with `v`; returns its previous value.
    pub fn csrrw(&mut self, addr: u16, v: u32) -> (r: u32)
        requires
            old(self).wf(),
            addr < CSR_COUNT,
        ensures
            r == old(self)@[addr as int],
            final(self)@ == old(self)@.update(addr as int, v),
    {
        let prev = self.regs[addr as usize];
        self.regs.set(addr as usize, v);
        prev
    }

    /// Sets the bits of `mask` in the CSR at `addr`; returns its previous value.
    pub fn csrrs(&mut self, addr: u16, mask: u32) -> (r: u32)
        requires
            old(self).wf(),
            addr < CSR_COUNT,
        ensures
            r == old(self)@[addr as int],
            final(self)@ == old(self)@.update(addr as int, r | mask),
    {
        let prev = self.regs[addr as usize];
        self.regs.set(addr as usize, prev | mask);
        prev
    }

    /// Clears the bits of `mask` in the CSR at `addr`; returns its previous value.
    pub fn csrrc(&mut self, addr: u16, mask: u32) -> (r: u32)
        requires
            old(self).wf(),
            addr < CSR_COUNT,
        ensures
            r == old(self)@[addr as int],
            final(self)@ == old(self)@.update(addr as int, r & !mask),
    {
        let prev = self.regs[addr as usize];
        self.regs.set(addr as usize, prev & !mask);
        prev
    }
}

/// Little-endian 16-bit value stored at `a`.
pub open spec fn mem_le16(m: Seq<u8>, a: int) -> u16 {
    (m[a] as int + 256 * m[a + 1] as int) as u16
}

/// Little-endian 32-bit value stored at `a`.
pub open spec fn mem_le32(m: Seq<u8>, a: int) -> u32 {
    (mem_le16(m, a) as int + 0x1_0000 * mem_le16(m, a + 2) as int) as u32
}

/// Memory after storing the two bytes of `v` at `a`, low byte first.
pub open spec fn mem_store16(m: Seq<u8>, a: int, v: u16) -> Seq<u8> {
    m.update(a, (v % 256) as u8).update(a + 1, (v / 256) as u8)
}

/// Memory after storing the four bytes of `v` at `a`, low byte first.
pub open spec fn mem_store32(m: Seq<u8>, a: int, v: u32) -> Seq<u8> {
    mem_store16(mem_store16(m, a, (v % 0x1_0000) as u16), a + 2, (v / 0x1_0000) as u16)
}

/// A flat byte-addressed memory starting at address 0.
pub struct SystemBus {
    mem: Vec<u8>,
}

impl View for SystemBus {
    type V = Seq<u8>;

    closed spec fn view(&self) -> Seq<u8> {
        self.mem@
    }
}

impl SystemBus {
    /// A zero-filled memory of `size` bytes.
    pub fn new(size: usize) -> (r: SystemBus)
        ensures
            r@ == Seq::new(size as nat, |_i: int| 0u8),
    {
        let mut mem: Vec<u8> = Vec::new();
        let mut k: usize = 0;
        while k < size
            invariant
                k <= size,
                mem@ == Seq::new(k as nat, |_i: int| 0u8),
            decreases size - k,
        {
            mem.push(0);
            k = k + 1;
        }
        SystemBus { mem }
    }

    pub fn load8(&self, addr: u64) -> (r: Result<u8, Cause>)
        ensures
            addr < self@.len() ==> r == Ok::<u8, Cause>(self@[addr as int]),
            addr >= self@.len() ==> r == Err::<u8, Cause>(Cause::LoadAccessFault),
    {
        if addr < self.mem.len() as u64 {
            Ok(self.mem[addr as usize])
        } else {
            Err(Cause::LoadAccessFault)
        }
    }

    pub fn load16(&self, addr: u64) -> (r: Result<u16, Cause>)
        ensures
            addr + 2 <= self@.len() ==> r == Ok::<u16, Cause>(mem_le16(self@, addr as int)),
            addr + 2 > self@.len() ==> r == Err::<u16, Cause>(Cause::LoadAccessFault),
    {
        if addr < self.mem.len() as u64 && self.mem.len() as u64 - addr >= 2 {
            let lo = self.mem[addr as usize] as u16;
            let hi = self.mem[addr as usize + 1] as u16;
            Ok(lo + 256 * hi)
        } else {
            Err(Cause::LoadAccessFault)
        }
    }

    pub fn load32(&self, addr: u64) -> (r: Result<u32, Cause>)
        ensures
            addr + 4 <= self@.len() ==> r == Ok::<u32, Cause>(mem_le32(self@, addr as int)),
            addr + 4 > self@.len() ==> r == Err::<u32, Cause>(Cause::LoadAccessFault),
    {
        if addr < self.mem.len() as u64 && self.mem.len() as u64 - addr >= 4 {
            let lo = self.load16(addr).unwrap() as u32;
            let hi = self.load16(addr + 2).unwrap() as u32;
            Ok(lo + 0x1_0000 * hi)
        } else {
            Err(Cause::LoadAccessFault)
        }
    }

    pub fn store8(&mut self, addr: u64, v: u8) -> (r: Result<(), Cause>)
        ensures
            addr < old(self)@.len() ==> r == Ok::<(), Cause>(())
                && final(self)@ == old(self)@.update(addr as int, v),
            addr >= old(self)@.len() ==> r == Err::<(), Cause>(Cause::StoreAccessFault)
                && final(self)@ == old(self)@,
    {
        if addr < self.mem.len() as u64 {
            self.mem.set(addr as usize, v);
            Ok(())
        } else {
            Err(Cause::StoreAccessFault)
        }
    }

    pub fn store16(&mut self, addr: u64, v: u16) -> (r: Result<(), Cause>)
        ensures
            addr + 2 <= old(self)@.len() ==> r == Ok::<(), Cause>(())
                && final(self)@ == mem_store16(old(self)@, addr as int, v),
            addr + 2 > old(self)@.len() ==> r == Err::<(), Cause>(Cause::StoreAccessFault)
                && final(self)@ == old(self)@,
    {
        if addr < self.mem.len() as u64 && self.mem.len() as u64 - addr >= 2 {
            self.mem.set(addr as usize, (v % 256) as u8);
            self.mem.set(addr as usize + 1, (v / 256) as u8);
            Ok(())
        } else {
            Err(Cause::StoreAccessFault)
        }
    }

    pub fn store32(&mut self, addr: u64, v: u32) -> (r: Result<(), Cause>)
        ensures
            addr + 4 <= old(self)@.len() ==> r == Ok::<(), Cause>(())
                && final(self)@ == mem_store32(old(self)@, addr as int, v),
            addr + 4 > old(self)@.len() ==> r == Err::<(), Cause>(Cause::StoreAccessFault)
                && final(self)@ == old(self)@,
    {
        if addr < self.mem.len() as u64 && self.mem.len() as u64 - addr >= 4 {
            let r1 = self.store16(addr, (v % 0x1_0000) as u16);
            let r2 = self.store16(addr + 2, (v / 0x1_0000) as u16);
            Ok(())
        } else {
            Err(Cause::StoreAccessFault)
        }
    }
}

} // verus!
