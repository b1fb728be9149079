use crate::interrupt::{InterruptHandler, InterruptId, IE_ADDRESS, IF_ADDRESS};
use vstd::prelude::*;

verus! {

/// What the core sees of the address space: 64 KiB of bytes, with IE and IF
/// answered by the interrupt controller.
pub struct BusModel {
    pub mem: Seq<u8>,
    pub enable: u8,
    pub flag: u8,
}

impl BusModel {
    pub open spec fn wf(self) -> bool {
        self.mem.len() == 0x10000
    }

    pub open spec fn handler(self) -> InterruptHandler {
        InterruptHandler { flag: self.flag, enable: self.enable }
    }

    /// The byte read at `addr`; IE and IF read with bits 5 to 7 set.
    pub open spec fn read(self, addr: u16) -> u8 {
        if addr == 0xFFFF {
            self.enable | 0xE0
        } else if addr == 0xFF0F {
            self.flag | 0xE0
        } else {
            self.mem[addr as int]
        }
    }

    /// The bus after a write of `v` at `addr`; IE and IF store `v | 0xE0`.
    pub open spec fn write(self, addr: u16, v: u8) -> BusModel {
        if addr == 0xFFFF {
            BusModel { enable: v | 0xE0, ..self }
        } else if addr == 0xFF0F {
            BusModel { flag: v | 0xE0, ..self }
        } else {
            BusModel { mem: self.mem.update(addr as int, v), ..self }
        }
    }
}

/// The memory bus: plain memory plus the interrupt controller it owns.
pub struct Bus {
    mem: Vec<u8>,
    interrupt: InterruptHandler,
}

impl View for Bus {
    type V = BusModel;

    closed spec fn view(&self) -> BusModel {
        BusModel { mem: self.mem@, enable: self.interrupt.enable, flag: self.interrupt.flag }
    }
}

impl Bus {
    /// A bus whose memory, IE and IF are all zero.
    pub fn new() -> (r: Bus)
        ensures
            r@.wf(),
            r@.mem == Seq::new(0x10000, |i: int| 0u8),
            r@.enable == 0,
            r@.flag == 0,
    {
        let mut mem: Vec<u8> = Vec::new();
        let mut i: usize = 0;
        while i < 0x10000
            invariant
                i <= 0x10000,
                mem@.len() == i,
                forall|j: int| 0 <= j < i ==> mem@[j] == 0u8,
            decreases 0x10000 - i,
        {
            mem.push(0);
            i = i + 1;
        }
        let r = Bus { mem, interrupt: InterruptHandler::new() };
        assert(r@.mem =~= Seq::new(0x10000, |i: int| 0u8));
        r
    }

    /// The interrupt controller behind IE and IF.
    pub fn interrupts(&self) -> (r: &InterruptHandler)
        ensures
            r.enable == self@.enable,
            r.flag == self@.flag,
    {
        &self.interrupt
    }

    /// Raises one request in IF, as a peripheral does.
    pub fn request_interrupt(&mut self, id: InterruptId)
        ensures
            final(self)@ == (BusModel { flag: old(self)@.flag | id.bit(), ..old(self)@ }),
    {
        self.interrupt.request(id);
    }

    /// Drops one request in IF.
    pub fn clear_interrupt(&mut self, id: InterruptId)
        ensures
            final(self)@ == (BusModel { flag: old(self)@.flag & !id.bit(), ..old(self)@ }),
    {
        self.interrupt.clear(id);
    }

    pub fn read8(&self, addr: u16) -> (r: u8)
        requires
            self@.wf(),
        ensures
            r == self@.read(addr),
    {
        match self.interrupt.read(addr as usize) {
            Some(v) => v,
            None => self.mem[addr as usize],
        }
    }

    pub fn write8(&mut self, addr: u16, v: u8)
        requires
            old(self)@.wf(),
        ensures
            final(self)@.wf(),
            final(self)@ == old(self)@.write(addr, v),
    {
        if !self.interrupt.write(addr as usize, v) {
            self.mem.set(addr as usize, v);
        }
        proof {
            assert(IE_ADDRESS == 0xFFFF && IF_ADDRESS == 0xFF0F);
            if addr != 0xFFFF && addr != 0xFF0F {
                assert(self@.mem =~= old(self)@.mem.update(addr as int, v));
            }
        }
    }
}

} // verus!
