use vstd::prelude::*;

verus! {

/// The five interrupt sources, in priority order.
#[derive(Copy, Clone, Debug, Eq, PartialEq, Structural)]
pub enum InterruptId {
    VBlankInt,
    StatInt,
    TimerInt,
    SerialInt,
    JoypadInt,
}

#[derive(Copy, Clone, Debug, Eq, PartialEq, Structural)]
pub enum InterruptState {
    Active,
    Inactive,
    Enabled,
    Requested,
}

/// The one-hot bit of a source in IE and IF.
#[derive(Copy, Clone, Debug, Eq, PartialEq, Structural)]
pub struct InterruptMask(pub u8);

/// The IE (enable) and IF (request) bytes.
pub struct InterruptHandler {
    pub flag: u8,
    pub enable: u8,
}

pub const IE_ADDRESS: usize = 0xFFFF;

pub const IF_ADDRESS: usize = 0xFF0F;

impl InterruptId {
    /// 0 for VBlank up to 4 for Joypad; lower is more urgent.
    pub open spec fn priority(self) -> nat {
        match self {
            InterruptId::VBlankInt => 0,
            InterruptId::StatInt => 1,
            InterruptId::TimerInt => 2,
            InterruptId::SerialInt => 3,
            InterruptId::JoypadInt => 4,
        }
    }

    pub open spec fn from_priority(p: nat) -> InterruptId {
        if p == 0 {
            InterruptId::VBlankInt
        } else if p == 1 {
            InterruptId::StatInt
        } else if p == 2 {
            InterruptId::TimerInt
        } else if p == 3 {
            InterruptId::SerialInt
        } else {
            InterruptId::JoypadInt
        }
    }

    /// 0x01, 0x02, 0x04, 0x08, 0x10.
    pub open spec fn bit(self) -> u8 {
        match self {
            InterruptId::VBlankInt => 0x01,
            InterruptId::StatInt => 0x02,
            InterruptId::TimerInt => 0x04,
            InterruptId::SerialInt => 0x08,
            InterruptId::JoypadInt => 0x10,
        }
    }

    /// 0x40, 0x48, 0x50, 0x58, 0x60.
    pub open spec fn vector_spec(self) -> u16 {
        (0x40 + 8 * self.priority()) as u16
    }

    pub fn vector(&self) -> (r: u16)
        ensures
            r == self.vector_spec(),
    {
        match self {
            InterruptId::VBlankInt => 0x40,
            InterruptId::StatInt => 0x48,
            InterruptId::TimerInt => 0x50,
            InterruptId::SerialInt => 0x58,
            InterruptId::JoypadInt => 0x60,
        }
    }

    pub fn from_index(i: usize) -> (r: InterruptId)
        requires
            i < 5,
        ensures
            r == InterruptId::from_priority(i as nat),
            r.priority() == i,
    {
        if i == 0 {
            InterruptId::VBlankInt
        } else if i == 1 {
            InterruptId::StatInt
        } else if i == 2 {
            InterruptId::TimerInt
        } else if i == 3 {
            InterruptId::SerialInt
        } else {
            InterruptId::JoypadInt
        }
    }
}

/// Every source's priority maps back to it.
pub proof fn lemma_priority_round_trip(id: InterruptId)
    ensures
        InterruptId::from_priority(id.priority()) == id,
        id.priority() < 5,
{
}

/// The OR of the bits of `ids`.
pub open spec fn mask_of(ids: Seq<InterruptId>) -> u8
    decreases ids.len(),
{
    if ids.len() == 0 {
        0
    } else {
        mask_of(ids.drop_last()) | ids.last().bit()
    }
}

impl InterruptHandler {
    pub open spec fn enabled(&self, id: InterruptId) -> bool {
        self.enable & id.bit() != 0
    }

    pub open spec fn requested(&self, id: InterruptId) -> bool {
        self.flag & id.bit() != 0
    }

    pub open spec fn active(&self, id: InterruptId) -> bool {
        self.enabled(id) && self.requested(id)
    }

    pub open spec fn state_spec(&self, id: InterruptId) -> InterruptState {
        if self.active(id) {
            InterruptState::Active
        } else if self.enabled(id) {
            InterruptState::Enabled
        } else if self.requested(id) {
            InterruptState::Requested
        } else {
            InterruptState::Inactive
        }
    }

    /// Some source of priority below `p` is active.
    pub open spec fn active_before(&self, p: nat) -> bool {
        exists|q: nat| q < p && #[trigger] self.active(InterruptId::from_priority(q))
    }

    /// The most urgent active source, if any.
    pub open spec fn first_active(&self) -> Option<InterruptId> {
        if self.active(InterruptId::VBlankInt) {
            Some(InterruptId::VBlankInt)
        } else if self.active(InterruptId::StatInt) {
            Some(InterruptId::StatInt)
        } else if self.active(InterruptId::TimerInt) {
            Some(InterruptId::TimerInt)
        } else if self.active(InterruptId::SerialInt) {
            Some(InterruptId::SerialInt)
        } else if self.active(InterruptId::JoypadInt) {
            Some(InterruptId::JoypadInt)
        } else {
            None
        }
    }

    /// The byte that a read at `address` returns: IE or IF with bits 5 to 7 set.
    pub open spec fn read_spec(&self, address: usize) -> Option<u8> {
        if address == IE_ADDRESS {
            Some(self.enable | 0xE0)
        } else if address == IF_ADDRESS {
            Some(self.flag | 0xE0)
        } else {
            None
        }
    }

    pub fn new() -> (r: InterruptHandler)
        ensures
            r.flag == 0,
            r.enable == 0,
    {
        InterruptHandler { flag: 0x00, enable: 0x00 }
    }

    pub fn index(&self, id: InterruptId) -> (r: InterruptMask)
        ensures
            r.0 == id.bit(),
    {
        match id {
            InterruptId::VBlankInt => InterruptMask(0x01),
            InterruptId::StatInt => InterruptMask(0x02),
            InterruptId::TimerInt => InterruptMask(0x04),
            InterruptId::SerialInt => InterruptMask(0x08),
            InterruptId::JoypadInt => InterruptMask(0x10),
        }
    }

    fn calc_state(&self, interrupt: InterruptId) -> (r: InterruptState)
        ensures
            r == self.state_spec(interrupt),
    {
        let mask = self.index(interrupt).0;
        let enabled = self.enable & mask != 0;
        let requested = self.flag & mask != 0;
        if requested && enabled {
            InterruptState::Active
        } else if enabled {
            InterruptState::Enabled
        } else if requested {
            InterruptState::Requested
        } else {
            InterruptState::Inactive
        }
    }

    /// The state of one source: Active when both enabled and requested.
    pub fn state(&self, interrupt: InterruptId) -> (r: InterruptState)
        ensures
            r == self.state_spec(interrupt),
    {
        self.calc_state(interrupt)
    }

    /// The state of `interrupt` on its own: Active when both enabled and requested.
    pub fn get_state(&self, interrupt: InterruptId) -> (r: InterruptState)
        ensures
            r == self.state_spec(interrupt),
    {
        self.calc_state(interrupt)
    }

    /// The most urgent active source, or `interrupt` itself when none is active.
    pub fn pending_priority(&self, interrupt: InterruptId) -> (r: InterruptId)
        ensures
            self.first_active() is Some ==> r == self.first_active()->0,
            self.first_active() is None ==> r == interrupt,
    {
        let mut i: usize = 0;
        while i < 5
            invariant
                i <= 5,
                forall|q: nat| q < i ==> !#[trigger] self.active(InterruptId::from_priority(q)),
            decreases 5 - i,
        {
            let id = InterruptId::from_index(i);
            if self.calc_state(id) == InterruptState::Active {
                proof {
                    if i > 0 {
                        assert(!self.active(InterruptId::from_priority(0)));
                    }
                    if i > 1 {
                        assert(!self.active(InterruptId::from_priority(1)));
                    }
                    if i > 2 {
                        assert(!self.active(InterruptId::from_priority(2)));
                    }
                    if i > 3 {
                        assert(!self.active(InterruptId::from_priority(3)));
                    }
                }
                return id;
            }
            i = i + 1;
        }
        proof {
            assert(!self.active(InterruptId::from_priority(0)));
            assert(!self.active(InterruptId::from_priority(1)));
            assert(!self.active(InterruptId::from_priority(2)));
            assert(!self.active(InterruptId::from_priority(3)));
            assert(!self.active(InterruptId::from_priority(4)));
        }
        interrupt
    }

    /// Raises (`set`) or drops each listed request in IF; IE is untouched.
    pub fn set(&mut self, interrupts: Vec<InterruptId>, set: bool)
        ensures
            final(self).enable == old(self).enable,
            set ==> final(self).flag == old(self).flag | mask_of(interrupts@),
            !set ==> final(self).flag == old(self).flag & !mask_of(interrupts@),
    {
        let mut i: usize = 0;
        proof {
            let o = self.flag;
            assert(interrupts@.subrange(0, 0) =~= Seq::<InterruptId>::empty());
            assert(o | 0 == o && o & !0u8 == o) by (bit_vector);
        }
        while i < interrupts.len()
            invariant
                i <= interrupts@.len(),
                self.enable == old(self).enable,
                set ==> self.flag == old(self).flag | mask_of(interrupts@.subrange(0, i as int)),
                !set ==> self.flag == old(self).flag & !mask_of(
                    interrupts@.subrange(0, i as int),
                ),
            decreases interrupts@.len() - i,
        {
            let m = self.index(interrupts[i]).0;
            let ghost before = mask_of(interrupts@.subrange(0, i as int));
            proof {
                let s = interrupts@.subrange(0, i as int + 1);
                assert(s.drop_last() =~= interrupts@.subrange(0, i as int));
                assert(mask_of(s) == before | m);
                let o = old(self).flag;
                assert((o | before) | m == o | (before | m)) by (bit_vector);
                assert((o & !before) & !m == o & !(before | m)) by (bit_vector);
            }
            if set {
                self.flag = self.flag | m;
            } else {
                self.flag = self.flag & !m;
            }
            i = i + 1;
        }
        proof {
            assert(interrupts@.subrange(0, interrupts@.len() as int) =~= interrupts@);
        }
    }

    /// Raises one request in IF.
    pub fn request(&mut self, interrupt: InterruptId)
        ensures
            final(self).enable == old(self).enable,
            final(self).flag == old(self).flag | interrupt.bit(),
    {
        let m = self.index(interrupt).0;
        self.flag = self.flag | m;
    }

    /// Drops one request in IF.
    pub fn clear(&mut self, interrupt: InterruptId)
        ensures
            final(self).enable == old(self).enable,
            final(self).flag == old(self).flag & !interrupt.bit(),
    {
        let m = self.index(interrupt).0;
        self.flag = self.flag & !m;
    }

    pub fn read(&self, address: usize) -> (r: Option<u8>)
        ensures
            r == self.read_spec(address),
    {
        if address == IE_ADDRESS {
            Some(self.enable | 0xE0)
        } else if address == IF_ADDRESS {
            Some(self.flag | 0xE0)
        } else {
            None
        }
    }

    /// Stores `value | 0xE0` in IE or IF and answers true; any other address is
    /// refused with false and nothing changes.
    pub fn write(&mut self, address: usize, value: u8) -> (r: bool)
        ensures
            r == (address == IE_ADDRESS || address == IF_ADDRESS),
            address == IE_ADDRESS ==> final(self).enable == value | 0xE0 && final(self).flag == old(
                self,
            ).flag,
            address == IF_ADDRESS ==> final(self).flag == value | 0xE0 && final(self).enable == old(
                self,
            ).enable,
            !r ==> final(self).flag == old(self).flag && final(self).enable == old(self).enable,
    {
        if address == IE_ADDRESS {
            self.enable = value | 0xE0;
            true
        } else if address == IF_ADDRESS {
            self.flag = value | 0xE0;
            true
        } else {
            false
        }
    }
}

/// Reading IE or IF always yields a byte with bits 5 to 7 set.
pub proof fn lemma_read_high_bits_set(h: &InterruptHandler, address: usize)
    requires
        address == IE_ADDRESS || address == IF_ADDRESS,
    ensures
        h.read_spec(address) is Some,
        h.read_spec(address)->0 & 0xE0 == 0xE0,
{
    let e = h.enable;
    let f = h.flag;
    assert((e | 0xE0) & 0xE0 == 0xE0 && (f | 0xE0) & 0xE0 == 0xE0) by (bit_vector);
}

} // verus!
