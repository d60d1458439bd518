use vstd::prelude::*;

verus! {

/// Whether bit `i` (0 is the lowest) of `v` is set.
pub open spec fn bit_set(v: u8, i: u8) -> bool {
    (v >> i) & 1u8 == 1u8
}

/// The VRAM address step selected by byte `v`: 32 when bit 2 is set, else 1.
pub open spec fn vram_increment_of(v: u8) -> u8 {
    if bit_set(v, 2) {
        32
    } else {
        1
    }
}

/// The background pattern table selected by byte `v`: 0x1000 when bit 4 is set, else 0.
pub open spec fn background_pattern_of(v: u8) -> u16 {
    if bit_set(v, 4) {
        0x1000
    } else {
        0
    }
}

/// The sprite pattern table selected by byte `v`: 0x1000 when bit 3 is set, else 0.
pub open spec fn sprite_pattern_of(v: u8) -> u16 {
    if bit_set(v, 3) {
        0x1000
    } else {
        0
    }
}

/// The byte-wide control register. Every one of the 256 values is a legal state.
///
/// Bit layout, lowest first: nametable select (two bits), VRAM address
/// increment, sprite pattern table, background pattern table, sprite size,
/// master/slave select, NMI on vertical blank.
pub struct ControlRegister {
    bits: u8,
}

impl View for ControlRegister {
    type V = u8;

    /// The register is exactly the byte last written to it.
    closed spec fn view(&self) -> u8 {
        self.bits
    }
}

impl ControlRegister {
    pub const NAME_TABLE_1: u8 = 0b0000_0001;
    pub const NAME_TABLE_2: u8 = 0b0000_0010;
    pub const VRAM_ADD_INCREMENT: u8 = 0b0000_0100;
    pub const SPRITE_PATTERN_ADDR: u8 = 0b0000_1000;
    pub const BG_PATTERN_ADDR: u8 = 0b0001_0000;
    pub const SPRITE_SIZE: u8 = 0b0010_0000;
    pub const MASTER_SLAVE_SELECT: u8 = 0b0100_0000;
    pub const GENERATE_NMI: u8 = 0b1000_0000;

    /// The register as it stands after `update(data)`, whatever it held before.
    pub closed spec fn updated(self, data: u8) -> ControlRegister {
        ControlRegister { bits: data }
    }

    /// The power-on state: all bits clear.
    pub fn new() -> (r: ControlRegister)
        ensures
            r@ == 0,
    {
        ControlRegister { bits: 0 }
    }

    /// Overwrites the whole register with `data`.
    pub fn update(&mut self, data: u8)
        ensures
            *final(self) == old(self).updated(data),
            final(self)@ == data,
    {
        self.bits = data;
    }

    /// The byte the register holds.
    pub fn bits(&self) -> (r: u8)
        ensures
            r == self@,
    {
        self.bits
    }

    /// Whether every bit of `mask` is set in the register.
    fn contains(&self, mask: u8) -> (r: bool)
        ensures
            r == (self@ & mask == mask),
    {
        self.bits & mask == mask
    }

    /// How far the VRAM address advances per data port access.
    pub fn get_vram_addr_increment(&self) -> (r: u8)
        ensures
            r == vram_increment_of(self@),
    {
        let v = self.bits;
        assert((v & 0b0000_0100u8 == 0b0000_0100u8) == bit_set(v, 2)) by (bit_vector);
        if self.contains(Self::VRAM_ADD_INCREMENT) {
            32
        } else {
            1
        }
    }

    /// Whether an NMI is raised at the start of vertical blank.
    pub fn should_generate_vblank_nmi(&self) -> (r: bool)
        ensures
            r == bit_set(self@, 7),
    {
        let v = self.bits;
        assert((v & 0b1000_0000u8 == 0b1000_0000u8) == bit_set(v, 7)) by (bit_vector);
        self.contains(Self::GENERATE_NMI)
    }

    /// The pattern table the background tiles are fetched from.
    pub fn background_pattern_address(&self) -> (r: u16)
        ensures
            r == background_pattern_of(self@),
    {
        let v = self.bits;
        assert((v & 0b0001_0000u8 == 0b0001_0000u8) == bit_set(v, 4)) by (bit_vector);
        if self.contains(Self::BG_PATTERN_ADDR) {
            0x1000
        } else {
            0
        }
    }

    /// The pattern table the sprite tiles are fetched from.
    pub fn sprite_pattern_address(&self) -> (r: u16)
        ensures
            r == sprite_pattern_of(self@),
    {
        let v = self.bits;
        assert((v & 0b0000_1000u8 == 0b0000_1000u8) == bit_set(v, 3)) by (bit_vector);
        if self.contains(Self::SPRITE_PATTERN_ADDR) {
            0x1000
        } else {
            0
        }
    }
}

impl Default for ControlRegister {
    /// The power-on state, as `new` gives it.
    fn default() -> (r: ControlRegister)
        ensures
            r@ == 0,
    {
        ControlRegister::new()
    }
}

/// Writing `a` and then `b` leaves the register as writing `b` alone does:
/// a write overwrites, it does not merge.
pub proof fn lemma_update_overwrites(r: ControlRegister, a: u8, b: u8)
    ensures
        r.updated(a).updated(b) == r.updated(b),
        r.updated(a).updated(b)@ == b,
{
}

/// Bit 2 alone selects the VRAM address step: 1 with it clear and 32 with it
/// set, whatever the other seven bits hold.
pub proof fn lemma_vram_increment_by_bit_two(v: u8)
    ensures
        vram_increment_of(v & !ControlRegister::VRAM_ADD_INCREMENT) == 1,
        vram_increment_of(v | ControlRegister::VRAM_ADD_INCREMENT) == 32,
{
    assert(!bit_set(v & !0b0000_0100u8, 2) && bit_set(v | 0b0000_0100u8, 2)) by (bit_vector);
}

/// Bit 4 alone selects the background pattern table: 0 with it clear and
/// 0x1000 with it set, whatever the other seven bits hold.
pub proof fn lemma_background_pattern_by_bit_four(v: u8)
    ensures
        background_pattern_of(v & !ControlRegister::BG_PATTERN_ADDR) == 0,
        background_pattern_of(v | ControlRegister::BG_PATTERN_ADDR) == 0x1000,
{
    assert(!bit_set(v & !0b0001_0000u8, 4) && bit_set(v | 0b0001_0000u8, 4)) by (bit_vector);
}

/// Bit 3 alone selects the sprite pattern table: 0 with it clear and 0x1000
/// with it set, whatever the other seven bits hold.
pub proof fn lemma_sprite_pattern_by_bit_three(v: u8)
    ensures
        sprite_pattern_of(v & !ControlRegister::SPRITE_PATTERN_ADDR) == 0,
        sprite_pattern_of(v | ControlRegister::SPRITE_PATTERN_ADDR) == 0x1000,
{
    assert(!bit_set(v & !0b0000_1000u8, 3) && bit_set(v | 0b0000_1000u8, 3)) by (bit_vector);
}

} // verus!
