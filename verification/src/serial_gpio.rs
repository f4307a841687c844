//! General-purpose serial mode: pin directions and pin levels.
//!
//! The types here hold in-memory images of the link-control register bits
//! that general-purpose mode uses; moving an image to or from the real
//! register is the hardware-binding layer's concern, so every bit
//! manipulation below is plain, verified arithmetic.

use vstd::prelude::*;

verus! {

/// Whether bit `bit` of `v` is set.
pub open spec fn spec_bit_u8(v: u8, bit: u8) -> bool {
    (v >> bit) & 1 == 1
}

/// Whether bit `bit` of `v` is set.
pub open spec fn spec_bit_u16(v: u16, bit: u16) -> bool {
    (v >> bit) & 1 == 1
}

/// `v` with bit `bit` forced to `val`.
pub open spec fn spec_write_bit_u8(v: u8, bit: u8, val: bool) -> u8 {
    if val {
        v | (1u8 << bit)
    } else {
        v & !(1u8 << bit)
    }
}

/// Writing one bit sets exactly that bit and leaves the rest alone.
pub proof fn lemma_write_bit_u8(v: u8, bit: u8, val: bool)
    by (bit_vector)
    requires
        bit < 8,
    ensures
        forall|b2: u8|
            b2 < 8 ==> spec_bit_u8(spec_write_bit_u8(v, bit, val), b2) == (if b2 == bit {
                val
            } else {
                spec_bit_u8(v, b2)
            }),
{
}

/// Whether bit `bit` of `v` is set.
fn read_bit_u8(v: u8, bit: u8) -> (r: bool)
    requires
        bit < 8,
    ensures
        r == spec_bit_u8(v, bit),
{
    (v >> bit) & 1 == 1
}

/// `v` with bit `bit` forced to `val`.
fn write_bit_u8(v: u8, bit: u8, val: bool) -> (r: u8)
    requires
        bit < 8,
    ensures
        r == spec_write_bit_u8(v, bit, val),
{
    if val {
        v | (1u8 << bit)
    } else {
        v & !(1u8 << bit)
    }
}

/// The direction of one general-purpose pin.
#[derive(Clone, Copy, PartialEq, Eq, Structural, Debug, Hash)]
pub enum GpioDirection {
    Input,
    Output,
}

impl GpioDirection {
    pub fn from_is_output(is_output: bool) -> (r: Self)
        ensures
            r == (if is_output {
                GpioDirection::Output
            } else {
                GpioDirection::Input
            }),
    {
        if is_output {
            GpioDirection::Output
        } else {
            GpioDirection::Input
        }
    }

    pub fn is_output(&self) -> (r: bool)
        ensures
            r == (*self == GpioDirection::Output),
    {
        match self {
            GpioDirection::Output => true,
            GpioDirection::Input => false,
        }
    }

    pub fn is_input(&self) -> (r: bool)
        ensures
            r == (*self == GpioDirection::Input),
    {
        !self.is_output()
    }
}

impl Default for GpioDirection {
    /// Pins start as inputs.
    fn default() -> (r: Self)
        ensures
            r == GpioDirection::Input,
    {
        GpioDirection::Input
    }
}

/// The direction bit a pin direction stands for.
pub open spec fn spec_dir_bit(d: GpioDirection) -> u16 {
    match d {
        GpioDirection::Input => 0,
        GpioDirection::Output => 1,
    }
}

/// The four pin directions of general-purpose mode, as the register holds
/// them in bits four to seven.
#[derive(Clone, Copy, PartialEq, Eq, Structural, Debug, Hash)]
pub struct GpioConfig {
    pub sc: GpioDirection,
    pub sd: GpioDirection,
    pub si: GpioDirection,
    pub so: GpioDirection,
}

impl Default for GpioConfig {
    /// All four pins as inputs.
    fn default() -> (r: Self)
        ensures
            r.sc == GpioDirection::Input,
            r.sd == GpioDirection::Input,
            r.si == GpioDirection::Input,
            r.so == GpioDirection::Input,
    {
        Self {
            sc: GpioDirection::Input,
            sd: GpioDirection::Input,
            si: GpioDirection::Input,
            so: GpioDirection::Input,
        }
    }
}

/// The bits-four-to-seven image of a pin-direction configuration.
pub open spec fn spec_config_bits(cfg: GpioConfig) -> u16 {
    (spec_dir_bit(cfg.sc) << 4u16) | (spec_dir_bit(cfg.sd) << 5u16) | (spec_dir_bit(cfg.si)
        << 6u16) | (spec_dir_bit(cfg.so) << 7u16)
}

impl GpioConfig {
    /// The configuration stored in bits four to seven of a register value.
    fn from_rcnt(value: u16) -> (r: Self)
        ensures
            (r.sc == GpioDirection::Output) == spec_bit_u16(value, 4),
            (r.sd == GpioDirection::Output) == spec_bit_u16(value, 5),
            (r.si == GpioDirection::Output) == spec_bit_u16(value, 6),
            (r.so == GpioDirection::Output) == spec_bit_u16(value, 7),
    {
        proof {
            assert(((value & (1u16 << 4u16)) != 0) == ((value >> 4u16) & 1 == 1) && ((value & (1u16
                << 5u16)) != 0) == ((value >> 5u16) & 1 == 1) && ((value & (1u16 << 6u16)) != 0)
                == ((value >> 6u16) & 1 == 1) && ((value & (1u16 << 7u16)) != 0) == ((value
                >> 7u16) & 1 == 1)) by (bit_vector);
        }
        Self {
            sc: GpioDirection::from_is_output((value & (1u16 << 4u16)) != 0),
            sd: GpioDirection::from_is_output((value & (1u16 << 5u16)) != 0),
            si: GpioDirection::from_is_output((value & (1u16 << 6u16)) != 0),
            so: GpioDirection::from_is_output((value & (1u16 << 7u16)) != 0),
        }
    }

    /// The register image of this configuration.
    fn into_rcnt(&self) -> (r: u16)
        ensures
            r == spec_config_bits(*self),
    {
        let sc: u16 = if self.sc.is_output() {
            1
        } else {
            0
        };
        let sd: u16 = if self.sd.is_output() {
            1
        } else {
            0
        };
        let si: u16 = if self.si.is_output() {
            1
        } else {
            0
        };
        let so: u16 = if self.so.is_output() {
            1
        } else {
            0
        };
        (sc << 4u16) | (sd << 5u16) | (si << 6u16) | (so << 7u16)
    }
}

/// The general-purpose-mode view of the link-control register: an
/// in-memory image whose mode bits select general-purpose mode. The
/// binding layer moves the image to and from the hardware with `read` and
/// `write`.
pub struct GeneralPurpose {
    rcnt: u16,
}

impl GeneralPurpose {
    /// The current register image.
    pub closed spec fn value(self) -> u16 {
        self.rcnt
    }

    /// A cleared image with the mode bits (fifteen set, fourteen clear)
    /// selecting general-purpose mode.
    pub fn new() -> (r: Self)
        ensures
            r.value() == 0x8000u16,
    {
        Self { rcnt: 0x8000 }
    }

    /// The register image, for the binding layer to commit.
    pub fn read(&self) -> (r: u16)
        ensures
            r == self.value(),
    {
        self.rcnt
    }

    /// Replaces the register image, for the binding layer to load what the
    /// hardware holds.
    pub fn write(&mut self, v: u16)
        ensures
            final(self).value() == v,
    {
        self.rcnt = v;
    }

    /// The four pin directions held in bits four to seven.
    pub fn gpio_config(&self) -> (r: GpioConfig)
        ensures
            (r.sc == GpioDirection::Output) == spec_bit_u16(self.value(), 4),
            (r.sd == GpioDirection::Output) == spec_bit_u16(self.value(), 5),
            (r.si == GpioDirection::Output) == spec_bit_u16(self.value(), 6),
            (r.so == GpioDirection::Output) == spec_bit_u16(self.value(), 7),
    {
        GpioConfig::from_rcnt(self.rcnt)
    }

    /// Replaces bits four to seven with the given pin directions, leaving
    /// every other bit alone.
    pub fn set_gpio_config(&mut self, cfg: GpioConfig)
        ensures
            final(self).value() == (old(self).value() & !0x00f0u16) | spec_config_bits(cfg),
    {
        let old_val = self.rcnt;
        let masked = old_val & !0x00f0u16;
        self.rcnt = masked | cfg.into_rcnt();
    }

    /// Whether the interrupt-enable bit (bit eight) is set.
    pub fn interupt_enabled(&self) -> (r: bool)
        ensures
            r == spec_bit_u16(self.value(), 8),
    {
        proof {
            let v = self.rcnt;
            assert(((v & 0x0100u16) != 0) == ((v >> 8u16) & 1 == 1)) by (bit_vector);
        }
        (self.rcnt & 0x0100u16) != 0
    }

    /// Forces the interrupt-enable bit (bit eight), leaving every other
    /// bit alone.
    pub fn set_interrupt(&mut self, interupt: bool)
        ensures
            final(self).value() == (if interupt {
                old(self).value() | 0x0100u16
            } else {
                old(self).value() & !0x0100u16
            }),
    {
        if interupt {
            self.rcnt = self.rcnt | 0x0100u16;
        } else {
            self.rcnt = self.rcnt & !0x0100u16;
        }
    }
}

/// The four general-purpose pin levels, packed in the low four bits as the
/// register holds them.
#[derive(Clone, Copy, PartialEq, Eq, Structural, Debug, Hash)]
pub struct PinState {
    pub state: u8,
}

impl Default for PinState {
    /// All four pins low.
    fn default() -> (r: Self)
        ensures
            r.state == 0,
    {
        Self { state: 0 }
    }
}

impl PinState {
    pub open spec fn spec_sc(self) -> bool {
        spec_bit_u8(self.state, 0)
    }

    pub open spec fn spec_sd(self) -> bool {
        spec_bit_u8(self.state, 1)
    }

    pub open spec fn spec_si(self) -> bool {
        spec_bit_u8(self.state, 2)
    }

    pub open spec fn spec_so(self) -> bool {
        spec_bit_u8(self.state, 3)
    }

    /// The pin levels packed from four flags.
    pub fn new(sc_high: bool, sd_high: bool, si_high: bool, so_high: bool) -> (r: Self)
        ensures
            r.spec_sc() == sc_high,
            r.spec_sd() == sd_high,
            r.spec_si() == si_high,
            r.spec_so() == so_high,
            r.state == spec_write_bit_u8(
                spec_write_bit_u8(
                    spec_write_bit_u8(spec_write_bit_u8(0, 0, sc_high), 1, sd_high),
                    2,
                    si_high,
                ),
                3,
                so_high,
            ),
            r.state < 0x10,
    {
        let retvl = Self { state: 0 };
        proof {
            assert(!spec_bit_u8(0u8, 0) && !spec_bit_u8(0u8, 1) && !spec_bit_u8(0u8, 2)
                && !spec_bit_u8(0u8, 3)) by (bit_vector);
            assert(spec_write_bit_u8(
                spec_write_bit_u8(
                    spec_write_bit_u8(spec_write_bit_u8(0, 0, sc_high), 1, sd_high),
                    2,
                    si_high,
                ),
                3,
                so_high,
            ) < 0x10) by (bit_vector);
        }
        retvl.with_sc(sc_high).with_sd(sd_high).with_si(si_high).with_so(so_high)
    }

    /// The pin levels held in the low four bits of a register value.
    pub fn from_rcnt(rcnt: u16) -> (r: Self)
        ensures
            r.state == rcnt & 0xf,
    {
        proof {
            assert((rcnt & 0xf) < 256) by (bit_vector);
        }
        Self { state: (rcnt & 0xf) as u8 }
    }

    pub fn sc(&self) -> (r: bool)
        ensures
            r == self.spec_sc(),
    {
        read_bit_u8(self.state, 0)
    }

    pub fn set_sc(&mut self, value: bool)
        ensures
            final(self).state == spec_write_bit_u8(old(self).state, 0, value),
            final(self).spec_sc() == value,
            final(self).spec_sd() == old(self).spec_sd(),
            final(self).spec_si() == old(self).spec_si(),
            final(self).spec_so() == old(self).spec_so(),
    {
        proof {
            lemma_write_bit_u8(self.state, 0, value);
        }
        self.state = write_bit_u8(self.state, 0, value);
    }

    pub fn with_sc(self, value: bool) -> (r: Self)
        ensures
            r.state == spec_write_bit_u8(self.state, 0, value),
            r.spec_sc() == value,
            r.spec_sd() == self.spec_sd(),
            r.spec_si() == self.spec_si(),
            r.spec_so() == self.spec_so(),
    {
        proof {
            lemma_write_bit_u8(self.state, 0, value);
        }
        Self { state: write_bit_u8(self.state, 0, value) }
    }

    pub fn sd(&self) -> (r: bool)
        ensures
            r == self.spec_sd(),
    {
        read_bit_u8(self.state, 1)
    }

    pub fn set_sd(&mut self, value: bool)
        ensures
            final(self).state == spec_write_bit_u8(old(self).state, 1, value),
            final(self).spec_sd() == value,
            final(self).spec_sc() == old(self).spec_sc(),
            final(self).spec_si() == old(self).spec_si(),
            final(self).spec_so() == old(self).spec_so(),
    {
        proof {
            lemma_write_bit_u8(self.state, 1, value);
        }
        self.state = write_bit_u8(self.state, 1, value);
    }

    pub fn with_sd(self, value: bool) -> (r: Self)
        ensures
            r.state == spec_write_bit_u8(self.state, 1, value),
            r.spec_sd() == value,
            r.spec_sc() == self.spec_sc(),
            r.spec_si() == self.spec_si(),
            r.spec_so() == self.spec_so(),
    {
        proof {
            lemma_write_bit_u8(self.state, 1, value);
        }
        Self { state: write_bit_u8(self.state, 1, value) }
    }

    pub fn si(&self) -> (r: bool)
        ensures
            r == self.spec_si(),
    {
        read_bit_u8(self.state, 2)
    }

    pub fn set_si(&mut self, value: bool)
        ensures
            final(self).state == spec_write_bit_u8(old(self).state, 2, value),
            final(self).spec_si() == value,
            final(self).spec_sc() == old(self).spec_sc(),
            final(self).spec_sd() == old(self).spec_sd(),
            final(self).spec_so() == old(self).spec_so(),
    {
        proof {
            lemma_write_bit_u8(self.state, 2, value);
        }
        self.state = write_bit_u8(self.state, 2, value);
    }

    pub fn with_si(self, value: bool) -> (r: Self)
        ensures
            r.state == spec_write_bit_u8(self.state, 2, value),
            r.spec_si() == value,
            r.spec_sc() == self.spec_sc(),
            r.spec_sd() == self.spec_sd(),
            r.spec_so() == self.spec_so(),
    {
        proof {
            lemma_write_bit_u8(self.state, 2, value);
        }
        Self { state: write_bit_u8(self.state, 2, value) }
    }

    pub fn so(&self) -> (r: bool)
        ensures
            r == self.spec_so(),
    {
        read_bit_u8(self.state, 3)
    }

    pub fn set_so(&mut self, value: bool)
        ensures
            final(self).state == spec_write_bit_u8(old(self).state, 3, value),
            final(self).spec_so() == value,
            final(self).spec_sc() == old(self).spec_sc(),
            final(self).spec_sd() == old(self).spec_sd(),
            final(self).spec_si() == old(self).spec_si(),
    {
        proof {
            lemma_write_bit_u8(self.state, 3, value);
        }
        self.state = write_bit_u8(self.state, 3, value);
    }

    pub fn with_so(self, value: bool) -> (r: Self)
        ensures
            r.state == spec_write_bit_u8(self.state, 3, value),
            r.spec_so() == value,
            r.spec_sc() == self.spec_sc(),
            r.spec_sd() == self.spec_sd(),
            r.spec_si() == self.spec_si(),
    {
        proof {
            lemma_write_bit_u8(self.state, 3, value);
        }
        Self { state: write_bit_u8(self.state, 3, value) }
    }
}

/// A decoded snapshot of general-purpose mode: the four pin levels and the
/// four pin directions.
pub struct GpioState {
    pub si_high: bool,
    pub so_high: bool,
    pub sc_high: bool,
    pub sd_high: bool,
    pub config: GpioConfig,
}

} // verus!
