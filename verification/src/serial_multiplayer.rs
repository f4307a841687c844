//! Multiplayer serial mode: the control-register layout and the per-player
//! data registers.
//!
//! The control register's multiplayer layout: bits zero and one hold the
//! baud rate, bit two the terminal flag the parent query reads, bit three
//! the all-consoles-ready flag, bits four and five the console's player
//! number, bit six the error flag and bit seven the start/busy flag. The
//! types here hold in-memory images of those registers; moving an image to
//! or from the hardware is the binding layer's concern.

use vstd::prelude::*;
use crate::serial_gpio::spec_bit_u16;

verus! {

/// The sentinel a data register shows while a transfer is still in
/// flight (or before any data arrived).
pub const TRANSFER_SENTINEL: u16 = 0xffff;

/// One console on the link: the parent, or one of three children.
#[derive(Clone, Copy, PartialEq, Eq, Structural, Debug, Hash)]
pub enum PlayerId {
    Parent,
    P1,
    P2,
    P3,
}

impl PlayerId {
    /// The console encoded in the low two bits of `n`.
    pub open spec fn spec_from_bits(n: u16) -> PlayerId {
        let m = n & 0x3;
        if m == 0 {
            PlayerId::Parent
        } else if m == 1 {
            PlayerId::P1
        } else if m == 2 {
            PlayerId::P2
        } else {
            PlayerId::P3
        }
    }

    pub fn from_bits(n: u16) -> (r: PlayerId)
        ensures
            r == PlayerId::spec_from_bits(n),
    {
        let m = n & 0x3;
        assert(n & 0x3 < 4) by (bit_vector);
        if m == 0 {
            PlayerId::Parent
        } else if m == 1 {
            PlayerId::P1
        } else if m == 2 {
            PlayerId::P2
        } else {
            PlayerId::P3
        }
    }
}

impl Default for PlayerId {
    /// The parent console.
    fn default() -> (r: Self)
        ensures
            r == PlayerId::Parent,
    {
        PlayerId::Parent
    }
}

/// What entering multiplayer mode can fail with.
#[derive(Clone, Copy, PartialEq, Eq, Structural, Debug, Hash)]
pub enum InitializationError {
    /// The all-ready bit stayed clear: some console is missing or in the
    /// wrong mode.
    FailedOkayCheck,
}

/// The four transfer rates multiplayer mode offers, in the order of their
/// two-bit codes.
#[derive(Clone, Copy, PartialEq, Eq, Structural, Debug, Hash)]
pub enum BaudRate {
    B9600,
    B38400,
    B57600,
    B115200,
}

/// The two-bit code of a baud rate.
pub open spec fn spec_baud_bits(rate: BaudRate) -> u16 {
    match rate {
        BaudRate::B9600 => 0,
        BaudRate::B38400 => 1,
        BaudRate::B57600 => 2,
        BaudRate::B115200 => 3,
    }
}

/// The baud rate a two-bit code names.
pub open spec fn spec_baud_of_bits(bits: u16) -> BaudRate {
    let m = bits & 0x3;
    if m == 0 {
        BaudRate::B9600
    } else if m == 1 {
        BaudRate::B38400
    } else if m == 2 {
        BaudRate::B57600
    } else {
        BaudRate::B115200
    }
}

/// The multiplayer-mode view of the serial control register: an in-memory
/// image the binding layer synchronises with the hardware through `read`
/// and `write`.
pub struct MultiplayerSiocnt {
    value: u16,
}

impl MultiplayerSiocnt {
    /// The current register image.
    pub closed spec fn value(self) -> u16 {
        self.value
    }

    /// A cleared register image; the binding layer loads the live value
    /// with `write`.
    pub fn new() -> (r: Self)
        ensures
            r.value() == 0,
    {
        Self { value: 0 }
    }

    /// The register image, for the binding layer to commit.
    pub fn read(&self) -> (r: u16)
        ensures
            r == self.value(),
    {
        self.value
    }

    /// Replaces the register image, for the binding layer to load what the
    /// hardware holds.
    pub fn write(&mut self, v: u16)
        ensures
            final(self).value() == v,
    {
        self.value = v;
    }

    /// The transfer rate held in bits zero and one.
    pub fn baud_rate(&self) -> (r: BaudRate)
        ensures
            r == spec_baud_of_bits(self.value()),
    {
        let bits = self.value & 3;
        proof {
            let v = self.value;
            assert(v & 3 < 4) by (bit_vector);
        }
        if bits == 0 {
            BaudRate::B9600
        } else if bits == 1 {
            BaudRate::B38400
        } else if bits == 2 {
            BaudRate::B57600
        } else {
            BaudRate::B115200
        }
    }

    /// Replaces bits zero and one with the given rate's code, leaving
    /// every other bit alone.
    pub fn set_baud_rate(&mut self, rate: BaudRate)
        ensures
            final(self).value() == (old(self).value() & !3u16) | spec_baud_bits(rate),
            spec_baud_of_bits(final(self).value()) == rate,
    {
        let code: u16 = match rate {
            BaudRate::B9600 => 0,
            BaudRate::B38400 => 1,
            BaudRate::B57600 => 2,
            BaudRate::B115200 => 3,
        };
        let old_val = self.value;
        self.value = (old_val & !3u16) | code;
        proof {
            assert(code < 4 ==> ((old_val & !3u16) | code) & 0x3 == code) by (bit_vector);
        }
    }

    /// Whether bit two says this console is the parent.
    pub fn is_parent(&self) -> (r: bool)
        ensures
            r == spec_bit_u16(self.value(), 2),
    {
        self.read_bit(2)
    }

    /// Whether bit three says every console is connected and ready.
    pub fn gbas_ready(&self) -> (r: bool)
        ensures
            r == spec_bit_u16(self.value(), 3),
    {
        self.read_bit(3)
    }

    /// The console number held in bits four and five.
    pub fn id(&self) -> (r: PlayerId)
        ensures
            r == PlayerId::spec_from_bits((self.value() >> 4) & 3),
    {
        let raw = (self.value >> 4u16) & 3;
        PlayerId::from_bits(raw)
    }

    /// Whether bit six flags a transfer error.
    pub fn error_flag(&self) -> (r: bool)
        ensures
            r == spec_bit_u16(self.value(), 6),
    {
        self.read_bit(6)
    }

    /// Sets the start bit (bit seven) in the image; committing it to the
    /// hardware starts the transfer.
    pub fn start_transfer(&mut self)
        ensures
            final(self).value() == old(self).value() | 0x80u16,
            spec_bit_u16(final(self).value(), 7),
    {
        let old_val = self.value;
        self.value = old_val | 0x80u16;
        proof {
            assert(((old_val | 0x80u16) >> 7u16) & 1 == 1) by (bit_vector);
        }
    }

    /// Whether bit seven says a transfer is still running.
    pub fn busy(&self) -> (r: bool)
        ensures
            r == spec_bit_u16(self.value(), 7),
    {
        self.read_bit(7)
    }

    /// Whether bit `bit` of the image is set.
    fn read_bit(&self, bit: u16) -> (r: bool)
        requires
            bit < 16,
        ensures
            r == spec_bit_u16(self.value(), bit),
    {
        (self.value >> bit) & 1 == 1
    }
}

/// Entering multiplayer mode succeeds, telling parent from child, exactly
/// when the all-ready bit is set.
pub fn check_multiplayer_ready(siocnt: &MultiplayerSiocnt) -> (r: Result<bool, InitializationError>)
    ensures
        spec_bit_u16(siocnt.value(), 3) ==> r == Result::<bool, InitializationError>::Ok(
            spec_bit_u16(siocnt.value(), 2),
        ),
        !spec_bit_u16(siocnt.value(), 3) ==> r == Result::<bool, InitializationError>::Err(
            InitializationError::FailedOkayCheck,
        ),
{
    if siocnt.gbas_ready() {
        Ok(siocnt.is_parent())
    } else {
        Err(InitializationError::FailedOkayCheck)
    }
}

/// The in-memory image of one console's incoming data register. The
/// binding layer stores each raw value the hardware shows; the sentinel
/// `0xffff` means the transfer is still in flight.
pub struct MultiplayerCommReg {
    player_id: PlayerId,
    value: u16,
}

impl MultiplayerCommReg {
    /// The console this register belongs to.
    pub closed spec fn spec_player_id(self) -> PlayerId {
        self.player_id
    }

    /// The current raw image.
    pub closed spec fn value(self) -> u16 {
        self.value
    }

    /// A fresh image for the given console, holding the in-flight
    /// sentinel until the binding layer stores a received value.
    pub fn new(player_id: PlayerId) -> (r: Self)
        ensures
            r.spec_player_id() == player_id,
            r.value() == TRANSFER_SENTINEL,
    {
        Self { player_id, value: TRANSFER_SENTINEL }
    }

    /// Stores a raw value the hardware showed.
    pub fn store(&mut self, raw: u16)
        ensures
            final(self).value() == raw,
            final(self).spec_player_id() == old(self).spec_player_id(),
    {
        self.value = raw;
    }

    /// The console this register belongs to.
    pub fn player_id(&self) -> (r: PlayerId)
        ensures
            r == self.spec_player_id(),
    {
        self.player_id
    }

    /// The received word, or `None` while the image still shows the
    /// in-flight sentinel.
    pub fn read(&self) -> (r: Option<u16>)
        ensures
            r == (if self.value() == TRANSFER_SENTINEL {
                Option::<u16>::None
            } else {
                Option::<u16>::Some(self.value())
            }),
    {
        let raw = self.raw_read();
        if raw == TRANSFER_SENTINEL {
            None
        } else {
            Some(raw)
        }
    }

    /// The raw image, sentinel included.
    pub fn raw_read(&self) -> (r: u16)
        ensures
            r == self.value(),
    {
        self.value
    }

    /// Whether the image still shows the in-flight sentinel.
    pub fn is_transfering(&self) -> (r: bool)
        ensures
            r == (self.value() == TRANSFER_SENTINEL),
    {
        self.raw_read() == TRANSFER_SENTINEL
    }
}

} // verus!
