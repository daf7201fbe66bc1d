use vstd::prelude::*;

verus! {

/// Whether bit `i` of `byte` is set.
pub open spec fn bit_set(byte: u8, i: u8) -> bool {
    (byte >> i) & 1u8 == 1u8
}

proof fn lemma_mask_bit(byte: u8, i: u8)
    requires
        i < 8,
    ensures
        ((byte & (1u8 << i)) != 0u8) == bit_set(byte, i),
{
    assert(((byte & (1u8 << i)) != 0u8) == ((byte >> i) & 1u8 == 1u8)) by (bit_vector)
        requires
            i < 8,
    ;
}

/// Reads bit `i` of `byte`.
fn flag(byte: u8, i: u8) -> (r: bool)
    requires
        i < 8,
    ensures
        r == bit_set(byte, i),
{
    proof {
        lemma_mask_bit(byte, i);
    }
    (byte & (1u8 << i)) != 0
}

/// Errors of the radio link.
#[derive(Clone, Copy, Debug, PartialEq, Eq, Structural)]
pub enum Error {
    /// The transceiver did not answer on the bus.
    ChipNotConnected,
    /// A bus transfer to the transceiver failed.
    Transfer,
}

/// One operator input sample as sent by the remote control.
///
/// `buttons_1`: bits 0 to 3 are buttons A to D, bits 4 to 7 toggles A to D.
/// `buttons_2`: bits 0 to 3 are bumpers A to D, bit 4 the left stick button,
/// bit 5 the right stick button.
#[derive(Clone, Copy, Debug, PartialEq, Eq, Structural)]
pub struct RcDataPackage {
    pub joy_left_x: u8,
    pub joy_left_y: u8,
    pub joy_right_x: u8,
    pub joy_right_y: u8,
    pub pot_left: u8,
    pub pot_right: u8,
    pub buttons_1: u8,
    pub buttons_2: u8,
}

/// Number of bytes of an operator input sample on the wire.
pub const RC_PACKAGE_LEN: usize = 8;

impl RcDataPackage {
    /// A sample with every axis, potentiometer and flag at zero.
    pub fn new() -> (r: RcDataPackage)
        ensures
            r == (RcDataPackage {
                joy_left_x: 0,
                joy_left_y: 0,
                joy_right_x: 0,
                joy_right_y: 0,
                pot_left: 0,
                pot_right: 0,
                buttons_1: 0,
                buttons_2: 0,
            }),
    {
        RcDataPackage {
            joy_left_x: 0,
            joy_left_y: 0,
            joy_right_x: 0,
            joy_right_y: 0,
            pot_left: 0,
            pot_right: 0,
            buttons_1: 0,
            buttons_2: 0,
        }
    }

    /// Decodes a sample from its wire layout: the four stick axes, the two
    /// potentiometers, then the two flag bytes. `None` unless there are
    /// exactly eight bytes.
    pub fn from_bytes(b: &[u8]) -> (r: Option<RcDataPackage>)
        ensures
            b@.len() != RC_PACKAGE_LEN ==> r.is_none(),
            b@.len() == RC_PACKAGE_LEN ==> r == Some(RcDataPackage {
                joy_left_x: b@[0],
                joy_left_y: b@[1],
                joy_right_x: b@[2],
                joy_right_y: b@[3],
                pot_left: b@[4],
                pot_right: b@[5],
                buttons_1: b@[6],
                buttons_2: b@[7],
            }),
    {
        if b.len() != RC_PACKAGE_LEN {
            return None;
        }
        Some(RcDataPackage {
            joy_left_x: b[0],
            joy_left_y: b[1],
            joy_right_x: b[2],
            joy_right_y: b[3],
            pot_left: b[4],
            pot_right: b[5],
            buttons_1: b[6],
            buttons_2: b[7],
        })
    }

    /// Test if the A button is pressed
    pub fn button_a(&self) -> (r: bool)
        ensures
            r == bit_set(self.buttons_1, 0),
    {
        flag(self.buttons_1, 0)
    }

    /// Test if the B button is pressed
    pub fn button_b(&self) -> (r: bool)
        ensures
            r == bit_set(self.buttons_1, 1),
    {
        flag(self.buttons_1, 1)
    }

    /// Test if the C button is pressed
    pub fn button_c(&self) -> (r: bool)
        ensures
            r == bit_set(self.buttons_1, 2),
    {
        flag(self.buttons_1, 2)
    }

    /// Test if the D button is pressed
    pub fn button_d(&self) -> (r: bool)
        ensures
            r == bit_set(self.buttons_1, 3),
    {
        flag(self.buttons_1, 3)
    }

    /// Test if the A toggle is set
    pub fn toggle_a(&self) -> (r: bool)
        ensures
            r == bit_set(self.buttons_1, 4),
    {
        flag(self.buttons_1, 4)
    }

    /// Test if the B toggle is set
    pub fn toggle_b(&self) -> (r: bool)
        ensures
            r == bit_set(self.buttons_1, 5),
    {
        flag(self.buttons_1, 5)
    }

    /// Test if the C toggle is set
    pub fn toggle_c(&self) -> (r: bool)
        ensures
            r == bit_set(self.buttons_1, 6),
    {
        flag(self.buttons_1, 6)
    }

    /// Test if the D toggle is set
    pub fn toggle_d(&self) -> (r: bool)
        ensures
            r == bit_set(self.buttons_1, 7),
    {
        flag(self.buttons_1, 7)
    }

    /// Test if the A bumper is pressed
    pub fn bumper_a(&self) -> (r: bool)
        ensures
            r == bit_set(self.buttons_2, 0),
    {
        flag(self.buttons_2, 0)
    }

    /// Test if the B bumper is pressed
    pub fn bumper_b(&self) -> (r: bool)
        ensures
            r == bit_set(self.buttons_2, 1),
    {
        flag(self.buttons_2, 1)
    }

    /// Test if the C bumper is pressed
    pub fn bumper_c(&self) -> (r: bool)
        ensures
            r == bit_set(self.buttons_2, 2),
    {
        flag(self.buttons_2, 2)
    }

    /// Test if the D bumper is pressed
    pub fn bumper_d(&self) -> (r: bool)
        ensures
            r == bit_set(self.buttons_2, 3),
    {
        flag(self.buttons_2, 3)
    }

    /// Test if the joystick left button is pressed
    pub fn joy_left_button(&self) -> (r: bool)
        ensures
            r == bit_set(self.buttons_2, 4),
    {
        flag(self.buttons_2, 4)
    }

    /// Test if the joystick right button is pressed
    pub fn joy_right_button(&self) -> (r: bool)
        ensures
            r == bit_set(self.buttons_2, 5),
    {
        flag(self.buttons_2, 5)
    }
}

/// Status byte acknowledged back to the remote control.
#[derive(Clone, Copy, Debug, PartialEq, Eq, Structural)]
pub struct AckDataPackage {
    status: u8,
}

impl AckDataPackage {
    pub closed spec fn status_spec(&self) -> u8 {
        self.status
    }

    /// An acknowledgement with every status bit clear.
    pub fn new() -> (r: AckDataPackage)
        ensures
            r.status_spec() == 0,
    {
        AckDataPackage { status: 0 }
    }

    /// The status byte as it goes on the wire.
    pub fn status(&self) -> (r: u8)
        ensures
            r == self.status_spec(),
    {
        self.status
    }

    /// Controller is connected
    pub fn connected(&self) -> (r: bool)
        ensures
            r == bit_set(self.status_spec(), 0),
    {
        flag(self.status, 0)
    }

    /// Sets or clears the connected bit, leaving the other status bits as they were.
    pub fn set_connected(&mut self, value: bool)
        ensures
            bit_set(final(self).status_spec(), 0) == value,
            forall|i: u8| 1 <= i < 8 ==> bit_set(final(self).status_spec(), i) == bit_set(old(self).status_spec(), i),
    {
        let s = self.status;
        if value {
            self.status = s | 1u8;
            assert(forall|i: u8| 1 <= i < 8 ==> ((s | 1u8) >> i) & 1u8 == (s >> i) & 1u8) by (bit_vector);
            assert(((s | 1u8) >> 0u8) & 1u8 == 1u8) by (bit_vector);
        } else {
            self.status = s & !1u8;
            assert(forall|i: u8| 1 <= i < 8 ==> ((s & !1u8) >> i) & 1u8 == (s >> i) & 1u8) by (bit_vector);
            assert(((s & !1u8) >> 0u8) & 1u8 == 0u8) by (bit_vector);
        }
    }
}

} // verus!
