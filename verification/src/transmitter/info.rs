use vstd::prelude::*;
use vstd::utf8::{decode_utf8, valid_utf8};
use crate::c_string::string_from_bytes;
use crate::error::{Error, ErrorKind};

verus! {

/// Information about a transmit channel
#[derive(Debug)]
pub struct TransmitInfo {
    motherboard_id: String,
    motherboard_name: String,
    motherboard_serial: String,
    daughterboard_id: String,
    daughterboard_serial: String,
    subdev_name: String,
    subdev_spec: String,
    antenna: String,
}

/// What the information about a transmit channel holds.
pub struct TransmitInfoView {
    pub motherboard_id: Seq<char>,
    pub motherboard_name: Seq<char>,
    pub motherboard_serial: Seq<char>,
    pub daughterboard_id: Seq<char>,
    pub daughterboard_serial: Seq<char>,
    pub subdev_name: Seq<char>,
    pub subdev_spec: Seq<char>,
    pub antenna: Seq<char>,
}

/// Information about a transmit channel as the native library gives it: the
/// bytes of each of its texts, without the null byte that ends them.
#[derive(Debug)]
pub struct TransmitInfoC {
    pub mboard_id: Vec<u8>,
    pub mboard_name: Vec<u8>,
    pub mboard_serial: Vec<u8>,
    pub tx_id: Vec<u8>,
    pub tx_serial: Vec<u8>,
    pub tx_subdev_name: Vec<u8>,
    pub tx_subdev_spec: Vec<u8>,
    pub tx_antenna: Vec<u8>,
}

impl TransmitInfoC {
    /// True when every text is valid UTF-8.
    pub open spec fn valid(self) -> bool {
        &&& valid_utf8(self.mboard_id@)
        &&& valid_utf8(self.mboard_name@)
        &&& valid_utf8(self.mboard_serial@)
        &&& valid_utf8(self.tx_id@)
        &&& valid_utf8(self.tx_serial@)
        &&& valid_utf8(self.tx_subdev_name@)
        &&& valid_utf8(self.tx_subdev_spec@)
        &&& valid_utf8(self.tx_antenna@)
    }

    /// The texts, decoded.
    pub open spec fn decoded(self) -> TransmitInfoView {
        TransmitInfoView {
            motherboard_id: decode_utf8(self.mboard_id@),
            motherboard_name: decode_utf8(self.mboard_name@),
            motherboard_serial: decode_utf8(self.mboard_serial@),
            daughterboard_id: decode_utf8(self.tx_id@),
            daughterboard_serial: decode_utf8(self.tx_serial@),
            subdev_name: decode_utf8(self.tx_subdev_name@),
            subdev_spec: decode_utf8(self.tx_subdev_spec@),
            antenna: decode_utf8(self.tx_antenna@),
        }
    }
}

impl View for TransmitInfo {
    type V = TransmitInfoView;

    closed spec fn view(&self) -> TransmitInfoView {
        TransmitInfoView {
            motherboard_id: self.motherboard_id@,
            motherboard_name: self.motherboard_name@,
            motherboard_serial: self.motherboard_serial@,
            daughterboard_id: self.daughterboard_id@,
            daughterboard_serial: self.daughterboard_serial@,
            subdev_name: self.subdev_name@,
            subdev_spec: self.subdev_spec@,
            antenna: self.antenna@,
        }
    }
}

impl TransmitInfo {
    /// The motherboard's identifier
    pub fn motherboard_id(&self) -> (text: &str)
        ensures
            text@ == self@.motherboard_id,
    {
        self.motherboard_id.as_str()
    }

    /// The motherboard's name
    pub fn motherboard_name(&self) -> (text: &str)
        ensures
            text@ == self@.motherboard_name,
    {
        self.motherboard_name.as_str()
    }

    /// The motherboard's serial number
    pub fn motherboard_serial(&self) -> (text: &str)
        ensures
            text@ == self@.motherboard_serial,
    {
        self.motherboard_serial.as_str()
    }

    /// The daughter board's identifier
    pub fn daughterboard_id(&self) -> (text: &str)
        ensures
            text@ == self@.daughterboard_id,
    {
        self.daughterboard_id.as_str()
    }

    /// The daughter board's serial number
    pub fn daughterboard_serial(&self) -> (text: &str)
        ensures
            text@ == self@.daughterboard_serial,
    {
        self.daughterboard_serial.as_str()
    }

    /// The name of the subdevice
    pub fn subdev_name(&self) -> (text: &str)
        ensures
            text@ == self@.subdev_name,
    {
        self.subdev_name.as_str()
    }

    /// The address of the subdevice on the board (for example `A:0`)
    pub fn subdev_spec(&self) -> (text: &str)
        ensures
            text@ == self@.subdev_spec,
    {
        self.subdev_spec.as_str()
    }

    /// The antenna in use
    pub fn antenna(&self) -> (text: &str)
        ensures
            text@ == self@.antenna,
    {
        self.antenna.as_str()
    }

    /// Reads the information from the form in which the native library
    /// gives it. A text that is not valid UTF-8 gives `Utf8`.
    pub fn from_c(info_c: TransmitInfoC) -> (result: Result<Self, Error>)
        ensures
            result is Ok <==> info_c.valid(),
            result is Ok ==> result->Ok_0@ == info_c.decoded(),
            result is Err ==> result->Err_0.spec_kind() == ErrorKind::Utf8,
            result is Err ==> result->Err_0.spec_text() is None,
    {
        Ok(
            TransmitInfo {
                motherboard_id: string_from_bytes(info_c.mboard_id)?,
                motherboard_name: string_from_bytes(info_c.mboard_name)?,
                motherboard_serial: string_from_bytes(info_c.mboard_serial)?,
                daughterboard_id: string_from_bytes(info_c.tx_id)?,
                daughterboard_serial: string_from_bytes(info_c.tx_serial)?,
                subdev_name: string_from_bytes(info_c.tx_subdev_name)?,
                subdev_spec: string_from_bytes(info_c.tx_subdev_spec)?,
                antenna: string_from_bytes(info_c.tx_antenna)?,
            },
        )
    }
}

} // verus!
