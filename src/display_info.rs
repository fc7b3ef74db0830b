use vstd::prelude::*;
use vstd::utf8::{decode_utf8, valid_utf8};

use crate::text::{c_field_text, choose_end};
use crate::version::MccsVersion;

verus! {

/// The native I/O mode of a display reached over I2C.
pub const IO_MODE_I2C: u32 = 0;

/// The native I/O mode of a display reached over USB.
pub const IO_MODE_USB: u32 = 1;

/// A resolved locator of a physical display, independent of any open
/// connection; the token is the native library's reference to it.
#[derive(Clone, Copy, Debug, PartialEq, Eq, Structural)]
pub struct DisplayRef {
    pub token: usize,
}

/// Location of the display.
#[derive(Clone, Copy, Debug, PartialEq, Eq, Structural)]
pub enum DisplayPath {
    I2C { bus: i32 },
    USB { hiddev_devno: i32 },
}

impl DisplayPath {
    /// The location that a native I/O mode and its path number describe;
    /// `None` for a mode that is neither I2C nor USB.
    pub fn from_io_mode(io_mode: u32, number: i32) -> (r: Option<DisplayPath>)
        ensures
            io_mode == IO_MODE_I2C ==> r == Some(DisplayPath::I2C { bus: number }),
            io_mode == IO_MODE_USB ==> r == Some(DisplayPath::USB { hiddev_devno: number }),
            io_mode != IO_MODE_I2C && io_mode != IO_MODE_USB ==> r.is_none(),
    {
        if io_mode == IO_MODE_I2C {
            Some(DisplayPath::I2C { bus: number })
        } else if io_mode == IO_MODE_USB {
            Some(DisplayPath::USB { hiddev_devno: number })
        } else {
            None
        }
    }
}

/// The text of a NUL-padded field, where it is valid UTF-8.
pub open spec fn field_text(buf: Seq<u8>) -> Option<Seq<char>> {
    let t = buf.take(choose_end(buf));
    if valid_utf8(t) {
        Some(decode_utf8(t))
    } else {
        None
    }
}

/// The text as a sequence of characters.
pub open spec fn text_view(s: Option<String>) -> Option<Seq<char>> {
    match s {
        Some(t) => Some(t@),
        None => None,
    }
}

/// What the native library reports of one attached display.
#[derive(Debug)]
pub struct DisplayInfo {
    dispno: i32,
    path: DisplayPath,
    mfg_id: Vec<u8>,
    model_name: Vec<u8>,
    sn: Vec<u8>,
    product_code: u16,
    vcp_version: MccsVersion,
    dref: DisplayRef,
}

impl DisplayInfo {
    pub closed spec fn spec_dispno(&self) -> i32 {
        self.dispno
    }

    pub closed spec fn spec_path(&self) -> DisplayPath {
        self.path
    }

    pub closed spec fn spec_mfg_id(&self) -> Seq<u8> {
        self.mfg_id@
    }

    pub closed spec fn spec_model_name(&self) -> Seq<u8> {
        self.model_name@
    }

    pub closed spec fn spec_sn(&self) -> Seq<u8> {
        self.sn@
    }

    pub closed spec fn spec_product_code(&self) -> u16 {
        self.product_code
    }

    pub closed spec fn spec_vcp_version(&self) -> MccsVersion {
        self.vcp_version
    }

    pub closed spec fn spec_dref(&self) -> DisplayRef {
        self.dref
    }

    /// A display's description; the text fields are NUL-padded bytes.
    pub fn new(
        dispno: i32,
        path: DisplayPath,
        mfg_id: Vec<u8>,
        model_name: Vec<u8>,
        sn: Vec<u8>,
        product_code: u16,
        vcp_version: MccsVersion,
        dref: DisplayRef,
    ) -> (r: DisplayInfo)
        ensures
            r.spec_dispno() == dispno,
            r.spec_path() == path,
            r.spec_mfg_id() == mfg_id@,
            r.spec_model_name() == model_name@,
            r.spec_sn() == sn@,
            r.spec_product_code() == product_code,
            r.spec_vcp_version() == vcp_version,
            r.spec_dref() == dref,
    {
        DisplayInfo { dispno, path, mfg_id, model_name, sn, product_code, vcp_version, dref }
    }

    /// The display number.
    pub fn display_no(&self) -> (r: i32)
        ensures
            r == self.spec_dispno(),
    {
        self.dispno
    }

    /// Where the display is attached.
    pub fn path(&self) -> (r: DisplayPath)
        ensures
            r == self.spec_path(),
    {
        self.path
    }

    /// The manufacturer id; `None` where it is not valid UTF-8.
    pub fn manufacturer(&self) -> (r: Option<String>)
        ensures
            text_view(r) == field_text(self.spec_mfg_id()),
    {
        c_field_text(self.mfg_id.as_slice())
    }

    /// The model name; `None` where it is not valid UTF-8.
    pub fn model(&self) -> (r: Option<String>)
        ensures
            text_view(r) == field_text(self.spec_model_name()),
    {
        c_field_text(self.model_name.as_slice())
    }

    /// The serial number; `None` where it is not valid UTF-8.
    pub fn serial_number(&self) -> (r: Option<String>)
        ensures
            text_view(r) == field_text(self.spec_sn()),
    {
        c_field_text(self.sn.as_slice())
    }

    /// The product code.
    pub fn product_code(&self) -> (r: u16)
        ensures
            r == self.spec_product_code(),
    {
        self.product_code
    }

    /// The MCCS version that the display reports.
    pub fn vcp_version(&self) -> (r: MccsVersion)
        ensures
            r == self.spec_vcp_version(),
    {
        self.vcp_version
    }

    /// The reference to the display, through which it can be opened.
    pub fn dref(&self) -> (r: DisplayRef)
        ensures
            r == self.spec_dref(),
    {
        self.dref
    }
}

/// The displays that the native library found.
#[derive(Debug)]
pub struct DisplayInfoList {
    infos: Vec<DisplayInfo>,
}

impl DisplayInfoList {
    pub closed spec fn spec_infos(&self) -> Seq<DisplayInfo> {
        self.infos@
    }

    /// A list of the given displays, in order.
    pub fn new(infos: Vec<DisplayInfo>) -> (r: DisplayInfoList)
        ensures
            r.spec_infos() == infos@,
    {
        DisplayInfoList { infos }
    }

    /// The displays, in order.
    pub fn as_slice(&self) -> (r: &[DisplayInfo])
        ensures
            r@ == self.spec_infos(),
    {
        self.infos.as_slice()
    }

    /// The number of displays.
    pub fn len(&self) -> (r: usize)
        ensures
            r == self.spec_infos().len(),
    {
        self.infos.len()
    }

    /// The display at `index`, if there is one.
    pub fn get(&self, index: usize) -> (r: Option<&DisplayInfo>)
        ensures
            index < self.spec_infos().len() ==> r == Some(&self.spec_infos()[index as int]),
            index >= self.spec_infos().len() ==> r.is_none(),
    {
        if index < self.infos.len() {
            Some(&self.infos[index])
        } else {
            None
        }
    }
}

} // verus!
