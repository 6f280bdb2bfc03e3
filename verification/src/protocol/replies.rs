//! The payloads that the worker sends back.

use vstd::prelude::*;
use vstd::slice::slice_subrange;
use vstd::utf8::encode_utf8;
use crate::bytes::{
    append, fill_field, fixed_field, nul_free, read_u32, read_u64, u32_from_le, u32_le,
    u32_to_le, u64_from_le, u64_le, u64_to_le,
};
use crate::text::{field_string, read_string};

verus! {

/// Text that a field of `width` bytes holds whole and gives back unchanged:
/// its UTF-8 form is shorter than the field and holds no NUL.
pub open spec fn fits_field(text: Seq<char>, width: nat) -> bool {
    &&& encode_utf8(text).len() < width
    &&& nul_free(encode_utf8(text))
}

/// What a plug-in says of itself.
#[derive(Debug, Clone)]
pub struct RespPluginInfo {
    pub name: String,
    pub vendor: String,
    pub category: String,
    pub uid: String,
    pub num_params: u32,
    pub num_audio_inputs: u32,
    pub num_audio_outputs: u32,
    pub flags: u32,
}

/// A plug-in's description as mathematical values.
pub struct RespPluginInfoView {
    pub name: Seq<char>,
    pub vendor: Seq<char>,
    pub category: Seq<char>,
    pub uid: Seq<char>,
    pub num_params: u32,
    pub num_audio_inputs: u32,
    pub num_audio_outputs: u32,
    pub flags: u32,
}

impl View for RespPluginInfo {
    type V = RespPluginInfoView;

    open spec fn view(&self) -> RespPluginInfoView {
        RespPluginInfoView {
            name: self.name@,
            vendor: self.vendor@,
            category: self.category@,
            uid: self.uid@,
            num_params: self.num_params,
            num_audio_inputs: self.num_audio_inputs,
            num_audio_outputs: self.num_audio_outputs,
            flags: self.flags,
        }
    }
}

impl Default for RespPluginInfo {
    /// The description with empty texts and all numbers at zero.
    fn default() -> (info: RespPluginInfo)
        ensures
            info@ == (RespPluginInfoView {
                name: Seq::empty(),
                vendor: Seq::empty(),
                category: Seq::empty(),
                uid: Seq::empty(),
                num_params: 0,
                num_audio_inputs: 0,
                num_audio_outputs: 0,
                flags: 0,
            }),
    {
        RespPluginInfo {
            name: String::new(),
            vendor: String::new(),
            category: String::new(),
            uid: String::new(),
            num_params: 0,
            num_audio_inputs: 0,
            num_audio_outputs: 0,
            flags: 0,
        }
    }
}

impl RespPluginInfoView {
    /// The description that a payload stands for, if it is long enough: four
    /// text fields of 256, 256, 128 and 64 bytes, three counts, and the
    /// flags where four more bytes follow.
    pub open spec fn decode(b: Seq<u8>) -> Option<RespPluginInfoView> {
        if b.len() < 716 {
            None
        } else {
            Some(
                RespPluginInfoView {
                    name: field_string(b.subrange(0, 256)),
                    vendor: field_string(b.subrange(256, 512)),
                    category: field_string(b.subrange(512, 640)),
                    uid: field_string(b.subrange(640, 704)),
                    num_params: u32_from_le(b.subrange(704, 708)),
                    num_audio_inputs: u32_from_le(b.subrange(708, 712)),
                    num_audio_outputs: u32_from_le(b.subrange(712, 716)),
                    flags: if b.len() >= 720 {
                        u32_from_le(b.subrange(716, 720))
                    } else {
                        0
                    },
                },
            )
        }
    }

    /// The payload of 720 bytes that carries the description, flags
    /// included.
    pub open spec fn encode(self) -> Seq<u8> {
        fixed_field(encode_utf8(self.name), 256) + fixed_field(encode_utf8(self.vendor), 256)
            + fixed_field(encode_utf8(self.category), 128) + fixed_field(
            encode_utf8(self.uid),
            64,
        ) + u32_le(self.num_params) + u32_le(self.num_audio_inputs) + u32_le(
            self.num_audio_outputs,
        ) + u32_le(self.flags)
    }
}

impl RespPluginInfo {
    /// Reads a description from a payload; there is none in a payload of under
    /// 716 bytes.
    pub fn from_bytes(buf: &[u8]) -> (r: Option<RespPluginInfo>)
        ensures
            r is Some <==> buf@.len() >= 716,
            r matches Some(info) ==> Some(info@) == RespPluginInfoView::decode(buf@),
    {
        if buf.len() < 716 {
            return None;
        }
        let flags: u32 = if buf.len() >= 720 {
            read_u32(buf, 716)
        } else {
            0
        };
        Some(
            RespPluginInfo {
                name: read_string(slice_subrange(buf, 0, 256)),
                vendor: read_string(slice_subrange(buf, 256, 512)),
                category: read_string(slice_subrange(buf, 512, 640)),
                uid: read_string(slice_subrange(buf, 640, 704)),
                num_params: read_u32(buf, 704),
                num_audio_inputs: read_u32(buf, 708),
                num_audio_outputs: read_u32(buf, 712),
                flags,
            },
        )
    }

    /// The payload that carries this description.
    pub fn to_bytes(&self) -> (b: Vec<u8>)
        ensures
            b@ == self@.encode(),
    {
        let mut buf: Vec<u8> = Vec::with_capacity(720);
        append_field_256(&mut buf, self.name.as_str());
        append_field_256(&mut buf, self.vendor.as_str());
        let mut category: [u8; 128] = [0u8; 128];
        fill_field(&mut category, self.category.as_str().as_bytes());
        append(&mut buf, &category);
        let mut uid: [u8; 64] = [0u8; 64];
        fill_field(&mut uid, self.uid.as_str().as_bytes());
        append(&mut buf, &uid);
        append(&mut buf, &u32_to_le(self.num_params));
        append(&mut buf, &u32_to_le(self.num_audio_inputs));
        append(&mut buf, &u32_to_le(self.num_audio_outputs));
        append(&mut buf, &u32_to_le(self.flags));
        buf
    }
}

/// Appends `text` to `buf` as a field of 256 bytes.
fn append_field_256(buf: &mut Vec<u8>, text: &str)
    ensures
        final(buf)@ == old(buf)@ + fixed_field(encode_utf8(text@), 256),
{
    let mut field: [u8; 256] = [0u8; 256];
    fill_field(&mut field, text.as_bytes());
    append(buf, &field);
}

/// What a plug-in says of one of its parameters. The three values are held
/// as the bit patterns of 64-bit floats.
#[derive(Debug, Clone)]
pub struct RespParamInfo {
    pub id: u32,
    pub name: String,
    pub units: String,
    pub default_value_bits: u64,
    pub min_value_bits: u64,
    pub max_value_bits: u64,
    pub flags: u32,
}

/// A parameter's description as mathematical values.
pub struct RespParamInfoView {
    pub id: u32,
    pub name: Seq<char>,
    pub units: Seq<char>,
    pub default_value_bits: u64,
    pub min_value_bits: u64,
    pub max_value_bits: u64,
    pub flags: u32,
}

impl View for RespParamInfo {
    type V = RespParamInfoView;

    open spec fn view(&self) -> RespParamInfoView {
        RespParamInfoView {
            id: self.id,
            name: self.name@,
            units: self.units@,
            default_value_bits: self.default_value_bits,
            min_value_bits: self.min_value_bits,
            max_value_bits: self.max_value_bits,
            flags: self.flags,
        }
    }
}

impl RespParamInfoView {
    /// The description that a payload stands for, if it is long enough: the
    /// id, text fields of 128 and 32 bytes, three values and the flags. A
    /// payload under 196 bytes is not accepted, though the fields end at
    /// byte 192.
    pub open spec fn decode(b: Seq<u8>) -> Option<RespParamInfoView> {
        if b.len() < 196 {
            None
        } else {
            Some(
                RespParamInfoView {
                    id: u32_from_le(b.subrange(0, 4)),
                    name: field_string(b.subrange(4, 132)),
                    units: field_string(b.subrange(132, 164)),
                    default_value_bits: u64_from_le(b.subrange(164, 172)),
                    min_value_bits: u64_from_le(b.subrange(172, 180)),
                    max_value_bits: u64_from_le(b.subrange(180, 188)),
                    flags: u32_from_le(b.subrange(188, 192)),
                },
            )
        }
    }

    /// The payload of 196 bytes that carries the description: the fields,
    /// then four NUL bytes.
    pub open spec fn encode(self) -> Seq<u8> {
        u32_le(self.id) + fixed_field(encode_utf8(self.name), 128) + fixed_field(
            encode_utf8(self.units),
            32,
        ) + u64_le(self.default_value_bits) + u64_le(self.min_value_bits) + u64_le(
            self.max_value_bits,
        ) + u32_le(self.flags) + u32_le(0)
    }
}

impl RespParamInfo {
    /// Reads a description from a payload; there is none in a payload of under
    /// 196 bytes.
    pub fn from_bytes(buf: &[u8]) -> (r: Option<RespParamInfo>)
        ensures
            r is Some <==> buf@.len() >= 196,
            r matches Some(info) ==> Some(info@) == RespParamInfoView::decode(buf@),
    {
        if buf.len() < 196 {
            return None;
        }
        Some(
            RespParamInfo {
                id: read_u32(buf, 0),
                name: read_string(slice_subrange(buf, 4, 132)),
                units: read_string(slice_subrange(buf, 132, 164)),
                default_value_bits: read_u64(buf, 164),
                min_value_bits: read_u64(buf, 172),
                max_value_bits: read_u64(buf, 180),
                flags: read_u32(buf, 188),
            },
        )
    }

    /// The payload that carries this description.
    pub fn to_bytes(&self) -> (b: Vec<u8>)
        ensures
            b@ == self@.encode(),
    {
        let mut buf: Vec<u8> = Vec::with_capacity(196);
        append(&mut buf, &u32_to_le(self.id));
        let mut name: [u8; 128] = [0u8; 128];
        fill_field(&mut name, self.name.as_str().as_bytes());
        append(&mut buf, &name);
        let mut units: [u8; 32] = [0u8; 32];
        fill_field(&mut units, self.units.as_str().as_bytes());
        append(&mut buf, &units);
        append(&mut buf, &u64_to_le(self.default_value_bits));
        append(&mut buf, &u64_to_le(self.min_value_bits));
        append(&mut buf, &u64_to_le(self.max_value_bits));
        append(&mut buf, &u32_to_le(self.flags));
        append(&mut buf, &u32_to_le(0));
        buf
    }
}

/// One change that the user made to a parameter in the plug-in's editor. The
/// value is held as the bit pattern of a 64-bit float.
#[derive(Debug, Clone, Copy, PartialEq, Eq, Structural)]
pub struct ParamChangeEvent {
    pub param_id: u32,
    pub value_bits: u64,
}

impl ParamChangeEvent {
    /// The change that the first twelve bytes stand for, if there are that
    /// many.
    pub open spec fn decode(b: Seq<u8>) -> Option<ParamChangeEvent> {
        if b.len() < 12 {
            None
        } else {
            Some(
                ParamChangeEvent {
                    param_id: u32_from_le(b.subrange(0, 4)),
                    value_bits: u64_from_le(b.subrange(4, 12)),
                },
            )
        }
    }

    /// The record of twelve bytes that carries the change.
    pub open spec fn encode(self) -> Seq<u8> {
        u32_le(self.param_id) + u64_le(self.value_bits)
    }

    /// Reads a change from the start of `buf`; there is none in under twelve
    /// bytes.
    pub fn from_bytes(buf: &[u8]) -> (r: Option<ParamChangeEvent>)
        ensures
            r == ParamChangeEvent::decode(buf@),
    {
        if buf.len() < 12 {
            return None;
        }
        Some(ParamChangeEvent { param_id: read_u32(buf, 0), value_bits: read_u64(buf, 4) })
    }
}

/// Where a plug-in's editor window is, and how large.
#[derive(Debug, Clone, Copy, PartialEq, Eq, Structural)]
pub struct RespEditorInfo {
    pub x11_window_id: u32,
    pub width: u32,
    pub height: u32,
}

impl Default for RespEditorInfo {
    /// The window with the id zero and no extent.
    fn default() -> (info: RespEditorInfo)
        ensures
            info == (RespEditorInfo { x11_window_id: 0, width: 0, height: 0 }),
    {
        RespEditorInfo { x11_window_id: 0, width: 0, height: 0 }
    }
}

impl RespEditorInfo {
    /// The editor window that a payload stands for, if it is long enough.
    pub open spec fn decode(b: Seq<u8>) -> Option<RespEditorInfo> {
        if b.len() < 12 {
            None
        } else {
            Some(
                RespEditorInfo {
                    x11_window_id: u32_from_le(b.subrange(0, 4)),
                    width: u32_from_le(b.subrange(4, 8)),
                    height: u32_from_le(b.subrange(8, 12)),
                },
            )
        }
    }

    /// The payload of twelve bytes that carries the editor window.
    pub open spec fn encode(self) -> Seq<u8> {
        u32_le(self.x11_window_id) + u32_le(self.width) + u32_le(self.height)
    }

    /// Reads an editor window from a payload; there is none in a payload of
    /// under twelve bytes.
    pub fn from_bytes(buf: &[u8]) -> (r: Option<RespEditorInfo>)
        ensures
            r == RespEditorInfo::decode(buf@),
    {
        if buf.len() < 12 {
            return None;
        }
        Some(
            RespEditorInfo {
                x11_window_id: read_u32(buf, 0),
                width: read_u32(buf, 4),
                height: read_u32(buf, 8),
            },
        )
    }

    /// The payload that carries this editor window.
    pub fn to_bytes(&self) -> (b: Vec<u8>)
        ensures
            b@ == self.encode(),
    {
        let mut buf: Vec<u8> = Vec::with_capacity(12);
        append(&mut buf, &u32_to_le(self.x11_window_id));
        append(&mut buf, &u32_to_le(self.width));
        append(&mut buf, &u32_to_le(self.height));
        buf
    }
}

} // verus!
