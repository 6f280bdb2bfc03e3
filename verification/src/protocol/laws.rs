//! What holds of the codec as a whole: every message that the codec writes
//! reads back as what was written.

use vstd::prelude::*;
use vstd::utf8::{
    decode_utf8_encode_utf8, encode_utf8, encode_utf8_decode_utf8, encode_utf8_valid_utf8,
    valid_utf8,
};
use crate::bytes::{
    field_text, fixed_field, lemma_field_round_trip, lemma_text_len, lemma_u32_from_le_inverse,
    lemma_u32_le_inverse, lemma_u64_from_le_inverse, lemma_u64_le_inverse, nul_free, text_len,
    truncated, u32_from_le, u32_le, u64_le,
};
use crate::protocol::replies::fits_field;
use crate::protocol::{
    CmdInitAudio, CmdLoadPlugin, Header, HostCommand, ParamChangeEvent, RespParamInfoView,
    RespPluginInfoView, RespEditorInfo, ResponseHeader,
};
use crate::text::field_string;

verus! {

/// A request header takes sixteen bytes, and reading them gives the header
/// back, whatever its fields hold.
pub proof fn lemma_header_round_trip(h: Header)
    ensures
        h.wire().len() == 16,
        Header::parse(h.wire()) == h,
{
    let b = h.wire();
    lemma_u32_le_inverse(h.magic);
    lemma_u32_le_inverse(h.version);
    lemma_u32_le_inverse(h.command);
    lemma_u32_le_inverse(h.payload_size);
    assert(b.subrange(0, 4) =~= u32_le(h.magic));
    assert(b.subrange(4, 8) =~= u32_le(h.version));
    assert(b.subrange(8, 12) =~= u32_le(h.command));
    assert(b.subrange(12, 16) =~= u32_le(h.payload_size));
}

/// The header of a request for any command and payload size reads back with
/// the request magic, the protocol version, the command's code and the size.
pub proof fn lemma_request_header_round_trip(command: HostCommand, payload_size: u32)
    ensures
        Header::parse(Header::request(command, payload_size).wire()) == Header::request(
            command,
            payload_size,
        ),
{
    lemma_header_round_trip(Header::request(command, payload_size));
}

/// Writing the header that sixteen bytes stand for gives the bytes back.
pub proof fn lemma_header_bytes_round_trip(b: Seq<u8>)
    requires
        b.len() == 16,
    ensures
        Header::parse(b).wire() == b,
{
    lemma_u32_from_le_inverse(b.subrange(0, 4));
    lemma_u32_from_le_inverse(b.subrange(4, 8));
    lemma_u32_from_le_inverse(b.subrange(8, 12));
    lemma_u32_from_le_inverse(b.subrange(12, 16));
    assert(Header::parse(b).wire() =~= b.subrange(0, 4) + b.subrange(4, 8) + b.subrange(8, 12)
        + b.subrange(12, 16));
    assert(b.subrange(0, 4) + b.subrange(4, 8) + b.subrange(8, 12) + b.subrange(12, 16) =~= b);
}

/// A response header takes twelve bytes, and reading them gives the header
/// back.
pub proof fn lemma_response_header_round_trip(h: ResponseHeader)
    ensures
        h.wire().len() == 12,
        ResponseHeader::parse(h.wire()) == h,
{
    let b = h.wire();
    lemma_u32_le_inverse(h.magic);
    lemma_u32_le_inverse(h.status);
    lemma_u32_le_inverse(h.payload_size);
    assert(b.subrange(0, 4) =~= u32_le(h.magic));
    assert(b.subrange(4, 8) =~= u32_le(h.status));
    assert(b.subrange(8, 12) =~= u32_le(h.payload_size));
}

/// A field filled from text that fits it reads back as that text.
pub proof fn lemma_text_field_round_trip(text: Seq<char>, width: nat)
    requires
        fits_field(text, width),
    ensures
        fixed_field(encode_utf8(text), width).len() == width,
        field_string(fixed_field(encode_utf8(text), width)) == text,
{
    let bytes = encode_utf8(text);
    assert(truncated(bytes, (width - 1) as nat) == bytes);
    lemma_field_round_trip(bytes, width);
    encode_utf8_valid_utf8(text);
    encode_utf8_decode_utf8(text);
}

/// The payload written for an editor window reads back as that window.
pub proof fn lemma_editor_info_round_trip(e: RespEditorInfo)
    ensures
        e.encode().len() == 12,
        RespEditorInfo::decode(e.encode()) == Some(e),
{
    let b = e.encode();
    lemma_u32_le_inverse(e.x11_window_id);
    lemma_u32_le_inverse(e.width);
    lemma_u32_le_inverse(e.height);
    assert(b.subrange(0, 4) =~= u32_le(e.x11_window_id));
    assert(b.subrange(4, 8) =~= u32_le(e.width));
    assert(b.subrange(8, 12) =~= u32_le(e.height));
}

/// The record written for a parameter change reads back as that change.
pub proof fn lemma_param_change_round_trip(c: ParamChangeEvent)
    ensures
        c.encode().len() == 12,
        ParamChangeEvent::decode(c.encode()) == Some(c),
{
    let b = c.encode();
    lemma_u32_le_inverse(c.param_id);
    lemma_u64_le_inverse(c.value_bits);
    assert(b.subrange(0, 4) =~= u32_le(c.param_id));
    assert(b.subrange(4, 12) =~= u64_le(c.value_bits));
}

/// The payload written for a plug-in's description reads back as that
/// description, where each of its texts fits its field.
pub proof fn lemma_plugin_info_round_trip(v: RespPluginInfoView)
    requires
        fits_field(v.name, 256),
        fits_field(v.vendor, 256),
        fits_field(v.category, 128),
        fits_field(v.uid, 64),
    ensures
        v.encode().len() == 720,
        RespPluginInfoView::decode(v.encode()) == Some(v),
{
    let b = v.encode();
    let name = fixed_field(encode_utf8(v.name), 256);
    let vendor = fixed_field(encode_utf8(v.vendor), 256);
    let category = fixed_field(encode_utf8(v.category), 128);
    let uid = fixed_field(encode_utf8(v.uid), 64);
    lemma_text_field_round_trip(v.name, 256);
    lemma_text_field_round_trip(v.vendor, 256);
    lemma_text_field_round_trip(v.category, 128);
    lemma_text_field_round_trip(v.uid, 64);
    lemma_u32_le_inverse(v.num_params);
    lemma_u32_le_inverse(v.num_audio_inputs);
    lemma_u32_le_inverse(v.num_audio_outputs);
    lemma_u32_le_inverse(v.flags);
    assert(b.subrange(0, 256) =~= name);
    assert(b.subrange(256, 512) =~= vendor);
    assert(b.subrange(512, 640) =~= category);
    assert(b.subrange(640, 704) =~= uid);
    assert(b.subrange(704, 708) =~= u32_le(v.num_params));
    assert(b.subrange(708, 712) =~= u32_le(v.num_audio_inputs));
    assert(b.subrange(712, 716) =~= u32_le(v.num_audio_outputs));
    assert(b.subrange(716, 720) =~= u32_le(v.flags));
}

/// The payload written for a parameter's description reads back as that
/// description, where each of its texts fits its field.
pub proof fn lemma_param_info_round_trip(v: RespParamInfoView)
    requires
        fits_field(v.name, 128),
        fits_field(v.units, 32),
    ensures
        v.encode().len() == 196,
        RespParamInfoView::decode(v.encode()) == Some(v),
{
    let b = v.encode();
    let name = fixed_field(encode_utf8(v.name), 128);
    let units = fixed_field(encode_utf8(v.units), 32);
    lemma_text_field_round_trip(v.name, 128);
    lemma_text_field_round_trip(v.units, 32);
    lemma_u32_le_inverse(v.id);
    lemma_u64_le_inverse(v.default_value_bits);
    lemma_u64_le_inverse(v.min_value_bits);
    lemma_u64_le_inverse(v.max_value_bits);
    lemma_u32_le_inverse(v.flags);
    assert(b.subrange(0, 4) =~= u32_le(v.id));
    assert(b.subrange(4, 132) =~= name);
    assert(b.subrange(132, 164) =~= units);
    assert(b.subrange(164, 172) =~= u64_le(v.default_value_bits));
    assert(b.subrange(172, 180) =~= u64_le(v.min_value_bits));
    assert(b.subrange(180, 188) =~= u64_le(v.max_value_bits));
    assert(b.subrange(188, 192) =~= u32_le(v.flags));
}

/// What a receiver reads out of a `LoadPlugin` payload made for `path`: the
/// path cut at 1023 bytes, where that holds no NUL, and the class index.
pub proof fn lemma_load_plugin_round_trip(cmd: CmdLoadPlugin, path: Seq<u8>)
    requires
        cmd.path@ == fixed_field(path, 1024),
        nul_free(truncated(path, 1023)),
    ensures
        cmd.wire().len() == 1028,
        field_text(cmd.wire().subrange(0, 1024)) == truncated(path, 1023),
        u32_from_le(cmd.wire().subrange(1024, 1028)) == cmd.class_index,
{
    let b = cmd.wire();
    lemma_field_round_trip(path, 1024);
    lemma_u32_le_inverse(cmd.class_index);
    assert(b.subrange(0, 1024) =~= cmd.path@);
    assert(b.subrange(1024, 1028) =~= u32_le(cmd.class_index));
}

/// What a receiver reads out of an `InitAudio` payload made for `name`: the
/// four numbers, and the name cut at 63 bytes, where that holds no NUL.
pub proof fn lemma_init_audio_round_trip(cmd: CmdInitAudio, name: Seq<u8>)
    requires
        cmd.shm_name@ == fixed_field(name, 64),
        nul_free(truncated(name, 63)),
    ensures
        cmd.wire().len() == 80,
        u32_from_le(cmd.wire().subrange(0, 4)) == cmd.sample_rate,
        u32_from_le(cmd.wire().subrange(4, 8)) == cmd.block_size,
        u32_from_le(cmd.wire().subrange(8, 12)) == cmd.num_inputs,
        u32_from_le(cmd.wire().subrange(12, 16)) == cmd.num_outputs,
        field_text(cmd.wire().subrange(16, 80)) == truncated(name, 63),
{
    let b = cmd.wire();
    lemma_field_round_trip(name, 64);
    lemma_u32_le_inverse(cmd.sample_rate);
    lemma_u32_le_inverse(cmd.block_size);
    lemma_u32_le_inverse(cmd.num_inputs);
    lemma_u32_le_inverse(cmd.num_outputs);
    assert(b.subrange(0, 4) =~= u32_le(cmd.sample_rate));
    assert(b.subrange(4, 8) =~= u32_le(cmd.block_size));
    assert(b.subrange(8, 12) =~= u32_le(cmd.num_inputs));
    assert(b.subrange(12, 16) =~= u32_le(cmd.num_outputs));
    assert(b.subrange(16, 80) =~= cmd.shm_name@);
}

/// A field as a sender fills it from valid text: the text in UTF-8, then
/// NUL bytes, at least one, up to the end.
pub open spec fn well_filled(field: Seq<u8>) -> bool {
    &&& text_len(field) < field.len()
    &&& valid_utf8(field_text(field))
    &&& forall|i: int| text_len(field) <= i < field.len() ==> field[i] == 0
}

/// Filling a field anew from the text that was read out of it gives the
/// field back, where the field was well filled.
pub proof fn lemma_field_bytes_round_trip(field: Seq<u8>)
    requires
        well_filled(field),
    ensures
        fixed_field(encode_utf8(field_string(field)), field.len()) == field,
{
    let text = field_text(field);
    lemma_text_len(field);
    decode_utf8_encode_utf8(text);
    assert(fixed_field(text, field.len()) =~= field);
}

/// A payload of twelve bytes, read as an editor window and written anew, is
/// the same payload.
pub proof fn lemma_editor_payload_round_trip(b: Seq<u8>)
    requires
        b.len() == 12,
    ensures
        RespEditorInfo::decode(b) is Some,
        RespEditorInfo::decode(b).unwrap().encode() == b,
{
    lemma_u32_from_le_inverse(b.subrange(0, 4));
    lemma_u32_from_le_inverse(b.subrange(4, 8));
    lemma_u32_from_le_inverse(b.subrange(8, 12));
    assert(b.subrange(0, 4) + b.subrange(4, 8) + b.subrange(8, 12) =~= b);
}

/// A payload of 720 bytes with well-filled text fields, read as a plug-in's
/// description and written anew, is the same payload.
pub proof fn lemma_plugin_payload_round_trip(b: Seq<u8>)
    requires
        b.len() == 720,
        well_filled(b.subrange(0, 256)),
        well_filled(b.subrange(256, 512)),
        well_filled(b.subrange(512, 640)),
        well_filled(b.subrange(640, 704)),
    ensures
        RespPluginInfoView::decode(b) is Some,
        RespPluginInfoView::decode(b).unwrap().encode() == b,
{
    lemma_field_bytes_round_trip(b.subrange(0, 256));
    lemma_field_bytes_round_trip(b.subrange(256, 512));
    lemma_field_bytes_round_trip(b.subrange(512, 640));
    lemma_field_bytes_round_trip(b.subrange(640, 704));
    lemma_u32_from_le_inverse(b.subrange(704, 708));
    lemma_u32_from_le_inverse(b.subrange(708, 712));
    lemma_u32_from_le_inverse(b.subrange(712, 716));
    lemma_u32_from_le_inverse(b.subrange(716, 720));
    assert(b.subrange(0, 256) + b.subrange(256, 512) + b.subrange(512, 640) + b.subrange(640, 704)
        + b.subrange(704, 708) + b.subrange(708, 712) + b.subrange(712, 716) + b.subrange(
        716,
        720,
    ) =~= b);
}

/// A payload of 196 bytes with well-filled text fields and four NUL bytes at
/// its end, read as a parameter's description and written anew, is the same
/// payload.
pub proof fn lemma_param_payload_round_trip(b: Seq<u8>)
    requires
        b.len() == 196,
        well_filled(b.subrange(4, 132)),
        well_filled(b.subrange(132, 164)),
        b.subrange(192, 196) == u32_le(0),
    ensures
        RespParamInfoView::decode(b) is Some,
        RespParamInfoView::decode(b).unwrap().encode() == b,
{
    lemma_field_bytes_round_trip(b.subrange(4, 132));
    lemma_field_bytes_round_trip(b.subrange(132, 164));
    lemma_u32_from_le_inverse(b.subrange(0, 4));
    lemma_u64_from_le_inverse(b.subrange(164, 172));
    lemma_u64_from_le_inverse(b.subrange(172, 180));
    lemma_u64_from_le_inverse(b.subrange(180, 188));
    lemma_u32_from_le_inverse(b.subrange(188, 192));
    assert(b.subrange(0, 4) + b.subrange(4, 132) + b.subrange(132, 164) + b.subrange(164, 172)
        + b.subrange(172, 180) + b.subrange(180, 188) + b.subrange(188, 192) + b.subrange(
        192,
        196,
    ) =~= b);
}

} // verus!
