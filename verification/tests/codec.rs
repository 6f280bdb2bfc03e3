use rack_wine::bytes::{
    append, fill_field, read_u32, read_u64, text_end, u32_to_le, u64_to_le, write_u32,
    write_words,
};
use rack_wine::protocol::{
    CmdInitAudio, CmdMidi, CmdParam, MidiEvent, ParamChangeEvent, RespEditorInfo, RespParamInfo,
    RespPluginInfo, ShmHeader,
};
use rack_wine::text::{decimal_string, lossy_string, read_string};

#[test]
fn integers_are_little_endian() {
    assert_eq!(u32_to_le(0x1234_5678), [0x78, 0x56, 0x34, 0x12]);
    assert_eq!(u32_to_le(0), [0, 0, 0, 0]);
    assert_eq!(u32_to_le(u32::MAX), [0xFF; 4]);
    assert_eq!(
        u64_to_le(0x0102_0304_0506_0708),
        [0x08, 0x07, 0x06, 0x05, 0x04, 0x03, 0x02, 0x01]
    );
    assert_eq!(u64_to_le(u64::MAX), [0xFF; 8]);
}

#[test]
fn integers_read_back_from_any_offset() {
    let buf = [0xAA, 0x78, 0x56, 0x34, 0x12, 0x01, 0x00, 0x00, 0x00, 0xBB];
    assert_eq!(read_u32(&buf, 1), 0x1234_5678);
    assert_eq!(read_u64(&buf, 1), 0x0000_0001_1234_5678);
    assert_eq!(read_u32(&u32_to_le(0xDEAD_BEEF), 0), 0xDEAD_BEEF);
    assert_eq!(read_u64(&u64_to_le(0xFEED_FACE_CAFE_F00D), 0), 0xFEED_FACE_CAFE_F00D);
    assert_eq!(1.5f64.to_le_bytes(), u64_to_le(1.5f64.to_bits()));
}

#[test]
fn write_u32_changes_four_bytes_only() {
    let mut buf = [0x11u8; 8];
    write_u32(&mut buf, 2, 0x0403_0201);
    assert_eq!(buf, [0x11, 0x11, 0x01, 0x02, 0x03, 0x04, 0x11, 0x11]);
}

#[test]
fn write_words_writes_the_first_count_words() {
    let mut buf = [0xEEu8; 14];
    write_words(&mut buf, 1, &[1, 0x0200, 0xFFFF_FFFF], 2);
    assert_eq!(
        buf,
        [0xEE, 1, 0, 0, 0, 0, 2, 0, 0, 0xEE, 0xEE, 0xEE, 0xEE, 0xEE]
    );
}

#[test]
fn append_keeps_what_was_there() {
    let mut buf = vec![1u8, 2];
    append(&mut buf, &[3, 4, 5]);
    append(&mut buf, &[]);
    assert_eq!(buf, [1, 2, 3, 4, 5]);
}

#[test]
fn field_text_ends_at_the_first_nul() {
    assert_eq!(text_end(b"abc\0def\0"), 3);
    assert_eq!(text_end(b"abc"), 3);
    assert_eq!(text_end(b"\0abc"), 0);
    assert_eq!(text_end(b""), 0);
}

#[test]
fn fill_field_truncates_and_pads() {
    let mut field = [0xFFu8; 6];
    fill_field(&mut field, b"ab");
    assert_eq!(&field, b"ab\0\0\0\0");
    fill_field(&mut field, b"abcdefgh");
    assert_eq!(&field, b"abcde\0");
    fill_field(&mut field, b"abcde");
    assert_eq!(&field, b"abcde\0");
    fill_field(&mut field, b"");
    assert_eq!(&field, b"\0\0\0\0\0\0");
    let mut one = [7u8; 1];
    fill_field(&mut one, b"x");
    assert_eq!(one, [0]);
    let mut none: [u8; 0] = [];
    fill_field(&mut none, b"x");
    assert_eq!(none, []);
}

#[test]
fn read_string_reads_the_whole_field_without_a_nul() {
    assert_eq!(read_string(b"abcd"), "abcd");
    assert_eq!(read_string(b"ab\0d"), "ab");
    assert_eq!(read_string(b"\0"), "");
    assert_eq!(read_string("gr\u{fc}n\0".as_bytes()), "gr\u{fc}n");
}

#[test]
fn read_string_replaces_invalid_utf8() {
    assert_eq!(read_string(&[0xFF, b'A', 0]), "\u{FFFD}A");
    assert_eq!(read_string(&[b'A', 0xC3, 0]), "A\u{FFFD}");
}

#[test]
fn lossy_string_keeps_valid_text_and_marks_the_rest() {
    assert_eq!(lossy_string(b"Z:/tmp/x-1"), "Z:/tmp/x-1");
    assert_eq!(lossy_string(b""), "");
    assert_eq!(lossy_string(&[0x7F, 0x00]), "\u{7f}\0");
    assert_eq!(lossy_string("\u{20ac}".as_bytes()), "\u{20ac}");
    assert_eq!(lossy_string(&[0xE2, 0x82]), "\u{FFFD}");
    assert_eq!(lossy_string(&[b'a', 0x80, b'b']), "a\u{FFFD}b");
}

#[test]
fn decimal_string_has_no_leading_zeros() {
    assert_eq!(decimal_string(0), "0");
    assert_eq!(decimal_string(7), "7");
    assert_eq!(decimal_string(10), "10");
    assert_eq!(decimal_string(47100), "47100");
    assert_eq!(decimal_string(1_000_000), "1000000");
    assert_eq!(decimal_string(u64::MAX), "18446744073709551615");
}

#[test]
fn init_audio_payload_has_eighty_bytes() {
    let bytes = CmdInitAudio::new(48000, 512, 2, 4, "Z:/tmp/rack-wine-audio-1-0").to_bytes();
    assert_eq!(bytes.len(), 80);
    assert_eq!(&bytes[0..4], &48000u32.to_le_bytes());
    assert_eq!(&bytes[4..8], &512u32.to_le_bytes());
    assert_eq!(&bytes[8..12], &2u32.to_le_bytes());
    assert_eq!(&bytes[12..16], &4u32.to_le_bytes());
    assert_eq!(&bytes[16..42], b"Z:/tmp/rack-wine-audio-1-0");
    assert!(bytes[42..].iter().all(|&b| b == 0));
}

#[test]
fn init_audio_truncates_the_name_at_63_bytes() {
    let long = "n".repeat(64);
    let cmd = CmdInitAudio::new(1, 2, 3, 4, &long);
    assert!(cmd.shm_name[..63].iter().all(|&b| b == b'n'));
    assert_eq!(cmd.shm_name[63], 0);
    let fits = "n".repeat(63);
    let cmd = CmdInitAudio::new(1, 2, 3, 4, &fits);
    assert!(cmd.shm_name[..63].iter().all(|&b| b == b'n'));
    assert_eq!(cmd.shm_name[63], 0);
}

#[test]
fn param_payload_is_id_then_value() {
    let cmd = CmdParam::new(0x0A0B_0C0D, 0.25f64.to_bits());
    let bytes = cmd.to_bytes();
    assert_eq!(bytes.len(), 12);
    assert_eq!(&bytes[0..4], &[0x0D, 0x0C, 0x0B, 0x0A]);
    assert_eq!(&bytes[4..12], &0.25f64.to_le_bytes());
}

#[test]
fn midi_header_is_the_event_count() {
    assert_eq!(CmdMidi { num_events: 3 }.to_bytes(), [3, 0, 0, 0]);
}

#[test]
fn midi_record_ends_in_a_padding_byte() {
    let e = MidiEvent::new(0x0102_0304, 0xB1, 7, 127);
    assert_eq!(e.data, [0xB1, 7, 127, 0]);
    assert_eq!(e.to_bytes(), [0x04, 0x03, 0x02, 0x01, 0xB1, 0x07, 0x7F, 0x00]);
}

#[test]
fn plugin_info_reads_flags_from_720_bytes_on() {
    let mut buf = vec![0u8; 720];
    buf[..3].copy_from_slice(b"Foo");
    buf[512..514].copy_from_slice(b"Fx");
    buf[640..644].copy_from_slice(b"ABCD");
    buf[716..720].copy_from_slice(&0x8000_0001u32.to_le_bytes());
    let info = RespPluginInfo::from_bytes(&buf).unwrap();
    assert_eq!(info.category, "Fx");
    assert_eq!(info.uid, "ABCD");
    assert_eq!(info.flags, 0x8000_0001);
    let info = RespPluginInfo::from_bytes(&buf[..719]).unwrap();
    assert_eq!(info.flags, 0);
}

#[test]
fn plugin_info_reads_a_field_without_a_nul_whole() {
    let mut buf = vec![0u8; 716];
    for b in buf[..256].iter_mut() {
        *b = b'a';
    }
    buf[256] = b'V';
    let info = RespPluginInfo::from_bytes(&buf).unwrap();
    assert_eq!(info.name, "a".repeat(256));
    assert_eq!(info.vendor, "V");
}

#[test]
fn plugin_info_round_trips() {
    let info = RespPluginInfo {
        name: "Surge XT".to_string(),
        vendor: "Surge Synth Team".to_string(),
        category: "Instrument|Synth".to_string(),
        uid: "5653545375726765".to_string(),
        num_params: 775,
        num_audio_inputs: 2,
        num_audio_outputs: 6,
        flags: 3,
    };
    let bytes = info.to_bytes();
    assert_eq!(bytes.len(), 720);
    let back = RespPluginInfo::from_bytes(&bytes).unwrap();
    assert_eq!(back.name, info.name);
    assert_eq!(back.vendor, info.vendor);
    assert_eq!(back.category, info.category);
    assert_eq!(back.uid, info.uid);
    assert_eq!(back.num_params, 775);
    assert_eq!(back.num_audio_inputs, 2);
    assert_eq!(back.num_audio_outputs, 6);
    assert_eq!(back.flags, 3);
    assert_eq!(back.to_bytes(), bytes);
}

#[test]
fn param_info_needs_196_bytes() {
    assert!(RespParamInfo::from_bytes(&[0u8; 195]).is_none());
    assert!(RespParamInfo::from_bytes(&[0u8; 196]).is_some());
    assert!(RespParamInfo::from_bytes(&[]).is_none());
}

#[test]
fn param_info_reads_its_fields_at_their_offsets() {
    let mut buf = vec![0u8; 196];
    buf[0..4].copy_from_slice(&42u32.to_le_bytes());
    buf[4..10].copy_from_slice(b"Cutoff");
    buf[132..134].copy_from_slice(b"Hz");
    buf[164..172].copy_from_slice(&440.0f64.to_le_bytes());
    buf[172..180].copy_from_slice(&20.0f64.to_le_bytes());
    buf[180..188].copy_from_slice(&20000.0f64.to_le_bytes());
    buf[188..192].copy_from_slice(&5u32.to_le_bytes());
    buf[192..196].copy_from_slice(&[9, 9, 9, 9]);
    let info = RespParamInfo::from_bytes(&buf).unwrap();
    assert_eq!(info.id, 42);
    assert_eq!(info.name, "Cutoff");
    assert_eq!(info.units, "Hz");
    assert_eq!(f64::from_bits(info.default_value_bits), 440.0);
    assert_eq!(f64::from_bits(info.min_value_bits), 20.0);
    assert_eq!(f64::from_bits(info.max_value_bits), 20000.0);
    assert_eq!(info.flags, 5);
}

#[test]
fn param_info_round_trips() {
    let info = RespParamInfo {
        id: 0xFFFF_0001,
        name: "Resonance".to_string(),
        units: "%".to_string(),
        default_value_bits: 0.5f64.to_bits(),
        min_value_bits: 0.0f64.to_bits(),
        max_value_bits: 1.0f64.to_bits(),
        flags: 1,
    };
    let bytes = info.to_bytes();
    assert_eq!(bytes.len(), 196);
    assert_eq!(&bytes[192..], &[0, 0, 0, 0]);
    let back = RespParamInfo::from_bytes(&bytes).unwrap();
    assert_eq!(back.id, info.id);
    assert_eq!(back.name, "Resonance");
    assert_eq!(back.units, "%");
    assert_eq!(back.default_value_bits, info.default_value_bits);
    assert_eq!(back.min_value_bits, info.min_value_bits);
    assert_eq!(back.max_value_bits, info.max_value_bits);
    assert_eq!(back.flags, 1);
}

#[test]
fn editor_info_needs_twelve_bytes_and_round_trips() {
    assert!(RespEditorInfo::from_bytes(&[0u8; 11]).is_none());
    let e = RespEditorInfo { x11_window_id: 0x0440_0007, width: 800, height: 600 };
    let bytes = e.to_bytes();
    assert_eq!(bytes, [0x07, 0x00, 0x40, 0x04, 0x20, 0x03, 0, 0, 0x58, 0x02, 0, 0]);
    assert_eq!(RespEditorInfo::from_bytes(&bytes), Some(e));
    let mut longer = bytes.clone();
    longer.push(0xFF);
    assert_eq!(RespEditorInfo::from_bytes(&longer), Some(e));
}

#[test]
fn param_change_needs_twelve_bytes() {
    assert_eq!(ParamChangeEvent::from_bytes(&[0u8; 11]), None);
    let mut buf = [0u8; 12];
    buf[0..4].copy_from_slice(&9u32.to_le_bytes());
    buf[4..12].copy_from_slice(&0.75f64.to_le_bytes());
    assert_eq!(
        ParamChangeEvent::from_bytes(&buf),
        Some(ParamChangeEvent { param_id: 9, value_bits: 0.75f64.to_bits() })
    );
}

#[test]
fn shm_header_has_fourteen_words() {
    assert_eq!(ShmHeader::SIZE, 56);
    let h = ShmHeader {
        magic: 0x52574153,
        version: 1,
        num_inputs: 2,
        num_outputs: 3,
        block_size: 512,
        sample_rate: 44100,
        host_ready: 0,
        client_ready: 0,
        input_offset: 56,
        output_offset: 56 + 2 * 512 * 4,
        reserved: [10, 11, 12, 13],
    };
    let bytes = h.to_bytes();
    assert_eq!(&bytes[0..4], b"SAWR");
    assert_eq!(&bytes[36..40], &4152u32.to_le_bytes());
    assert_eq!(&bytes[52..56], &13u32.to_le_bytes());
    let back = ShmHeader::from_bytes(&bytes).unwrap();
    assert_eq!(back.magic, h.magic);
    assert_eq!(back.version, 1);
    assert_eq!(back.num_inputs, 2);
    assert_eq!(back.num_outputs, 3);
    assert_eq!(back.block_size, 512);
    assert_eq!(back.sample_rate, 44100);
    assert_eq!(back.input_offset, 56);
    assert_eq!(back.output_offset, 4152);
    assert_eq!(back.reserved, [10, 11, 12, 13]);
    assert!(ShmHeader::from_bytes(&bytes[..55]).is_none());
}

#[test]
fn shm_header_is_written_only_where_it_fits() {
    let h = ShmHeader {
        magic: 1,
        version: 2,
        num_inputs: 3,
        num_outputs: 4,
        block_size: 5,
        sample_rate: 6,
        host_ready: 7,
        client_ready: 8,
        input_offset: 9,
        output_offset: 10,
        reserved: [11, 12, 13, 14],
    };
    let mut small = [0xABu8; 55];
    assert!(!h.write_to(&mut small));
    assert_eq!(small, [0xABu8; 55]);
    let mut region = [0xABu8; 60];
    assert!(h.write_to(&mut region));
    assert_eq!(&region[..56], &h.to_bytes());
    assert_eq!(&region[56..], &[0xAB; 4]);
}

#[test]
fn default_replies_are_empty() {
    let info = RespPluginInfo::default();
    assert_eq!(info.name, "");
    assert_eq!(info.vendor, "");
    assert_eq!(info.category, "");
    assert_eq!(info.uid, "");
    assert_eq!(
        (info.num_params, info.num_audio_inputs, info.num_audio_outputs, info.flags),
        (0, 0, 0, 0)
    );
    assert_eq!(info.to_bytes(), vec![0u8; 720]);
    assert_eq!(
        RespEditorInfo::default(),
        RespEditorInfo { x11_window_id: 0, width: 0, height: 0 }
    );
}
