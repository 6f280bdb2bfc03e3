use rack_wine::midi::{MidiEvent, MidiEventKind};
use rack_wine::protocol::{
    CmdLoadPlugin, CmdProcessAudio, Header, HostCommand, RespPluginInfo, ResponseHeader, Status,
};

fn plugin_info_payload(name: &str, vendor: &str, counts: (u32, u32, u32), len: usize) -> Vec<u8> {
    let mut buf = vec![0u8; len];
    buf[..name.len()].copy_from_slice(name.as_bytes());
    buf[256..256 + vendor.len()].copy_from_slice(vendor.as_bytes());
    buf[704..708].copy_from_slice(&counts.0.to_le_bytes());
    buf[708..712].copy_from_slice(&counts.1.to_le_bytes());
    buf[712..716].copy_from_slice(&counts.2.to_le_bytes());
    buf
}

#[test]
fn short_plugin_info_is_absent() {
    assert!(RespPluginInfo::from_bytes(&[0u8; 715]).is_none());
}

#[test]
fn exact_size_plugin_info_decodes_with_zero_flags() {
    let buf = plugin_info_payload("Foo", "Bar", (2, 2, 2), 716);
    let info = RespPluginInfo::from_bytes(&buf).expect("716 bytes are enough");
    assert_eq!(info.name, "Foo");
    assert_eq!(info.vendor, "Bar");
    assert_eq!(info.category, "");
    assert_eq!(info.uid, "");
    assert_eq!(info.num_params, 2);
    assert_eq!(info.num_audio_inputs, 2);
    assert_eq!(info.num_audio_outputs, 2);
    assert_eq!(info.flags, 0);
}

#[test]
fn header_for_load_plugin_has_the_documented_bytes() {
    let bytes = Header::new(HostCommand::LoadPlugin, 1028).to_bytes();
    assert_eq!(&bytes[0..4], &[0x52, 0x57, 0x4E, 0x48]);
    assert_eq!(&bytes[4..8], &[0x01, 0x00, 0x00, 0x00]);
    assert_eq!(&bytes[8..12], &[0x02, 0x00, 0x00, 0x00]);
    assert_eq!(&bytes[12..16], &[0x04, 0x04, 0x00, 0x00]);
}

#[test]
fn note_on_encodes_to_the_documented_record() {
    let event = MidiEvent {
        sample_offset: 128,
        kind: MidiEventKind::NoteOn { note: 60, velocity: 100, channel: 0 },
    };
    let record = event.to_wire().expect("a note is sent");
    assert_eq!(record.to_bytes(), [0x80, 0x00, 0x00, 0x00, 0x90, 0x3C, 0x64, 0x00]);
}

#[test]
fn pitch_bend_splits_into_two_seven_bit_halves() {
    let kind = MidiEventKind::PitchBend { value: 8192, channel: 3 };
    assert_eq!(kind.to_raw(), Some((0xE3, 0x00, 0x40)));
}

#[test]
fn header_round_trips() {
    let h = Header::new(HostCommand::Shutdown, 0xDEAD_BEEF);
    let back = Header::from_bytes(&h.to_bytes());
    assert_eq!(back, h);
    assert_eq!(back.magic, 0x484E5752);
    assert_eq!(back.version, 1);
    assert_eq!(back.command, 99);
    assert_eq!(back.payload_size, 0xDEAD_BEEF);
}

#[test]
fn response_header_reads_three_words() {
    let mut buf = [0u8; 12];
    buf[0..4].copy_from_slice(&0x524E5752u32.to_le_bytes());
    buf[4..8].copy_from_slice(&3u32.to_le_bytes());
    buf[8..12].copy_from_slice(&77u32.to_le_bytes());
    let h = ResponseHeader::from_bytes(&buf);
    assert_eq!(h.magic, 0x524E5752);
    assert_eq!(h.status(), Status::NotInitialized);
    assert_eq!(h.payload_size, 77);
}

#[test]
fn unknown_status_reads_as_error() {
    assert_eq!(Status::from(0), Status::Success);
    assert_eq!(Status::from(1), Status::Error);
    assert_eq!(Status::from(2), Status::NotLoaded);
    assert_eq!(Status::from(3), Status::NotInitialized);
    assert_eq!(Status::from(4), Status::InvalidParam);
    assert_eq!(Status::from(5), Status::Error);
    assert_eq!(Status::from(u32::MAX), Status::Error);
}

#[test]
fn load_plugin_truncates_the_path_at_1023_bytes() {
    let long = "p".repeat(2000);
    let bytes = CmdLoadPlugin::new(&long, 7).to_bytes();
    assert_eq!(bytes.len(), 1028);
    assert!(bytes[..1023].iter().all(|&b| b == b'p'));
    assert_eq!(bytes[1023], 0);
    assert_eq!(&bytes[1024..], &[7, 0, 0, 0]);
}

#[test]
fn process_audio_payload_is_the_frame_count() {
    assert_eq!(CmdProcessAudio::new(512).to_bytes(), [0x00, 0x02, 0x00, 0x00]);
}
