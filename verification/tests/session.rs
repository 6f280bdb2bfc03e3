use rack_wine::client::Request;
use rack_wine::error::{Error, Fault, SetupFault};
use rack_wine::midi::{MidiEvent, MidiEventKind};
use rack_wine::plugin::PluginType;
use rack_wine::protocol::{HostCommand, RespParamInfo, RespPluginInfo, ShmHeader};
use rack_wine::session::{LoadStage, LoadStep, Loader, Teardown, WineVst3Plugin};

fn descriptor(params: u32, inputs: u32, outputs: u32) -> RespPluginInfo {
    RespPluginInfo {
        name: "Echo".to_string(),
        vendor: "Acme".to_string(),
        category: "Fx".to_string(),
        uid: "ABCDEF".to_string(),
        num_params: params,
        num_audio_inputs: inputs,
        num_audio_outputs: outputs,
        flags: 0,
    }
}

fn param(id: u32, name: &str) -> RespParamInfo {
    RespParamInfo {
        id,
        name: name.to_string(),
        units: "dB".to_string(),
        default_value_bits: 0.5f64.to_bits(),
        min_value_bits: 0.0f64.to_bits(),
        max_value_bits: 1.0f64.to_bits(),
        flags: 0,
    }
}

fn session(inputs: u32, outputs: u32) -> WineVst3Plugin {
    WineVst3Plugin::connected(
        "/plugins/Echo.vst3",
        descriptor(2, inputs, outputs),
        vec![param(100, "Mix"), param(200, "Time")],
    )
    .unwrap()
}

fn armed(inputs: u32, outputs: u32, block: usize) -> (WineVst3Plugin, Vec<u8>) {
    let mut s = session(inputs, outputs);
    let plane = s.begin_initialize(48000, block).unwrap();
    let mut region = vec![0u8; plane.region_size()];
    plane.stamp(&mut region).unwrap();
    s.finish_initialize(Ok(vec![])).unwrap();
    (s, region)
}

fn send(step: LoadStep) -> (Loader, Request) {
    match step {
        LoadStep::Send(loader, request) => (loader, request),
        other => panic!("expected a request, got {:?}", other),
    }
}

#[test]
fn loading_asks_in_the_documented_order() {
    let (loader, first) = Loader::start("/plugins/Echo.vst3");
    assert_eq!(loader.stage(), LoadStage::Ping);
    assert_eq!(first.command(), HostCommand::Ping);
    assert!(first.payload().is_empty());

    let (loader, load) = send(loader.advance(Ok(vec![])));
    assert_eq!(loader.stage(), LoadStage::LoadPlugin);
    assert_eq!(load.command(), HostCommand::LoadPlugin);
    assert_eq!(&load.payload()[..20], b"Z:/plugins/Echo.vst3");
    assert_eq!(load.payload()[20], 0);
    assert_eq!(&load.payload()[1024..], &[0, 0, 0, 0]);

    let (loader, info) = send(loader.advance(Ok(vec![])));
    assert_eq!(loader.stage(), LoadStage::GetInfo);
    assert_eq!(info.command(), HostCommand::GetInfo);

    let (loader, p0) = send(loader.advance(Ok(descriptor(2, 2, 2).to_bytes())));
    assert_eq!(loader.stage(), LoadStage::ParamInfo);
    assert_eq!(p0.command(), HostCommand::GetParamInfo);
    assert_eq!(p0.payload(), &[0, 0, 0, 0]);

    let (loader, p1) = send(loader.advance(Ok(param(100, "Mix").to_bytes())));
    assert_eq!(p1.command(), HostCommand::GetParamInfo);
    assert_eq!(p1.payload(), &[1, 0, 0, 0]);

    match loader.advance(Ok(param(200, "Time").to_bytes())) {
        LoadStep::Ready(session) => {
            assert_eq!(session.parameter_count(), 2);
            assert_eq!(session.descriptor().num_params, 2);
            assert_eq!(session.parameter_info(0).unwrap().id, 100);
            assert_eq!(session.parameter_info(1).unwrap().name, "Time");
            assert!(!session.is_initialized());
            let info = session.info();
            assert_eq!(info.name, "Echo");
            assert_eq!(info.manufacturer, "Acme");
            assert_eq!(info.version, 0);
            assert_eq!(info.plugin_type, PluginType::Effect);
            assert_eq!(info.path, "/plugins/Echo.vst3");
            assert_eq!(info.unique_id, "ABCDEF");
        },
        other => panic!("expected a session, got {:?}", other),
    }
}

#[test]
fn a_plugin_without_parameters_is_ready_after_its_description() {
    let (loader, _) = Loader::start("relative.vst3");
    let (loader, load) = send(loader.advance(Ok(vec![])));
    assert_eq!(&load.payload()[..14], b"relative.vst3\0");
    let (loader, _) = send(loader.advance(Ok(vec![])));
    match loader.advance(Ok(descriptor(0, 1, 1).to_bytes())) {
        LoadStep::Ready(session) => assert_eq!(session.parameter_count(), 0),
        other => panic!("expected a session, got {:?}", other),
    }
}

#[test]
fn any_failed_exchange_ends_loading() {
    let (loader, _) = Loader::start("/p.vst3");
    assert!(matches!(loader.advance(Err(Error::Worker)), LoadStep::Failed(Error::Worker)));

    let (loader, _) = Loader::start("/p.vst3");
    let (loader, _) = send(loader.advance(Ok(vec![])));
    assert!(matches!(
        loader.advance(Err(Error::NotInitialized)),
        LoadStep::Failed(Error::NotInitialized)
    ));

    let (loader, _) = Loader::start("/p.vst3");
    let (loader, _) = send(loader.advance(Ok(vec![])));
    let (loader, _) = send(loader.advance(Ok(vec![])));
    assert!(matches!(
        loader.advance(Ok(vec![0u8; 715])),
        LoadStep::Failed(Error::Transport(Fault::MalformedReply))
    ));

    let (loader, _) = Loader::start("/p.vst3");
    let (loader, _) = send(loader.advance(Ok(vec![])));
    let (loader, _) = send(loader.advance(Ok(vec![])));
    let (loader, _) = send(loader.advance(Ok(descriptor(3, 2, 2).to_bytes())));
    let (loader, _) = send(loader.advance(Ok(param(1, "a").to_bytes())));
    assert!(matches!(
        loader.advance(Err(Error::InvalidParameter(0))),
        LoadStep::Failed(Error::InvalidParameter(0))
    ));

    let (loader, _) = Loader::start("/p.vst3");
    let (loader, _) = send(loader.advance(Ok(vec![])));
    let (loader, _) = send(loader.advance(Ok(vec![])));
    let (loader, _) = send(loader.advance(Ok(descriptor(1, 2, 2).to_bytes())));
    assert!(matches!(
        loader.advance(Ok(vec![0u8; 195])),
        LoadStep::Failed(Error::Transport(Fault::MalformedReply))
    ));
}

#[test]
fn a_session_has_one_description_for_each_announced_parameter() {
    assert!(WineVst3Plugin::connected("/p", descriptor(2, 2, 2), vec![param(1, "a")]).is_none());
    assert!(WineVst3Plugin::connected("/p", descriptor(0, 2, 2), vec![param(1, "a")]).is_none());
    let s = WineVst3Plugin::connected("/p", descriptor(1, 2, 2), vec![param(1, "a")]).unwrap();
    assert_eq!(s.parameter_count(), 1);
    assert_eq!(s.parameter_count() as u32, s.descriptor().num_params);
}

#[test]
fn parameters_are_found_by_index_and_sent_by_id() {
    let s = session(2, 2);
    assert_eq!(s.parameter_info(1).unwrap().id, 200);
    assert_eq!(s.parameter_info(2).unwrap_err(), Error::InvalidParameter(2));

    let set = s.set_parameter(1, 0.25f64.to_bits()).unwrap();
    assert_eq!(set.command(), HostCommand::SetParam);
    assert_eq!(&set.payload()[..4], &200u32.to_le_bytes());
    assert_eq!(&set.payload()[4..], &0.25f64.to_le_bytes());
    assert_eq!(s.set_parameter(2, 0).unwrap_err(), Error::InvalidParameter(2));
    assert_eq!(s.set_parameter(usize::MAX, 0).unwrap_err(), Error::InvalidParameter(usize::MAX));

    let get = s.get_parameter(0).unwrap();
    assert_eq!(get.command(), HostCommand::GetParam);
    assert_eq!(&get.payload()[..4], &100u32.to_le_bytes());
    assert_eq!(&get.payload()[4..], &[0u8; 8]);
    assert_eq!(s.get_parameter(2).unwrap_err(), Error::InvalidParameter(2));

}

#[test]
fn every_channel_message_has_its_status_nibble() {
    let kinds = [
        (MidiEventKind::NoteOn { note: 1, velocity: 2, channel: 5 }, (0x95, 1, 2)),
        (MidiEventKind::NoteOff { note: 1, velocity: 2, channel: 5 }, (0x85, 1, 2)),
        (MidiEventKind::ControlChange { controller: 7, value: 127, channel: 15 }, (0xBF, 7, 127)),
        (MidiEventKind::ProgramChange { program: 9, channel: 0 }, (0xC0, 9, 0)),
        (MidiEventKind::PitchBend { value: 0x3FFF, channel: 1 }, (0xE1, 0x7F, 0x7F)),
        (MidiEventKind::PitchBend { value: 0, channel: 1 }, (0xE1, 0, 0)),
        (MidiEventKind::PitchBend { value: 0xFFFF, channel: 1 }, (0xE1, 0x7F, 0x7F)),
        (MidiEventKind::PitchBend { value: 0x0080, channel: 1 }, (0xE1, 0, 1)),
        (MidiEventKind::PolyphonicAftertouch { note: 3, pressure: 4, channel: 2 }, (0xA2, 3, 4)),
        (MidiEventKind::ChannelAftertouch { pressure: 6, channel: 3 }, (0xD3, 6, 0)),
        (MidiEventKind::NoteOn { note: 1, velocity: 2, channel: 0x1F }, (0x9F, 1, 2)),
        (MidiEventKind::NoteOn { note: 1, velocity: 2, channel: 0xF0 }, (0x90, 1, 2)),
    ];
    for (kind, raw) in kinds {
        assert_eq!(kind.to_raw(), Some(raw), "{:?}", kind);
        assert!(MidiEvent { sample_offset: 9, kind }.to_wire().is_some());
    }
}

#[test]
fn system_real_time_events_have_no_wire_form() {
    let kinds = [
        MidiEventKind::TimingClock,
        MidiEventKind::Start,
        MidiEventKind::Continue,
        MidiEventKind::Stop,
        MidiEventKind::ActiveSensing,
        MidiEventKind::SystemReset,
    ];
    for kind in kinds {
        assert_eq!(kind.to_raw(), None, "{:?}", kind);
        assert!(MidiEvent { sample_offset: 9, kind }.to_wire().is_none());
    }
}

#[test]
fn send_midi_drops_system_real_time_events() {
    let s = session(2, 2);
    let events = [
        MidiEvent {
            sample_offset: 128,
            kind: MidiEventKind::NoteOn { note: 60, velocity: 100, channel: 0 },
        },
        MidiEvent { sample_offset: 0, kind: MidiEventKind::Start },
        MidiEvent {
            sample_offset: 256,
            kind: MidiEventKind::PitchBend { value: 8192, channel: 3 },
        },
        MidiEvent { sample_offset: 300, kind: MidiEventKind::TimingClock },
    ];
    let r = s.send_midi(&events).unwrap();
    assert_eq!(r.command(), HostCommand::SendMidi);
    assert_eq!(
        r.payload(),
        &[
            2, 0, 0, 0, //
            0x80, 0, 0, 0, 0x90, 0x3C, 0x64, 0, //
            0, 1, 0, 0, 0xE3, 0x00, 0x40, 0,
        ]
    );
    assert_eq!(s.send_midi(&[]).unwrap().payload(), &[0, 0, 0, 0]);
    let clock = [MidiEvent { sample_offset: 0, kind: MidiEventKind::TimingClock }];
    assert_eq!(s.send_midi(&clock).unwrap().payload(), &[0, 0, 0, 0]);
    let all_dropped = [
        MidiEvent { sample_offset: 1, kind: MidiEventKind::Stop },
        MidiEvent { sample_offset: 2, kind: MidiEventKind::ActiveSensing },
        MidiEvent { sample_offset: 3, kind: MidiEventKind::SystemReset },
        MidiEvent { sample_offset: 4, kind: MidiEventKind::Continue },
    ];
    let r = s.send_midi(&all_dropped).unwrap();
    assert_eq!(r.payload().len(), 4);
    assert_eq!(r.payload(), &[0, 0, 0, 0]);
}

#[test]
fn editor_replies_give_window_and_size() {
    let mut s = session(2, 2);
    assert_eq!(s.open_editor().unwrap().command(), HostCommand::OpenEditor);
    assert_eq!(s.close_editor().unwrap().command(), HostCommand::CloseEditor);
    assert_eq!(s.get_param_changes().unwrap().command(), HostCommand::GetParamChanges);
    assert_eq!(s.shutdown().unwrap().command(), HostCommand::Shutdown);
    assert!(s.open_editor().unwrap().payload().is_empty());
    assert_eq!(
        s.editor_opened(Ok(vec![0x10, 0, 0x40, 0, 0x20, 3, 0, 0, 0x58, 2, 0, 0])),
        Ok((0x0040_0010, 800, 600))
    );
    assert_eq!(s.editor_opened(Err(Error::Worker)), Err(Error::Worker));
    assert_eq!(s.guard(), Ok(()));
    let mut payload = 2u32.to_le_bytes().to_vec();
    payload.extend_from_slice(&100u32.to_le_bytes());
    payload.extend_from_slice(&0.5f64.to_le_bytes());
    payload.extend_from_slice(&200u32.to_le_bytes());
    payload.extend_from_slice(&(-1.0f64).to_le_bytes());
    assert_eq!(
        s.param_changes(Ok(payload)),
        Ok(vec![(100, 0.5f64.to_bits()), (200, (-1.0f64).to_bits())])
    );
    assert_eq!(s.param_changes(Ok(vec![])), Ok(vec![]));
    assert_eq!(s.param_changes(Err(Error::NotInitialized)), Err(Error::NotInitialized));
    assert_eq!(s.settle(Ok(vec![1, 2])), Ok(vec![1, 2]));
    assert_eq!(s.settle(Err(Error::InvalidParameter(0))), Err(Error::InvalidParameter(0)));
    assert_eq!(s.guard(), Ok(()));
    assert_eq!(s.closed(), None);
}

#[test]
fn a_wrong_reply_magic_ends_the_session() {
    let mut s = session(2, 2);
    assert_eq!(s.guard(), Ok(()));
    let fault = Error::Transport(Fault::BadMagic);
    assert_eq!(s.settle(Err(fault)), Err(fault));
    assert_eq!(s.closed(), Some(Fault::BadMagic));
    assert_eq!(s.guard(), Err(fault));
    assert!(s.guard().unwrap_err().is_fatal());

    assert_eq!(s.open_editor().unwrap_err(), fault);
    assert_eq!(s.close_editor().unwrap_err(), fault);
    assert_eq!(s.get_param_changes().unwrap_err(), fault);
    assert_eq!(s.shutdown().unwrap_err(), fault);
    assert_eq!(s.get_parameter(0).unwrap_err(), fault);
    assert_eq!(s.get_parameter(99).unwrap_err(), fault);
    assert_eq!(s.set_parameter(0, 0).unwrap_err(), fault);
    assert_eq!(s.send_midi(&[]).unwrap_err(), fault);
    assert_eq!(s.begin_initialize(48000, 64).unwrap_err(), fault);
    assert_eq!(s.init_audio_stamped(&[0u8; 128], "/tmp/x").unwrap_err(), fault);
    let mut region = vec![0u8; 128];
    assert_eq!(s.begin_process(&mut region, &[], 0).unwrap_err(), fault);
    assert_eq!(region, vec![0u8; 128]);
    let mut outputs = vec![vec![1u32; 2]];
    assert_eq!(s.finish_process(&region, Ok(vec![]), &mut outputs, 0), Err(fault));
    assert_eq!(outputs, vec![vec![1u32; 2]]);

    assert_eq!(s.settle(Err(Error::Transport(Fault::Io))), Err(Error::Transport(Fault::Io)));
    assert_eq!(s.closed(), Some(Fault::BadMagic));
    assert_eq!(s.settle(Ok(vec![])), Ok(vec![]));
    assert_eq!(s.guard(), Err(fault));
    assert_eq!(s.parameter_count(), 2);
    assert_eq!(s.parameter_info(0).unwrap().id, 100);
}

#[test]
fn every_transport_fault_ends_the_session() {
    let mut s = session(2, 2);
    assert_eq!(s.parameter_value(Ok(vec![0u8; 7])), Err(Error::Transport(Fault::MalformedReply)));
    assert_eq!(s.closed(), Some(Fault::MalformedReply));

    let mut s = session(2, 2);
    assert_eq!(s.editor_opened(Ok(vec![0u8; 11])), Err(Error::Transport(Fault::MalformedReply)));
    assert_eq!(s.guard(), Err(Error::Transport(Fault::MalformedReply)));

    let mut s = session(2, 2);
    assert_eq!(
        s.param_changes(Err(Error::Transport(Fault::Io))),
        Err(Error::Transport(Fault::Io))
    );
    assert_eq!(s.guard(), Err(Error::Transport(Fault::Io)));

    let mut s = session(2, 2);
    s.begin_initialize(48000, 64).unwrap();
    assert_eq!(
        s.finish_initialize(Err(Error::Transport(Fault::Io))),
        Err(Error::Transport(Fault::Io))
    );
    assert!(!s.is_initialized());
    assert_eq!(s.begin_initialize(48000, 64).unwrap_err(), Error::Transport(Fault::Io));

    let (mut s, region) = armed(1, 1, 4);
    let mut outputs = vec![vec![9u32; 4]];
    assert_eq!(
        s.finish_process(&region, Err(Error::Transport(Fault::Io)), &mut outputs, 4),
        Err(Error::Transport(Fault::Io))
    );
    assert_eq!(s.guard(), Err(Error::Transport(Fault::Io)));

    let (mut s, mut region) = armed(1, 1, 4);
    assert_eq!(
        s.begin_process(&mut region[..70], &[], 0).unwrap_err(),
        Error::Transport(Fault::CorruptRegion)
    );
    assert_eq!(s.guard(), Err(Error::Transport(Fault::CorruptRegion)));
}

#[test]
fn other_errors_leave_the_session_usable() {
    let (mut s, mut region) = armed(1, 1, 4);
    for e in [Error::Worker, Error::NotInitialized, Error::InvalidParameter(0)] {
        assert_eq!(s.settle(Err(e)), Err(e));
        assert_eq!(s.parameter_value(Err(e)), Err(e));
        let mut outputs = vec![vec![9u32; 4]];
        assert_eq!(s.finish_process(&region, Err(e), &mut outputs, 4), Err(e));
        assert_eq!(s.guard(), Ok(()));
    }
    assert_eq!(
        s.begin_process(&mut region, &[vec![1; 8]], 5).unwrap_err(),
        Error::InvalidParameter(5)
    );
    assert_eq!(s.guard(), Ok(()));
    assert_eq!(s.parameter_value(Ok(0.75f64.to_le_bytes().to_vec())), Ok(0.75f64.to_bits()));
    assert!(s.begin_process(&mut region, &[vec![1; 4]], 4).is_ok());
}

#[test]
fn presets_and_state_are_not_offered() {
    let mut s = session(2, 2);
    assert_eq!(s.preset_count(), Ok(0));
    assert_eq!(s.preset_info(0).unwrap_err(), Error::Unsupported);
    assert_eq!(s.load_preset(1), Err(Error::Unsupported));
    assert_eq!(s.get_state(), Err(Error::Unsupported));
    assert_eq!(s.set_state(&[1, 2, 3]), Err(Error::Unsupported));
    assert_eq!(s.reset(), Ok(()));
    assert_eq!(s.parameter_count(), 2);
}

#[test]
fn arming_lays_out_stamps_and_waits_for_the_worker() {
    let mut s = session(2, 3);
    assert!(!s.is_initialized());
    assert!(s.plane().is_none());
    assert_eq!(s.init_audio_stamped(&[], "/tmp/x").unwrap_err(), Error::NotInitialized);
    assert_eq!(s.finish_initialize(Ok(vec![])), Err(Error::NotInitialized));

    let plane = s.begin_initialize(48000, 512).unwrap();
    assert_eq!(plane.num_inputs(), 2);
    assert_eq!(plane.num_outputs(), 3);
    assert_eq!(plane.block_size(), 512);
    assert_eq!(plane.sample_rate(), 48000);
    assert_eq!(plane.region_size(), 56 + 5 * 512 * 4);
    assert!(!s.is_initialized());

    let mut region = vec![0xFFu8; plane.region_size()];
    assert_eq!(
        s.init_audio_stamped(&region, "/tmp/rack-wine-audio-77-3").unwrap_err(),
        Error::Setup(SetupFault::SharedMemory)
    );
    assert_eq!(plane.stamp(&mut region), Ok(()));
    let h = ShmHeader::from_bytes(&region).unwrap();
    assert_eq!(h.magic, 0x52574153);
    assert_eq!(h.version, 1);
    assert_eq!(h.input_offset, 56);
    assert_eq!(h.output_offset, 56 + 2 * 512 * 4);
    assert!(region.len() >= (h.output_offset + 3 * 512 * 4) as usize);

    assert_eq!(
        s.init_audio_stamped(&region[..region.len() - 1], "/tmp/x").unwrap_err(),
        Error::Setup(SetupFault::SharedMemory)
    );
    let mut smudged = region.clone();
    smudged[55] ^= 1;
    assert_eq!(
        s.init_audio_stamped(&smudged, "/tmp/x").unwrap_err(),
        Error::Setup(SetupFault::SharedMemory)
    );
    let request = s.init_audio_stamped(&region, "/tmp/rack-wine-audio-77-3").unwrap();
    assert_eq!(request.command(), HostCommand::InitAudio);
    assert_eq!(&request.payload()[0..4], &48000u32.to_le_bytes());
    assert_eq!(&request.payload()[4..8], &512u32.to_le_bytes());
    assert_eq!(&request.payload()[8..12], &2u32.to_le_bytes());
    assert_eq!(&request.payload()[12..16], &3u32.to_le_bytes());
    assert_eq!(&request.payload()[16..44], b"Z:/tmp/rack-wine-audio-77-3\0");

    assert_eq!(s.finish_initialize(Ok(vec![])), Ok(()));
    assert!(s.is_initialized());
    assert_eq!(s.plane().unwrap().block_size(), 512);
}

#[test]
fn a_refused_plane_leaves_the_session_unarmed() {
    let mut s = session(2, 2);
    s.begin_initialize(48000, 64).unwrap();
    assert_eq!(s.finish_initialize(Err(Error::Worker)), Err(Error::Worker));
    assert!(!s.is_initialized());
    assert_eq!(s.init_audio_stamped(&[], "/tmp/x").unwrap_err(), Error::NotInitialized);
    assert!(s.begin_initialize(48000, 64).is_ok());
    assert!(s.begin_initialize(44100, 128).is_ok());
    assert_eq!(s.finish_initialize(Ok(vec![])), Ok(()));
    assert_eq!(s.plane().unwrap().sample_rate(), 44100);
}

#[test]
fn an_armed_session_is_not_armed_again() {
    let (mut s, _) = armed(2, 2, 64);
    assert_eq!(
        s.begin_initialize(48000, 64).unwrap_err(),
        Error::Setup(SetupFault::AlreadyArmed)
    );
    assert!(s.is_initialized());
    assert_eq!(s.plane().unwrap().block_size(), 64);
    assert_eq!(s.finish_initialize(Ok(vec![])), Err(Error::NotInitialized));
    assert!(s.is_initialized());
}

#[test]
fn a_plane_beyond_32_bits_is_refused() {
    let mut s = session(2, 2);
    assert_eq!(
        s.begin_initialize(48000, 0x4000_0000).unwrap_err(),
        Error::Setup(SetupFault::Geometry)
    );
    assert_eq!(
        s.begin_initialize(48000, usize::MAX).unwrap_err(),
        Error::Setup(SetupFault::Geometry)
    );
    assert!(!s.is_initialized());
    assert!(s.begin_initialize(48000, 0).is_ok());
}

#[test]
fn process_needs_an_armed_session() {
    let mut s = session(1, 1);
    let mut region = vec![0u8; 128];
    let before = region.clone();
    assert_eq!(
        s.begin_process(&mut region, &[vec![1, 2]], 2).unwrap_err(),
        Error::NotInitialized
    );
    assert_eq!(region, before);
    let mut outputs = vec![vec![7u32; 2]];
    assert_eq!(
        s.finish_process(&region, Ok(vec![]), &mut outputs, 2),
        Err(Error::NotInitialized)
    );
    assert_eq!(outputs, vec![vec![7u32; 2]]);
}

#[test]
fn process_round_trip_under_zero_input() {
    let (mut s, mut region) = armed(2, 2, 512);
    let inputs = vec![vec![0.0f32.to_bits(); 512], vec![0.0f32.to_bits(); 512]];
    let request = s.begin_process(&mut region, &inputs, 512).unwrap();
    assert_eq!(request.command(), HostCommand::ProcessAudio);
    assert_eq!(request.payload(), &512u32.to_le_bytes());
    let mut outputs = vec![vec![1.0f32.to_bits(); 512], vec![1.0f32.to_bits(); 512]];
    assert_eq!(s.finish_process(&region, Ok(vec![]), &mut outputs, 512), Ok(()));
    let max = outputs
        .iter()
        .flat_map(|ch| ch.iter())
        .map(|bits| f32::from_bits(*bits).abs())
        .fold(0.0f32, f32::max);
    assert!(max <= 1e-6);
}

#[test]
fn process_moves_a_block_in_and_out() {
    let (mut s, mut region) = armed(1, 1, 4);
    let inputs = vec![vec![11, 22, 33, 44], vec![55, 66, 77, 88]];
    let request = s.begin_process(&mut region, &inputs, 3).unwrap();
    assert_eq!(request.payload(), &[3, 0, 0, 0]);
    assert_eq!(&region[56..60], &11u32.to_le_bytes());
    assert_eq!(&region[64..68], &33u32.to_le_bytes());
    assert_eq!(&region[68..72], &[0; 4]);
    assert!(region[72..].iter().all(|&b| b == 0));
    region.copy_within(56..72, 72);
    let mut outputs = vec![vec![9u32; 5], vec![9u32; 5]];
    assert_eq!(s.finish_process(&region, Ok(vec![]), &mut outputs, 3), Ok(()));
    assert_eq!(outputs, vec![vec![11, 22, 33, 9, 9], vec![9u32; 5]]);
}

#[test]
fn a_failed_exchange_leaves_the_outputs_alone() {
    let (mut s, mut region) = armed(1, 1, 4);
    region[72..76].copy_from_slice(&5u32.to_le_bytes());
    let mut outputs = vec![vec![9u32; 4]];
    assert_eq!(s.finish_process(&region, Err(Error::Worker), &mut outputs, 4), Err(Error::Worker));
    assert_eq!(outputs, vec![vec![9u32; 4]]);
    assert_eq!(
        s.finish_process(&region, Ok(vec![]), &mut outputs, 5),
        Err(Error::InvalidParameter(5))
    );
    assert_eq!(outputs, vec![vec![9u32; 4]]);
    assert_eq!(
        s.begin_process(&mut region, &[vec![1; 8]], 5).unwrap_err(),
        Error::InvalidParameter(5)
    );
    assert_eq!(
        s.finish_process(&region[..70], Ok(vec![]), &mut outputs, 4),
        Err(Error::Transport(Fault::CorruptRegion))
    );
    assert_eq!(outputs, vec![vec![9u32; 4]]);
}

#[test]
fn teardown_releases_the_region_only_where_there_is_one() {
    let mut s = session(1, 1);
    assert_eq!(s.teardown(), vec![Teardown::Shutdown, Teardown::CloseSocket, Teardown::Reap]);
    s.begin_initialize(48000, 16).unwrap();
    let full = vec![
        Teardown::Shutdown,
        Teardown::Unmap,
        Teardown::Unlink,
        Teardown::CloseSocket,
        Teardown::Reap,
    ];
    assert_eq!(s.teardown(), full);
    s.finish_initialize(Ok(vec![])).unwrap();
    assert_eq!(s.teardown(), full);
    let fault = Error::Transport(Fault::Io);
    assert_eq!(s.settle(Err(fault)), Err(fault));
    assert_eq!(s.teardown(), full);
    assert_eq!(s.shutdown().unwrap_err(), fault);
}
