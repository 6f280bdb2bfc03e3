//! One exchange with the worker: the request that goes out, the header
//! that comes back, and what the status makes of the payload.

use vstd::prelude::*;
use vstd::string::StringSliceAdditionalSpecFns;
use vstd::slice::slice_subrange;
use crate::bytes::{
    append, fixed_field, read_u32, read_u64, u32_from_le, u32_le, u32_to_le, u64_from_le, u64_le,
};
use crate::error::{Error, Fault};
use crate::protocol::{
    CmdInitAudio, CmdLoadPlugin, CmdMidi, CmdParam, CmdProcessAudio, Header, HostCommand,
    MidiEvent, ParamChangeEvent, RespEditorInfo, RespParamInfo, RespParamInfoView,
    RespPluginInfo, RespPluginInfoView, ResponseHeader, Status, RACK_WINE_RESPONSE_MAGIC,
};

verus! {

/// A request as mathematical values.
pub struct RequestView {
    pub command: HostCommand,
    pub payload: Seq<u8>,
}

impl RequestView {
    /// The bytes that go out: the header, then the payload.
    pub open spec fn wire(self) -> Seq<u8> {
        Header::request(self.command, self.payload.len() as u32).wire() + self.payload
    }
}

/// A request: a command and its payload, which is short enough for a header
/// to announce.
#[derive(Debug)]
pub struct Request {
    command: HostCommand,
    payload: Vec<u8>,
}

impl View for Request {
    type V = RequestView;

    closed spec fn view(&self) -> RequestView {
        RequestView { command: self.command, payload: self.payload@ }
    }
}

/// The records of the events, one after the other.
pub open spec fn midi_records(events: Seq<MidiEvent>) -> Seq<u8>
    decreases events.len(),
{
    if events.len() == 0 {
        Seq::empty()
    } else {
        midi_records(events.drop_last()) + events.last().wire()
    }
}

/// The records of the events take eight bytes each.
pub proof fn lemma_midi_records_len(events: Seq<MidiEvent>)
    ensures
        midi_records(events).len() == 8 * events.len(),
    decreases events.len(),
{
    if events.len() > 0 {
        lemma_midi_records_len(events.drop_last());
    }
}

impl Request {
    #[verifier::type_invariant]
    spec fn announceable(self) -> bool {
        self.payload@.len() <= u32::MAX
    }

    /// A request for `command` with `payload`. A payload longer than a
    /// header can announce is refused as an invalid parameter, by its
    /// length.
    pub fn new(command: HostCommand, payload: Vec<u8>) -> (r: Result<Request, Error>)
        ensures
            payload@.len() <= u32::MAX ==> (r matches Ok(request) && request@ == (RequestView {
                command,
                payload: payload@,
            })),
            payload@.len() > u32::MAX ==> r == Err::<Request, Error>(
                Error::InvalidParameter(payload@.len() as usize),
            ),
    {
        if payload.len() > 0xffff_ffff {
            Err(Error::InvalidParameter(payload.len()))
        } else {
            Ok(Request { command, payload })
        }
    }

    /// A request for `command` without a payload.
    pub fn bare(command: HostCommand) -> (request: Request)
        ensures
            request@ == (RequestView { command, payload: Seq::empty() }),
    {
        Request { command, payload: Vec::new() }
    }

    /// The command of the request.
    pub fn command(&self) -> (command: HostCommand)
        ensures
            command == self@.command,
    {
        self.command
    }

    /// The payload of the request.
    pub fn payload(&self) -> (payload: &[u8])
        ensures
            payload@ == self@.payload,
    {
        self.payload.as_slice()
    }

    /// The bytes that go out: the header, then the payload, which is no
    /// longer than the header can announce.
    pub fn to_bytes(&self) -> (b: Vec<u8>)
        ensures
            b@ == self@.wire(),
            b@.len() == 16 + self@.payload.len(),
            self@.payload.len() <= u32::MAX,
    {
        proof {
            use_type_invariant(self);
        }
        let header = Header::new(self.command, self.payload.len() as u32);
        let mut buf: Vec<u8> = Vec::new();
        append(&mut buf, &header.to_bytes());
        append(&mut buf, self.payload.as_slice());
        buf
    }

    /// Asks the worker whether it is there.
    pub fn ping() -> (request: Request)
        ensures
            request@ == (RequestView { command: HostCommand::Ping, payload: Seq::empty() }),
    {
        Request::bare(HostCommand::Ping)
    }

    /// Has the worker load class `class_index` of the plug-in at `path`; the
    /// path is cut at 1023 bytes.
    pub fn load_plugin(path: &str, class_index: u32) -> (request: Request)
        ensures
            request@ == (RequestView {
                command: HostCommand::LoadPlugin,
                payload: fixed_field(path.spec_bytes(), 1024) + u32_le(class_index),
            }),
    {
        let payload: Vec<u8> = CmdLoadPlugin::new(path, class_index).to_bytes();
        Request { command: HostCommand::LoadPlugin, payload }
    }

    /// Asks for the description of the loaded plug-in.
    pub fn get_info() -> (request: Request)
        ensures
            request@ == (RequestView { command: HostCommand::GetInfo, payload: Seq::empty() }),
    {
        Request::bare(HostCommand::GetInfo)
    }

    /// Asks how many parameters the loaded plug-in has.
    pub fn get_param_count() -> (request: Request)
        ensures
            request@ == (RequestView {
                command: HostCommand::GetParamCount,
                payload: Seq::empty(),
            }),
    {
        Request::bare(HostCommand::GetParamCount)
    }

    /// Asks for the description of the parameter at `index`.
    pub fn get_param_info(index: u32) -> (request: Request)
        ensures
            request@ == (RequestView {
                command: HostCommand::GetParamInfo,
                payload: u32_le(index),
            }),
    {
        let mut payload: Vec<u8> = Vec::new();
        append(&mut payload, &u32_to_le(index));
        Request { command: HostCommand::GetParamInfo, payload }
    }

    /// Asks for a parameter's value; the value that goes out with the id is
    /// zero.
    pub fn get_param(param_id: u32) -> (request: Request)
        ensures
            request@ == (RequestView {
                command: HostCommand::GetParam,
                payload: u32_le(param_id) + u64_le(0),
            }),
    {
        let payload: Vec<u8> = CmdParam::new(param_id, 0).to_bytes();
        Request { command: HostCommand::GetParam, payload }
    }

    /// Sets the parameter with the id `param_id` to the value with the given
    /// bit pattern of a 64-bit float.
    pub fn set_param(param_id: u32, value_bits: u64) -> (request: Request)
        ensures
            request@ == (RequestView {
                command: HostCommand::SetParam,
                payload: u32_le(param_id) + u64_le(value_bits),
            }),
    {
        let payload: Vec<u8> = CmdParam::new(param_id, value_bits).to_bytes();
        Request { command: HostCommand::SetParam, payload }
    }

    /// Tells the worker of the audio plane and of the file behind its region;
    /// the name is cut at 63 bytes.
    pub fn init_audio(
        sample_rate: u32,
        block_size: u32,
        num_inputs: u32,
        num_outputs: u32,
        shm_name: &str,
    ) -> (request: Request)
        ensures
            request@ == (RequestView {
                command: HostCommand::InitAudio,
                payload: u32_le(sample_rate) + u32_le(block_size) + u32_le(num_inputs) + u32_le(
                    num_outputs,
                ) + fixed_field(shm_name.spec_bytes(), 64),
            }),
    {
        let payload: Vec<u8> = CmdInitAudio::new(
            sample_rate,
            block_size,
            num_inputs,
            num_outputs,
            shm_name,
        ).to_bytes();
        Request { command: HostCommand::InitAudio, payload }
    }

    /// Has the worker process `num_samples` frames of the block in the shared
    /// region.
    pub fn process_audio(num_samples: u32) -> (request: Request)
        ensures
            request@ == (RequestView {
                command: HostCommand::ProcessAudio,
                payload: u32_le(num_samples),
            }),
    {
        let mut payload: Vec<u8> = Vec::new();
        append(&mut payload, &CmdProcessAudio::new(num_samples).to_bytes());
        Request { command: HostCommand::ProcessAudio, payload }
    }

    /// The request that carries the events: their number, then a record for
    /// each. So many events that number and records take more bytes than a
    /// header can announce are refused as an invalid parameter, by their
    /// number.
    pub fn send_midi(events: &[MidiEvent]) -> (r: Result<Request, Error>)
        ensures
            4 + 8 * events@.len() <= u32::MAX ==> (r matches Ok(request) && request@
                == (RequestView {
                command: HostCommand::SendMidi,
                payload: u32_le(events@.len() as u32) + midi_records(events@),
            })),
            4 + 8 * events@.len() > u32::MAX ==> r == Err::<Request, Error>(
                Error::InvalidParameter(events@.len() as usize),
            ),
    {
        if events.len() > 0x1fff_ffff {
            return Err(Error::InvalidParameter(events.len()));
        }
        let header = CmdMidi { num_events: events.len() as u32 };
        let mut payload: Vec<u8> = Vec::new();
        append(&mut payload, &header.to_bytes());
        let mut i: usize = 0;
        while i < events.len()
            invariant
                i <= events@.len() <= 0x1fff_ffff,
                payload@ == u32_le(events@.len() as u32) + midi_records(events@.take(i as int)),
            decreases events@.len() - i,
        {
            let ghost before = payload@;
            append(&mut payload, &events[i].to_bytes());
            i += 1;
            proof {
                assert(events@.take(i as int).drop_last() =~= events@.take(i - 1));
                assert(payload@ =~= u32_le(events@.len() as u32) + midi_records(
                    events@.take(i as int),
                ));
            }
        }
        proof {
            assert(events@.take(i as int) =~= events@);
            lemma_midi_records_len(events@);
        }
        Ok(Request { command: HostCommand::SendMidi, payload })
    }

    /// Has the worker open the editor of the plug-in.
    pub fn open_editor() -> (request: Request)
        ensures
            request@ == (RequestView { command: HostCommand::OpenEditor, payload: Seq::empty() }),
    {
        Request::bare(HostCommand::OpenEditor)
    }

    /// Has the worker close the editor of the plug-in.
    pub fn close_editor() -> (request: Request)
        ensures
            request@ == (RequestView {
                command: HostCommand::CloseEditor,
                payload: Seq::empty(),
            }),
    {
        Request::bare(HostCommand::CloseEditor)
    }

    /// Asks for the changes that the user made in the editor.
    pub fn get_param_changes() -> (request: Request)
        ensures
            request@ == (RequestView {
                command: HostCommand::GetParamChanges,
                payload: Seq::empty(),
            }),
    {
        Request::bare(HostCommand::GetParamChanges)
    }

    /// Asks the worker to end.
    pub fn shutdown() -> (request: Request)
        ensures
            request@ == (RequestView { command: HostCommand::Shutdown, payload: Seq::empty() }),
    {
        Request::bare(HostCommand::Shutdown)
    }
}

/// What a status other than success turns into: a plug-in that is not
/// loaded or not initialized counts as not initialized, an invalid
/// parameter is reported for index zero, and every other failure is the
/// worker's error.
pub open spec fn status_error(status: Status) -> Option<Error> {
    match status {
        Status::Success => None,
        Status::NotLoaded => Some(Error::NotInitialized),
        Status::NotInitialized => Some(Error::NotInitialized),
        Status::InvalidParam => Some(Error::InvalidParameter(0)),
        Status::Error => Some(Error::Worker),
    }
}

/// What an exchange comes to, given the response's header and the payload
/// that was read after it: a transport fault where the magic is wrong or
/// the payload is not of the announced size, else the error of the status,
/// else the payload.
pub open spec fn outcome(header: ResponseHeader, payload: Seq<u8>) -> Result<Seq<u8>, Error> {
    if header.magic != RACK_WINE_RESPONSE_MAGIC {
        Err(Error::Transport(Fault::BadMagic))
    } else if payload.len() != header.payload_size {
        Err(Error::Transport(Fault::MalformedReply))
    } else {
        match status_error(Status::of(header.status)) {
            Some(e) => Err(e),
            None => Ok(payload),
        }
    }
}

/// The bytes of a request open with its header, which announces the command
/// and the length of the payload; the payload follows, and nothing else.
pub proof fn lemma_request_framing(request: RequestView)
    requires
        request.payload.len() <= u32::MAX,
    ensures
        request.wire().len() == 16 + request.payload.len(),
        Header::parse(request.wire().subrange(0, 16)) == Header::request(
            request.command,
            request.payload.len() as u32,
        ),
        request.wire().subrange(16, request.wire().len() as int) == request.payload,
{
    let header = Header::request(request.command, request.payload.len() as u32);
    crate::protocol::laws::lemma_header_round_trip(header);
    assert(request.wire().subrange(0, 16) =~= header.wire());
    assert(request.wire().subrange(16, request.wire().len() as int) =~= request.payload);
}

/// An exchange succeeds only under the response magic; under any other
/// magic it ends in the fault that ends the session, whatever the status
/// and the payload are.
pub proof fn lemma_reply_magic(header: ResponseHeader, payload: Seq<u8>)
    ensures
        outcome(header, payload) is Ok ==> header.magic == RACK_WINE_RESPONSE_MAGIC,
        header.magic != RACK_WINE_RESPONSE_MAGIC ==> outcome(header, payload) == Err::<
            Seq<u8>,
            Error,
        >(Error::Transport(Fault::BadMagic)),
        header.magic != RACK_WINE_RESPONSE_MAGIC ==> outcome(header, payload)->Err_0.ends_session(),
{
}

/// Reads the header of a response. A header without the response magic is
/// a transport fault, which ends the session; any other header is handed
/// on, and tells how many bytes of payload to read.
pub fn accept_header(buf: &[u8; 12]) -> (r: Result<ResponseHeader, Error>)
    ensures
        ResponseHeader::parse(buf@).magic == RACK_WINE_RESPONSE_MAGIC ==> r == Ok::<
            ResponseHeader,
            Error,
        >(ResponseHeader::parse(buf@)),
        ResponseHeader::parse(buf@).magic != RACK_WINE_RESPONSE_MAGIC ==> r == Err::<
            ResponseHeader,
            Error,
        >(Error::Transport(Fault::BadMagic)),
        r matches Err(e) ==> e.ends_session(),
{
    let header = ResponseHeader::from_bytes(buf);
    if header.magic != RACK_WINE_RESPONSE_MAGIC {
        return Err(Error::Transport(Fault::BadMagic));
    }
    Ok(header)
}

/// Ends an exchange: gives the payload where the worker reports success,
/// and the error that the response stands for where it does not.
pub fn complete(header: ResponseHeader, payload: Vec<u8>) -> (r: Result<Vec<u8>, Error>)
    ensures
        match outcome(header, payload@) {
            Ok(bytes) => r matches Ok(p) && p@ == bytes,
            Err(e) => r == Err::<Vec<u8>, Error>(e),
        },
{
    if header.magic != RACK_WINE_RESPONSE_MAGIC {
        return Err(Error::Transport(Fault::BadMagic));
    }
    if payload.len() != header.payload_size as usize {
        return Err(Error::Transport(Fault::MalformedReply));
    }
    match header.status() {
        Status::Success => Ok(payload),
        Status::NotLoaded => Err(Error::NotInitialized),
        Status::NotInitialized => Err(Error::NotInitialized),
        Status::InvalidParam => Err(Error::InvalidParameter(0)),
        Status::Error => Err(Error::Worker),
    }
}

/// Reads the reply to `GetInfo`; a payload too short for a description is
/// a transport fault.
pub fn decode_info(payload: &[u8]) -> (r: Result<RespPluginInfo, Error>)
    ensures
        match RespPluginInfoView::decode(payload@) {
            Some(v) => r matches Ok(info) && info@ == v,
            None => r matches Err(e) && e == Error::Transport(Fault::MalformedReply),
        },
{
    match RespPluginInfo::from_bytes(payload) {
        Some(info) => Ok(info),
        None => Err(Error::Transport(Fault::MalformedReply)),
    }
}

/// Reads the reply to `GetParamInfo`; a payload too short for a description
/// is a transport fault.
pub fn decode_param_info(payload: &[u8]) -> (r: Result<RespParamInfo, Error>)
    ensures
        match RespParamInfoView::decode(payload@) {
            Some(v) => r matches Ok(info) && info@ == v,
            None => r matches Err(e) && e == Error::Transport(Fault::MalformedReply),
        },
{
    match RespParamInfo::from_bytes(payload) {
        Some(info) => Ok(info),
        None => Err(Error::Transport(Fault::MalformedReply)),
    }
}

/// Reads the reply to `OpenEditor`; a payload too short for a window is a
/// transport fault.
pub fn decode_editor(payload: &[u8]) -> (r: Result<RespEditorInfo, Error>)
    ensures
        match RespEditorInfo::decode(payload@) {
            Some(v) => r == Ok::<RespEditorInfo, Error>(v),
            None => r == Err::<RespEditorInfo, Error>(Error::Transport(Fault::MalformedReply)),
        },
{
    match RespEditorInfo::from_bytes(payload) {
        Some(info) => Ok(info),
        None => Err(Error::Transport(Fault::MalformedReply)),
    }
}

/// Reads the reply to `GetParamCount`: the number in its first four bytes.
/// A shorter payload is a transport fault.
pub fn decode_param_count(payload: &[u8]) -> (r: Result<u32, Error>)
    ensures
        payload@.len() >= 4 ==> r == Ok::<u32, Error>(u32_from_le(payload@.subrange(0, 4))),
        payload@.len() < 4 ==> r == Err::<u32, Error>(Error::Transport(Fault::MalformedReply)),
{
    if payload.len() >= 4 {
        Ok(read_u32(payload, 0))
    } else {
        Err(Error::Transport(Fault::MalformedReply))
    }
}

/// Reads the reply to `GetParam`: the bit pattern of a 64-bit float in its
/// first eight bytes. A shorter payload is a transport fault.
pub fn decode_param_value(payload: &[u8]) -> (r: Result<u64, Error>)
    ensures
        payload@.len() >= 8 ==> r == Ok::<u64, Error>(u64_from_le(payload@.subrange(0, 8))),
        payload@.len() < 8 ==> r == Err::<u64, Error>(Error::Transport(Fault::MalformedReply)),
{
    if payload.len() >= 8 {
        Ok(read_u64(payload, 0))
    } else {
        Err(Error::Transport(Fault::MalformedReply))
    }
}

/// How many changes a reply to `GetParamChanges` carries: as many as its
/// first four bytes announce, but no more than there are whole records of
/// twelve bytes behind them; none where it is shorter than four bytes.
pub open spec fn change_count(payload: Seq<u8>) -> nat {
    if payload.len() < 4 {
        0
    } else {
        let announced = u32_from_le(payload.subrange(0, 4)) as nat;
        let held = ((payload.len() - 4) / 12) as nat;
        if announced <= held {
            announced
        } else {
            held
        }
    }
}

/// The `i`-th change of a reply to `GetParamChanges`.
pub open spec fn change_at(payload: Seq<u8>, i: int) -> ParamChangeEvent {
    ParamChangeEvent {
        param_id: u32_from_le(payload.subrange(4 + 12 * i, 8 + 12 * i)),
        value_bits: u64_from_le(payload.subrange(8 + 12 * i, 16 + 12 * i)),
    }
}

/// The changes that a reply to `GetParamChanges` carries, in their order.
pub open spec fn changes_in(payload: Seq<u8>) -> Seq<ParamChangeEvent> {
    Seq::new(change_count(payload), |i: int| change_at(payload, i))
}

/// Reads the reply to `GetParamChanges`.
pub fn decode_param_changes(payload: &[u8]) -> (changes: Vec<ParamChangeEvent>)
    ensures
        changes@ == changes_in(payload@),
{
    let mut changes: Vec<ParamChangeEvent> = Vec::new();
    if payload.len() < 4 {
        assert(changes@ =~= changes_in(payload@));
        return changes;
    }
    let announced: u32 = read_u32(payload, 0);
    let mut offset: usize = 4;
    let mut i: u32 = 0;
    while i < announced && payload.len() - offset >= 12
        invariant
            4 <= payload@.len(),
            announced == u32_from_le(payload@.subrange(0, 4)),
            offset == 4 + 12 * i,
            offset <= payload@.len(),
            i <= announced,
            i <= (payload@.len() - 4) / 12,
            changes@.len() == i,
            forall|k: int| 0 <= k < i ==> changes@[k] == change_at(payload@, k),
        decreases announced - i,
    {
        let record: &[u8] = slice_subrange(payload, offset, offset + 12);
        proof {
            assert(record@.subrange(0, 4) =~= payload@.subrange(4 + 12 * i, 8 + 12 * i));
            assert(record@.subrange(4, 12) =~= payload@.subrange(8 + 12 * i, 16 + 12 * i));
        }
        match ParamChangeEvent::from_bytes(record) {
            Some(change) => {
                changes.push(change);
            },
            None => {},
        }
        offset = offset + 12;
        i = i + 1;
    }
    assert(changes@ =~= changes_in(payload@));
    changes
}

} // verus!
