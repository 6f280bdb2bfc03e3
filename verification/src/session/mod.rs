//! The state of one connected plug-in, and what the host may ask of it.
//! The session decides what goes to the worker and reads what comes back;
//! sending and receiving are left to the caller, who hands the outcome of
//! each exchange back. A transport fault ends the session: from then on it
//! hands out no request.

pub mod arm;
pub mod load;

pub use load::{LoadStage, LoadStep, Loader};

use vstd::prelude::*;
use vstd::string::StringExecFns;
use crate::audio::{AudioPlane, PlaneView};
use crate::bytes::{u32_le, u64_le};
use crate::bytes::u64_from_le;
use crate::client::{
    changes_in, decode_editor, decode_param_changes, decode_param_value, midi_records, Request,
    RequestView,
};
use crate::session::load::reply_view;
use crate::error::{Error, Fault};
use crate::midi::{event_records, sent_count, MidiEvent};
use crate::plugin::{PluginInfo, PluginInfoView, PluginType, PresetInfo};
use crate::protocol;
use crate::protocol::{
    HostCommand, ParamChangeEvent, RespEditorInfo, RespParamInfo, RespParamInfoView,
    RespPluginInfo, RespPluginInfoView,
};

verus! {

/// Where a session stands with its audio plane.
#[derive(Debug, Clone, Copy)]
pub enum AudioState {
    /// No audio plane.
    Unarmed,
    /// The plane is laid out, and the worker has not yet accepted it.
    Arming(AudioPlane),
    /// The worker has accepted the plane.
    Armed(AudioPlane),
}

/// Where a session stands with its audio plane, as mathematical values.
pub enum AudioStateView {
    Unarmed,
    Arming(PlaneView),
    Armed(PlaneView),
}

impl View for AudioState {
    type V = AudioStateView;

    open spec fn view(&self) -> AudioStateView {
        match *self {
            AudioState::Unarmed => AudioStateView::Unarmed,
            AudioState::Arming(plane) => AudioStateView::Arming(plane@),
            AudioState::Armed(plane) => AudioStateView::Armed(plane@),
        }
    }
}

/// A step of ending a session.
#[derive(Debug, Clone, Copy, PartialEq, Eq, Structural)]
pub enum Teardown {
    /// Send `Shutdown`, and pass over any failure; on a session that a
    /// fault has ended there is nothing to send.
    Shutdown,
    /// Release the mapping of the shared region.
    Unmap,
    /// Remove the file behind the shared region.
    Unlink,
    /// Close the socket.
    CloseSocket,
    /// Wait for the worker's process to end.
    Reap,
}

/// A session as mathematical values.
pub struct SessionView {
    pub info: PluginInfoView,
    pub descriptor: RespPluginInfoView,
    pub params: Seq<RespParamInfoView>,
    pub audio: AudioStateView,
    /// The transport fault that ended the session, once one has.
    pub closed: Option<Fault>,
}

/// What the host application is told of a plug-in that was loaded from
/// `path` and describes itself as `descriptor`.
pub open spec fn loaded_info(path: Seq<char>, descriptor: RespPluginInfoView) -> PluginInfoView {
    PluginInfoView {
        name: descriptor.name,
        manufacturer: descriptor.vendor,
        version: 0,
        plugin_type: PluginType::Effect,
        path,
        unique_id: descriptor.uid,
    }
}

/// The descriptions as mathematical values.
pub open spec fn param_views(params: Seq<RespParamInfo>) -> Seq<RespParamInfoView> {
    Seq::new(params.len(), |i: int| params[i]@)
}

impl SessionView {
    /// Why the session hands out no request, if it does not: it is over,
    /// by the transport fault that ended it.
    pub open spec fn refusal(self) -> Option<Error> {
        match self.closed {
            Some(fault) => Some(Error::Transport(fault)),
            None => None,
        }
    }

    /// The session once `e` has come up: over by the fault of `e`, where
    /// `e` is a transport fault and the session was not over before, and as
    /// it was after any other error.
    pub open spec fn closed_by(self, e: Error) -> SessionView {
        match e {
            Error::Transport(fault) if self.closed is None => SessionView {
                closed: Some(fault),
                ..self
            },
            _ => self,
        }
    }

    /// The session once an exchange has come to `outcome`.
    pub open spec fn after(self, outcome: Result<Seq<u8>, Error>) -> SessionView {
        match outcome {
            Ok(_) => self,
            Err(e) => self.closed_by(e),
        }
    }

    /// The plane of an armed session.
    pub open spec fn plane(self) -> Option<PlaneView> {
        match self.audio {
            AudioStateView::Armed(plane) => Some(plane),
            _ => None,
        }
    }

    /// What is left to do once the session ends, in this order. A region is
    /// released wherever one was laid out, accepted by the worker or not.
    /// Asking the worker to end comes to nothing on a session that a fault
    /// has ended: it hands out no request for it.
    pub open spec fn teardown(self) -> Seq<Teardown> {
        if self.audio is Unarmed {
            seq![Teardown::Shutdown, Teardown::CloseSocket, Teardown::Reap]
        } else {
            seq![
                Teardown::Shutdown,
                Teardown::Unmap,
                Teardown::Unlink,
                Teardown::CloseSocket,
                Teardown::Reap,
            ]
        }
    }

    /// What holds of every session: it has one description for each
    /// parameter that the plug-in announces, and a plane, once laid out, has
    /// the plug-in's channels.
    pub open spec fn well_formed(self) -> bool {
        &&& self.params.len() == self.descriptor.num_params
        &&& self.info == loaded_info(self.info.path, self.descriptor)
        &&& match self.audio {
            AudioStateView::Unarmed => true,
            AudioStateView::Arming(plane) | AudioStateView::Armed(plane) => {
                &&& plane.num_inputs == self.descriptor.num_audio_inputs
                &&& plane.num_outputs == self.descriptor.num_audio_outputs
            },
        }
    }
}

/// A transport fault ends a session, and an ended session stays ended, by
/// its first fault: whatever comes up later, it hands out no request.
pub proof fn lemma_fault_ends_session(session: SessionView, e: Error, later: Error)
    ensures
        e.ends_session() ==> session.closed_by(e).refusal() is Some,
        !e.ends_session() ==> session.closed_by(e) == session,
        session.refusal() is Some ==> session.closed_by(later) == session,
        session.closed_by(e).refusal() matches Some(refused) ==> refused.ends_session()
            && session.closed_by(e).closed_by(later).refusal() == Some(refused),
        session.well_formed() ==> session.closed_by(e).well_formed(),
{
}

/// One connected plug-in.
#[derive(Debug)]
pub struct WineVst3Plugin {
    info: PluginInfo,
    descriptor: RespPluginInfo,
    params: Vec<RespParamInfo>,
    audio: AudioState,
    closed: Option<Fault>,
}

impl View for WineVst3Plugin {
    type V = SessionView;

    closed spec fn view(&self) -> SessionView {
        SessionView {
            info: self.info@,
            descriptor: self.descriptor@,
            params: param_views(self.params@),
            audio: self.audio@,
            closed: self.closed,
        }
    }
}

impl WineVst3Plugin {
    #[verifier::type_invariant]
    spec fn sound(self) -> bool {
        self@.well_formed()
    }

    /// The session of a plug-in that was loaded from `plugin_path`, where
    /// there is one description for each parameter that it announces.
    pub fn connected(
        plugin_path: &str,
        descriptor: RespPluginInfo,
        params: Vec<RespParamInfo>,
    ) -> (r: Option<WineVst3Plugin>)
        ensures
            r is Some <==> params@.len() == descriptor.num_params,
            r matches Some(session) ==> session@ == (SessionView {
                info: loaded_info(plugin_path@, descriptor@),
                descriptor: descriptor@,
                params: param_views(params@),
                audio: AudioStateView::Unarmed,
                closed: None,
            }),
    {
        if params.len() != descriptor.num_params as usize {
            return None;
        }
        let info = PluginInfo {
            name: descriptor.name.clone(),
            manufacturer: descriptor.vendor.clone(),
            version: 0,
            plugin_type: PluginType::Effect,
            path: String::from_str(plugin_path),
            unique_id: descriptor.uid.clone(),
        };
        Some(
            WineVst3Plugin { info, descriptor, params, audio: AudioState::Unarmed, closed: None },
        )
    }

    /// What the host application is told of the plug-in.
    pub fn info(&self) -> (info: &PluginInfo)
        ensures
            info@ == self@.info,
    {
        &self.info
    }

    /// What the plug-in says of itself. The session is well formed, as
    /// every session is.
    pub fn descriptor(&self) -> (descriptor: &RespPluginInfo)
        ensures
            descriptor@ == self@.descriptor,
            self@.well_formed(),
    {
        proof {
            use_type_invariant(self);
        }
        &self.descriptor
    }

    /// Whether the session is armed.
    pub fn is_initialized(&self) -> (armed: bool)
        ensures
            armed == self@.plane() is Some,
    {
        match self.audio {
            AudioState::Armed(_) => true,
            _ => false,
        }
    }

    /// The plane of an armed session.
    pub fn plane(&self) -> (plane: Option<AudioPlane>)
        ensures
            plane is Some == self@.plane() is Some,
            plane matches Some(p) ==> Some(p@) == self@.plane(),
    {
        match self.audio {
            AudioState::Armed(plane) => Some(plane),
            _ => None,
        }
    }

    /// The transport fault that ended the session, once one has.
    pub fn closed(&self) -> (fault: Option<Fault>)
        ensures
            fault == self@.closed,
    {
        self.closed
    }

    /// Whether the session may still write to the socket: it may until a
    /// transport fault has ended it, and never after. To be asked before
    /// every write.
    pub fn guard(&self) -> (r: Result<(), Error>)
        ensures
            match self@.refusal() {
                Some(e) => r == Err::<(), Error>(e) && e.ends_session(),
                None => r is Ok,
            },
    {
        match self.closed {
            Some(fault) => Err(Error::Transport(fault)),
            None => Ok(()),
        }
    }

    /// Takes note of an error: a transport fault ends the session.
    pub(crate) fn note(&mut self, e: Error)
        ensures
            final(self)@ == old(self)@.closed_by(e),
    {
        proof {
            use_type_invariant(&*self);
        }
        match e {
            Error::Transport(fault) => {
                if self.closed.is_none() {
                    self.closed = Some(fault);
                }
            },
            _ => {},
        }
    }

    /// Takes the outcome of an exchange whose reply carries nothing to
    /// read, and hands it on. A transport fault ends the session.
    pub fn settle(&mut self, reply: Result<Vec<u8>, Error>) -> (r: Result<Vec<u8>, Error>)
        ensures
            reply_view(r) == reply_view(reply),
            final(self)@ == old(self)@.after(reply_view(reply)),
    {
        match reply {
            Ok(payload) => Ok(payload),
            Err(e) => {
                self.note(e);
                Err(e)
            },
        }
    }

    /// Does nothing: the protocol has no command to reset a plug-in.
    pub fn reset(&mut self) -> (r: Result<(), Error>)
        ensures
            r is Ok,
            final(self)@ == old(self)@,
    {
        Ok(())
    }

    /// How many parameters the session knows: as many as the plug-in
    /// announces.
    pub fn parameter_count(&self) -> (n: usize)
        ensures
            n == self@.params.len(),
            n == self@.descriptor.num_params,
    {
        proof {
            use_type_invariant(self);
        }
        self.params.len()
    }

    /// The description of the parameter at `index`.
    pub fn parameter_info(&self, index: usize) -> (r: Result<&RespParamInfo, Error>)
        ensures
            index < self@.params.len() ==> (r matches Ok(info) && info@
                == self@.params[index as int]),
            index >= self@.params.len() ==> (r matches Err(e) && e == Error::InvalidParameter(
                index,
            )),
    {
        if index >= self.params.len() {
            return Err(Error::InvalidParameter(index));
        }
        Ok(&self.params[index])
    }

    /// The request for the value of the parameter at `index`. There is none
    /// on a session that is over, and none for an index out of range.
    pub fn get_parameter(&self, index: usize) -> (r: Result<Request, Error>)
        ensures
            match self@.refusal() {
                Some(refused) => r matches Err(e) && e == refused,
                None => if index < self@.params.len() {
                    r matches Ok(request) && request@ == (RequestView {
                        command: HostCommand::GetParam,
                        payload: u32_le(self@.params[index as int].id) + u64_le(0),
                    })
                } else {
                    r matches Err(e) && e == Error::InvalidParameter(index)
                },
            },
    {
        if let Some(fault) = self.closed {
            return Err(Error::Transport(fault));
        }
        if index >= self.params.len() {
            return Err(Error::InvalidParameter(index));
        }
        Ok(Request::get_param(self.params[index].id))
    }

    /// Takes the outcome of a request for a parameter's value, and reads
    /// the value: the bit pattern of a 64-bit float. A reply shorter than
    /// that is a transport fault, and any transport fault ends the session.
    pub fn parameter_value(&mut self, reply: Result<Vec<u8>, Error>) -> (r: Result<u64, Error>)
        ensures
            r == Self::value_read(reply_view(reply)),
            final(self)@ == old(self)@.after(
                match r {
                    Ok(_) => Ok(Seq::empty()),
                    Err(e) => Err(e),
                },
            ),
    {
        let r: Result<u64, Error> = match reply {
            Ok(payload) => decode_param_value(payload.as_slice()),
            Err(e) => Err(e),
        };
        if let Err(e) = r {
            self.note(e);
        }
        r
    }

    /// What the outcome of a request for a parameter's value comes to.
    pub open spec fn value_read(reply: Result<Seq<u8>, Error>) -> Result<u64, Error> {
        match reply {
            Err(e) => Err(e),
            Ok(payload) => if payload.len() >= 8 {
                Ok(u64_from_le(payload.subrange(0, 8)))
            } else {
                Err(Error::Transport(Fault::MalformedReply))
            },
        }
    }

    /// The request that sets the parameter at `index` to the value with the
    /// given bit pattern of a 64-bit float. There is none on a session that
    /// is over, and none for an index out of range.
    pub fn set_parameter(&self, index: usize, value_bits: u64) -> (r: Result<Request, Error>)
        ensures
            match self@.refusal() {
                Some(refused) => r matches Err(e) && e == refused,
                None => if index < self@.params.len() {
                    r matches Ok(request) && request@ == (RequestView {
                        command: HostCommand::SetParam,
                        payload: u32_le(self@.params[index as int].id) + u64_le(value_bits),
                    })
                } else {
                    r matches Err(e) && e == Error::InvalidParameter(index)
                },
            },
    {
        if let Some(fault) = self.closed {
            return Err(Error::Transport(fault));
        }
        if index >= self.params.len() {
            return Err(Error::InvalidParameter(index));
        }
        Ok(Request::set_param(self.params[index].id, value_bits))
    }

    /// The request that carries the events that go to the worker: their
    /// number, then a record for each, in their order. System real-time
    /// events are dropped: they are not counted and leave no record. There
    /// is no request on a session that is over. So many channel messages
    /// that number and records take more bytes than a header can announce
    /// are refused as an invalid parameter, by their number.
    pub fn send_midi(&self, events: &[MidiEvent]) -> (r: Result<Request, Error>)
        ensures
            match self@.refusal() {
                Some(refused) => r matches Err(e) && e == refused,
                None => if 4 + 8 * sent_count(events@) <= u32::MAX {
                    r matches Ok(request) && request@ == (RequestView {
                        command: HostCommand::SendMidi,
                        payload: u32_le(sent_count(events@) as u32) + event_records(events@),
                    })
                } else {
                    r matches Err(e) && e == Error::InvalidParameter(
                        sent_count(events@) as usize,
                    )
                },
            },
    {
        if let Some(fault) = self.closed {
            return Err(Error::Transport(fault));
        }
        let mut wire: Vec<protocol::MidiEvent> = Vec::new();
        let mut i: usize = 0;
        assert(events@.take(0) =~= Seq::empty());
        while i < events.len()
            invariant
                i <= events@.len(),
                wire@.len() == sent_count(events@.take(i as int)),
                wire@.len() <= i,
                midi_records(wire@) == event_records(events@.take(i as int)),
            decreases events@.len() - i,
        {
            let ghost before = wire@;
            proof {
                assert(events@.take(i + 1).drop_last() =~= events@.take(i as int));
                assert(events@.take(i + 1).last() == events@[i as int]);
            }
            match events[i].to_wire() {
                Some(record) => {
                    wire.push(record);
                    proof {
                        assert(wire@.drop_last() =~= before);
                        assert(wire@.last() == record);
                    }
                },
                None => {
                    assert(event_records(events@.take(i + 1)) =~= event_records(
                        events@.take(i as int),
                    ));
                },
            }
            i += 1;
        }
        assert(events@.take(i as int) =~= events@);
        match Request::send_midi(wire.as_slice()) {
            Ok(request) => Ok(request),
            Err(_) => Err(Error::InvalidParameter(wire.len())),
        }
    }

    /// The request for `command` without a payload; none on a session that
    /// is over.
    fn ask(&self, command: HostCommand) -> (r: Result<Request, Error>)
        ensures
            match self@.refusal() {
                Some(refused) => r matches Err(e) && e == refused,
                None => r matches Ok(request) && request@ == (RequestView {
                    command,
                    payload: Seq::empty(),
                }),
            },
    {
        match self.closed {
            Some(fault) => Err(Error::Transport(fault)),
            None => Ok(Request::bare(command)),
        }
    }

    /// The request that opens the plug-in's editor; none on a session that
    /// is over.
    pub fn open_editor(&self) -> (r: Result<Request, Error>)
        ensures
            match self@.refusal() {
                Some(refused) => r matches Err(e) && e == refused,
                None => r matches Ok(request) && request@ == (RequestView {
                    command: HostCommand::OpenEditor,
                    payload: Seq::empty(),
                }),
            },
    {
        self.ask(HostCommand::OpenEditor)
    }

    /// What the outcome of `OpenEditor` comes to: the window's id, width
    /// and height.
    pub open spec fn editor_read(reply: Result<Seq<u8>, Error>) -> Result<(u32, u32, u32), Error> {
        match reply {
            Err(e) => Err(e),
            Ok(payload) => match RespEditorInfo::decode(payload) {
                Some(e) => Ok((e.x11_window_id, e.width, e.height)),
                None => Err(Error::Transport(Fault::MalformedReply)),
            },
        }
    }

    /// Takes the outcome of `OpenEditor`, and reads the window's id, width
    /// and height. A reply too short for them is a transport fault, and any
    /// transport fault ends the session.
    pub fn editor_opened(&mut self, reply: Result<Vec<u8>, Error>) -> (r: Result<
        (u32, u32, u32),
        Error,
    >)
        ensures
            r == Self::editor_read(reply_view(reply)),
            final(self)@ == old(self)@.after(
                match r {
                    Ok(_) => Ok(Seq::empty()),
                    Err(e) => Err(e),
                },
            ),
    {
        let r: Result<(u32, u32, u32), Error> = match reply {
            Ok(payload) => match decode_editor(payload.as_slice()) {
                Ok(info) => Ok((info.x11_window_id, info.width, info.height)),
                Err(e) => Err(e),
            },
            Err(e) => Err(e),
        };
        if let Err(e) = r {
            self.note(e);
        }
        r
    }

    /// The request that closes the plug-in's editor; none on a session that
    /// is over.
    pub fn close_editor(&self) -> (r: Result<Request, Error>)
        ensures
            match self@.refusal() {
                Some(refused) => r matches Err(e) && e == refused,
                None => r matches Ok(request) && request@ == (RequestView {
                    command: HostCommand::CloseEditor,
                    payload: Seq::empty(),
                }),
            },
    {
        self.ask(HostCommand::CloseEditor)
    }

    /// The request for the changes that the user made in the editor since
    /// they were last asked for; none on a session that is over.
    pub fn get_param_changes(&self) -> (r: Result<Request, Error>)
        ensures
            match self@.refusal() {
                Some(refused) => r matches Err(e) && e == refused,
                None => r matches Ok(request) && request@ == (RequestView {
                    command: HostCommand::GetParamChanges,
                    payload: Seq::empty(),
                }),
            },
    {
        self.ask(HostCommand::GetParamChanges)
    }

    /// Takes the outcome of `GetParamChanges`, and reads for each change
    /// the parameter's id and the bit pattern of its new value, a 64-bit
    /// float. A transport fault ends the session.
    pub fn param_changes(&mut self, reply: Result<Vec<u8>, Error>) -> (r: Result<
        Vec<(u32, u64)>,
        Error,
    >)
        ensures
            final(self)@ == old(self)@.after(reply_view(reply)),
            match reply {
                Err(e) => r matches Err(err) && err == e,
                Ok(payload) => r matches Ok(changes) && changes@.len() == changes_in(
                    payload@,
                ).len() && forall|i: int|
                    0 <= i < changes@.len() ==> changes@[i] == (
                        changes_in(payload@)[i].param_id,
                        changes_in(payload@)[i].value_bits,
                    ),
            },
    {
        let payload: Vec<u8> = match reply {
            Ok(payload) => payload,
            Err(e) => {
                self.note(e);
                return Err(e);
            },
        };
        let events: Vec<ParamChangeEvent> = decode_param_changes(payload.as_slice());
        let mut changes: Vec<(u32, u64)> = Vec::new();
        let mut i: usize = 0;
        while i < events.len()
            invariant
                i <= events@.len(),
                changes@.len() == i,
                forall|k: int|
                    0 <= k < i ==> changes@[k] == (events@[k].param_id, events@[k].value_bits),
            decreases events@.len() - i,
        {
            changes.push((events[i].param_id, events[i].value_bits));
            i += 1;
        }
        Ok(changes)
    }

    /// The request that asks the worker to end; none on a session that is
    /// over.
    pub fn shutdown(&self) -> (r: Result<Request, Error>)
        ensures
            match self@.refusal() {
                Some(refused) => r matches Err(e) && e == refused,
                None => r matches Ok(request) && request@ == (RequestView {
                    command: HostCommand::Shutdown,
                    payload: Seq::empty(),
                }),
            },
    {
        self.ask(HostCommand::Shutdown)
    }

    /// What is left to do once the session ends, in this order; every step
    /// is taken, whether or not the one before it succeeded. The worker is
    /// asked to end, the region is unmapped and its file removed, where
    /// there are any, the socket is closed, and the worker's process is
    /// reaped.
    pub fn teardown(&self) -> (steps: Vec<Teardown>)
        ensures
            steps@ == self@.teardown(),
    {
        let mut steps: Vec<Teardown> = Vec::new();
        steps.push(Teardown::Shutdown);
        match self.audio {
            AudioState::Unarmed => {},
            _ => {
                steps.push(Teardown::Unmap);
                steps.push(Teardown::Unlink);
            },
        }
        steps.push(Teardown::CloseSocket);
        steps.push(Teardown::Reap);
        assert(steps@ =~= self@.teardown());
        steps
    }

    /// How many presets there are: none, at this version of the protocol.
    pub fn preset_count(&self) -> (r: Result<usize, Error>)
        ensures
            r == Ok::<usize, Error>(0),
    {
        Ok(0)
    }

    /// Presets cannot be listed at this version of the protocol.
    pub fn preset_info(&self, index: usize) -> (r: Result<PresetInfo, Error>)
        ensures
            r matches Err(e) && e == Error::Unsupported,
    {
        Err(Error::Unsupported)
    }

    /// Presets cannot be loaded at this version of the protocol.
    pub fn load_preset(&mut self, preset_number: i32) -> (r: Result<(), Error>)
        ensures
            r == Err::<(), Error>(Error::Unsupported),
            final(self)@ == old(self)@,
    {
        Err(Error::Unsupported)
    }

    /// The plug-in's state cannot be fetched at this version of the
    /// protocol.
    pub fn get_state(&self) -> (r: Result<Vec<u8>, Error>)
        ensures
            r matches Err(e) && e == Error::Unsupported,
    {
        Err(Error::Unsupported)
    }

    /// The plug-in's state cannot be set at this version of the protocol.
    pub fn set_state(&mut self, data: &[u8]) -> (r: Result<(), Error>)
        ensures
            r == Err::<(), Error>(Error::Unsupported),
            final(self)@ == old(self)@,
    {
        Err(Error::Unsupported)
    }
}

} // verus!
