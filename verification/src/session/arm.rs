//! Arming a session, and moving one block of audio through it.

use vstd::prelude::*;
use crate::audio::copy::{lesser, samples_of, transfer_fault, with_inputs, with_outputs};
use crate::audio::{copy_inputs, copy_outputs, plane_bytes, AudioPlane, PlaneView};
use crate::bytes::{fixed_field, u32_le, word};
use crate::client::{Request, RequestView};
use crate::error::{Error, SetupFault};
use crate::paths::wine_shm_name;
use crate::protocol::HostCommand;
use crate::session::load::reply_view;
use crate::session::{AudioState, AudioStateView, SessionView, WineVst3Plugin};
use vstd::utf8::encode_utf8;

verus! {

impl SessionView {
    /// What laying out a plane of blocks of `max_block_size` samples comes
    /// to: nothing for a session that is over; nothing for a session that
    /// is armed, which stays so for life; nothing where the block size, or
    /// the region for the plug-in's channels, is beyond what 32 bits hold;
    /// else the plane.
    pub open spec fn plan(self, sample_rate: u32, max_block_size: usize) -> Result<
        PlaneView,
        Error,
    > {
        if self.refusal() is Some {
            Err(self.refusal().unwrap())
        } else if self.audio is Armed {
            Err(Error::Setup(SetupFault::AlreadyArmed))
        } else if max_block_size > u32::MAX || plane_bytes(
            self.descriptor.num_audio_inputs as int,
            self.descriptor.num_audio_outputs as int,
            max_block_size as int,
        ) > u32::MAX {
            Err(Error::Setup(SetupFault::Geometry))
        } else {
            Ok(
                PlaneView {
                    num_inputs: self.descriptor.num_audio_inputs,
                    num_outputs: self.descriptor.num_audio_outputs,
                    block_size: max_block_size as u32,
                    sample_rate,
                },
            )
        }
    }

    /// The session with another state of its audio plane.
    pub open spec fn with_audio(self, audio: AudioStateView) -> SessionView {
        SessionView { audio, ..self }
    }

    /// Why the first half of processing a block of `frames` frames fails on
    /// `region`, if it does: the session is over, or not armed, or the
    /// block cannot be moved into the region.
    pub open spec fn input_fault(self, region: Seq<u8>, frames: usize) -> Option<Error> {
        match self.refusal() {
            Some(refused) => Some(refused),
            None => match self.plane() {
                None => Some(Error::NotInitialized),
                Some(plane) => transfer_fault(region, 8, plane.num_inputs, frames),
            },
        }
    }

    /// Why the second half of processing a block of `frames` frames fails,
    /// if it does: the session is over, or not armed, or the exchange
    /// failed, or the block cannot be moved out of the region.
    pub open spec fn output_fault(
        self,
        region: Seq<u8>,
        reply: Result<Seq<u8>, Error>,
        frames: usize,
    ) -> Option<Error> {
        match self.refusal() {
            Some(refused) => Some(refused),
            None => match self.plane() {
                None => Some(Error::NotInitialized),
                Some(plane) => match reply {
                    Err(e) => Some(e),
                    Ok(_) => transfer_fault(region, 9, plane.num_outputs, frames),
                },
            },
        }
    }
}

impl WineVst3Plugin {
    /// Lays out the audio plane for the plug-in's channels: the first step
    /// of arming. The session then waits for the worker to accept the
    /// plane.
    pub fn begin_initialize(&mut self, sample_rate: u32, max_block_size: usize) -> (r: Result<
        AudioPlane,
        Error,
    >)
        ensures
            match old(self)@.plan(sample_rate, max_block_size) {
                Ok(plan) => r matches Ok(plane) && plane@ == plan && final(self)@ == old(
                    self,
                )@.with_audio(AudioStateView::Arming(plan)),
                Err(e) => r matches Err(err) && err == e && final(self)@ == old(self)@,
            },
    {
        proof {
            use_type_invariant(&*self);
        }
        if let Some(fault) = self.closed() {
            return Err(Error::Transport(fault));
        }
        match self.audio {
            AudioState::Armed(_) => {
                return Err(Error::Setup(SetupFault::AlreadyArmed));
            },
            _ => {},
        }
        if max_block_size > 0xffff_ffff {
            return Err(Error::Setup(SetupFault::Geometry));
        }
        match AudioPlane::new(
            self.descriptor.num_audio_inputs,
            self.descriptor.num_audio_outputs,
            max_block_size as u32,
            sample_rate,
        ) {
            Some(plane) => {
                self.audio = AudioState::Arming(plane);
                Ok(plane)
            },
            None => Err(Error::Setup(SetupFault::Geometry)),
        }
    }

    /// The request that tells the worker of the plane and of the file
    /// behind its region, for a session that waits to be armed. It is
    /// handed out only against the region itself, made for the plane and
    /// stamped: the header stands in the region before the worker is told
    /// of it. There is no request on a session that is over.
    pub fn init_audio_stamped(&self, region: &[u8], shm_path: &str) -> (r: Result<Request, Error>)
        ensures
            match self@.refusal() {
                Some(refused) => r matches Err(e) && e == refused,
                None => match self@.audio {
                    AudioStateView::Arming(plane) => if region@.len() >= plane.region_size()
                        && region@.subrange(0, 56) == plane.stamp() {
                        r matches Ok(request) && request@ == (RequestView {
                            command: HostCommand::InitAudio,
                            payload: u32_le(plane.sample_rate) + u32_le(plane.block_size)
                                + u32_le(plane.num_inputs) + u32_le(plane.num_outputs)
                                + fixed_field(encode_utf8("Z:"@ + shm_path@), 64),
                        })
                    } else {
                        r matches Err(e) && e == Error::Setup(SetupFault::SharedMemory)
                    },
                    _ => r matches Err(e) && e == Error::NotInitialized,
                },
            },
    {
        if let Some(fault) = self.closed() {
            return Err(Error::Transport(fault));
        }
        match self.audio {
            AudioState::Arming(plane) => {
                if !plane.is_stamped_on(region) {
                    return Err(Error::Setup(SetupFault::SharedMemory));
                }
                let name: String = wine_shm_name(shm_path);
                Ok(
                    Request::init_audio(
                        plane.sample_rate(),
                        plane.block_size(),
                        plane.num_inputs(),
                        plane.num_outputs(),
                        name.as_str(),
                    ),
                )
            },
            _ => Err(Error::NotInitialized),
        }
    }

    /// Ends arming with the outcome of the `InitAudio` exchange: the session
    /// is armed where the worker accepted the plane, and unarmed again where
    /// it did not; a transport fault ends the session besides. A session
    /// that does not wait to be armed stays as it is.
    pub fn finish_initialize(&mut self, reply: Result<Vec<u8>, Error>) -> (r: Result<(), Error>)
        ensures
            match old(self)@.audio {
                AudioStateView::Arming(plane) => match reply {
                    Ok(_) => r is Ok && final(self)@ == old(self)@.with_audio(
                        AudioStateView::Armed(plane),
                    ),
                    Err(e) => r == Err::<(), Error>(e) && final(self)@ == old(self)@.with_audio(
                        AudioStateView::Unarmed,
                    ).closed_by(e),
                },
                _ => r == Err::<(), Error>(Error::NotInitialized) && final(self)@ == old(self)@,
            },
    {
        proof {
            use_type_invariant(&*self);
        }
        match self.audio {
            AudioState::Arming(plane) => match reply {
                Ok(_) => {
                    self.audio = AudioState::Armed(plane);
                    Ok(())
                },
                Err(e) => {
                    self.audio = AudioState::Unarmed;
                    self.note(e);
                    Err(e)
                },
            },
            _ => Err(Error::NotInitialized),
        }
    }

    /// The first half of processing a block: copies the inputs into the
    /// region and gives the request that has the worker process
    /// `num_frames` frames. Input buffers beyond the plug-in's inputs are
    /// passed over. Where it fails, the region is left alone; a region that
    /// does not hold what its header announces ends the session.
    pub fn begin_process(&mut self, region: &mut [u8], inputs: &[Vec<u32>], num_frames: usize)
        -> (r: Result<Request, Error>)
        ensures
            final(region)@.len() == old(region)@.len(),
            match old(self)@.input_fault(old(region)@, num_frames) {
                Some(fault) => (r matches Err(e) && e == fault) && final(region)@ == old(
                    region,
                )@ && final(self)@ == old(self)@.closed_by(fault),
                None => (r matches Ok(request) && request@ == (RequestView {
                    command: HostCommand::ProcessAudio,
                    payload: u32_le(num_frames as u32),
                })) && final(self)@ == old(self)@ && final(region)@ == with_inputs(
                    old(region)@,
                    word(old(region)@, 8) as int,
                    word(old(region)@, 4) as int,
                    inputs@,
                    lesser(inputs@.len(), old(self)@.plane().unwrap().num_inputs as nat),
                    num_frames as nat,
                ),
            },
    {
        if let Some(fault) = self.closed() {
            return Err(Error::Transport(fault));
        }
        let plane: AudioPlane = match self.audio {
            AudioState::Armed(plane) => plane,
            _ => {
                return Err(Error::NotInitialized);
            },
        };
        match copy_inputs(region, plane.num_inputs(), inputs, num_frames) {
            Ok(()) => Ok(Request::process_audio(num_frames as u32)),
            Err(e) => {
                self.note(e);
                Err(e)
            },
        }
    }

    /// The second half of processing a block: once the worker has answered,
    /// copies the outputs out of the region. In each output buffer that the
    /// plug-in has a channel for, the first `num_frames` samples, or as many
    /// as it holds, are overwritten, and nothing else. Where it fails, no
    /// buffer is touched, and a transport fault ends the session.
    pub fn finish_process(
        &mut self,
        region: &[u8],
        reply: Result<Vec<u8>, Error>,
        outputs: &mut Vec<Vec<u32>>,
        num_frames: usize,
    ) -> (r: Result<(), Error>)
        ensures
            match old(self)@.output_fault(region@, reply_view(reply), num_frames) {
                Some(fault) => r == Err::<(), Error>(fault) && final(outputs)@ == old(outputs)@
                    && final(self)@ == old(self)@.closed_by(fault),
                None => r is Ok && final(self)@ == old(self)@ && samples_of(final(outputs)@)
                    == with_outputs(
                    old(outputs)@,
                    region@,
                    word(region@, 9) as int,
                    word(region@, 4) as int,
                    old(self)@.plane().unwrap().num_outputs as nat,
                    num_frames as nat,
                ),
            },
    {
        if let Some(fault) = self.closed() {
            return Err(Error::Transport(fault));
        }
        let plane: AudioPlane = match self.audio {
            AudioState::Armed(plane) => plane,
            _ => {
                return Err(Error::NotInitialized);
            },
        };
        let moved: Result<(), Error> = match reply {
            Err(e) => Err(e),
            Ok(_) => copy_outputs(region, plane.num_outputs(), outputs, num_frames),
        };
        if let Err(e) = moved {
            self.note(e);
        }
        moved
    }
}

} // verus!
