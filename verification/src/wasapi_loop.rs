//! The WASAPI event loop's bookkeeping: the streams it runs and the event handles it waits
//! on, the commands that add, remove, start and pause streams, and what each wake-up and
//! each failure code means.
use vstd::prelude::*;
use crate::format::{BuildStreamError, SampleFormat, StreamError};
use crate::wasapi_format::AUDCLNT_E_DEVICE_INVALIDATED;

verus! {

/// Stream flag asking WASAPI to signal an event whenever a buffer is due.
pub const AUDCLNT_STREAMFLAGS_EVENTCALLBACK: u32 = 0x0004_0000;

/// Stream flag capturing what a render device plays.
pub const AUDCLNT_STREAMFLAGS_LOOPBACK: u32 = 0x0002_0000;

/// The flags a capture stream is initialized with: event-driven, and in loopback when the
/// device renders.
pub fn capture_stream_flags(device_renders: bool) -> (f: u32)
    ensures
        f == (if device_renders {
            AUDCLNT_STREAMFLAGS_EVENTCALLBACK | AUDCLNT_STREAMFLAGS_LOOPBACK
        } else {
            AUDCLNT_STREAMFLAGS_EVENTCALLBACK
        }),
{
    let mut flags = AUDCLNT_STREAMFLAGS_EVENTCALLBACK;
    if device_renders {
        flags = flags | AUDCLNT_STREAMFLAGS_LOOPBACK;
    }
    flags
}

/// The error a failed call while building a stream reports: a removed device is no longer
/// available; any other failure is passed on with the system's `description`.
pub fn build_error_from_hresult(hr: i32, description: &str) -> (e: BuildStreamError)
    ensures
        hr == AUDCLNT_E_DEVICE_INVALIDATED ==> e is DeviceNotAvailable,
        hr != AUDCLNT_E_DEVICE_INVALIDATED ==> (e matches BuildStreamError::BackendSpecific(d) && d@
            == description@),
{
    if hr == AUDCLNT_E_DEVICE_INVALIDATED {
        BuildStreamError::DeviceNotAvailable
    } else {
        BuildStreamError::BackendSpecific(description.to_owned())
    }
}

/// The outcome of a call on a running stream: success for a non-negative `HRESULT`; for a
/// removed device, device-not-available; for any other failure, the system's
/// `description`.
pub fn stream_error_from_hresult(hr: i32, description: &str) -> (r: Result<(), StreamError>)
    ensures
        hr >= 0 ==> r is Ok,
        hr == AUDCLNT_E_DEVICE_INVALIDATED ==> (r matches Err(StreamError::DeviceNotAvailable)),
        hr < 0 && hr != AUDCLNT_E_DEVICE_INVALIDATED ==> (r matches Err(
            StreamError::BackendSpecific(d),
        ) && d@ == description@),
{
    if hr == AUDCLNT_E_DEVICE_INVALIDATED {
        return Err(StreamError::DeviceNotAvailable);
    }
    if hr < 0 {
        return Err(StreamError::BackendSpecific(description.to_owned()));
    }
    Ok(())
}

/// Hands out the next stream identifier from `counter`, which advances, wrapping, on every
/// call; the last identifier `usize::MAX` is refused as an overflow.
pub fn next_stream_id(counter: &mut usize) -> (r: Result<usize, BuildStreamError>)
    ensures
        *final(counter) == (if *old(counter) == usize::MAX { 0 } else { (*old(counter) + 1) as usize }),
        *old(counter) == usize::MAX ==> r matches Err(BuildStreamError::StreamIdOverflow),
        *old(counter) < usize::MAX ==> r == Ok::<usize, BuildStreamError>(*old(counter)),
{
    let id = *counter;
    *counter = if id == usize::MAX {
        0
    } else {
        id + 1
    };
    if id == usize::MAX {
        return Err(BuildStreamError::StreamIdOverflow);
    }
    Ok(id)
}

/// Frames a render stream can write now: its buffer less the frames still queued.
pub fn available_frames(max_frames_in_buffer: u32, padding: u32) -> (n: u32)
    requires
        padding <= max_frames_in_buffer,
    ensures
        n == max_frames_in_buffer - padding,
{
    max_frames_in_buffer - padding
}

/// Samples in `frames` frames of `bytes_per_frame` bytes of samples `sample_size` bytes
/// long.
pub fn buffer_samples(frames: u32, bytes_per_frame: u16, sample_size: usize) -> (n: usize)
    requires
        sample_size > 0,
        frames * bytes_per_frame <= usize::MAX,
    ensures
        n == (frames * bytes_per_frame) / (sample_size as int),
{
    frames as usize * bytes_per_frame as usize / sample_size
}

/// A stream the loop runs.
#[derive(Clone, Copy, Debug, PartialEq, Eq, Structural)]
pub struct LoopStream {
    pub id: usize,
    /// The event WASAPI signals when the stream's buffer is due.
    pub event: u64,
    pub playing: bool,
    pub max_frames_in_buffer: u32,
    pub bytes_per_frame: u16,
    pub sample_format: SampleFormat,
}

/// A request to the loop.
#[derive(Clone, Copy, Debug, PartialEq, Eq, Structural)]
pub enum Command {
    NewStream(LoopStream),
    DestroyStream(usize),
    PlayStream(usize),
    PauseStream(usize),
}

/// The device call a command needs before it takes effect: starting or stopping the
/// stream at a position, or none.
#[derive(Clone, Copy, Debug, PartialEq, Eq, Structural)]
pub enum CommandAction {
    Nothing,
    Start(usize),
    Stop(usize),
}

/// The streams a loop runs and the handles it waits on: its own command event first, then
/// each stream's event in the order of the streams.
pub struct RunContext {
    streams: Vec<LoopStream>,
    handles: Vec<u64>,
}

/// The first position, at `start` or later, of a stream with `id` in `streams`.
pub open spec fn spec_position_from(streams: Seq<LoopStream>, id: usize, start: int) -> Option<int>
    decreases streams.len() - start,
{
    if start < 0 || start >= streams.len() {
        None
    } else if streams[start].id == id {
        Some(start)
    } else {
        spec_position_from(streams, id, start + 1)
    }
}

/// The first position of a stream with `id` in `streams`.
pub open spec fn spec_position(streams: Seq<LoopStream>, id: usize) -> Option<int> {
    spec_position_from(streams, id, 0)
}

impl View for RunContext {
    type V = Seq<LoopStream>;

    closed spec fn view(&self) -> Seq<LoopStream> {
        self.streams@
    }
}

impl RunContext {
    #[verifier::type_invariant]
    spec fn inv(self) -> bool {
        &&& self.handles@.len() == self.streams@.len() + 1
        &&& forall|i: int|
            0 <= i < self.streams@.len() ==> #[trigger] self.handles@[i + 1] == self.streams@[i].event
    }

    /// The loop's own command event.
    pub closed spec fn pending_event(&self) -> u64 {
        self.handles@[0]
    }

    /// The handles the loop waits on: its command event, then each stream's event.
    pub open spec fn spec_handles(&self) -> Seq<u64> {
        seq![self.pending_event()] + self@.map_values(|s: LoopStream| s.event)
    }

    /// A loop with no streams, woken for commands by `pending_event`.
    pub fn new(pending_event: u64) -> (c: RunContext)
        ensures
            c@ == Seq::<LoopStream>::empty(),
            c.pending_event() == pending_event,
    {
        RunContext { streams: Vec::new(), handles: vec![pending_event] }
    }

    /// The handles to wait on.
    pub fn handles(&self) -> (h: &Vec<u64>)
        ensures
            h@ == self.spec_handles(),
    {
        proof {
            use_type_invariant(self);
        }
        assert forall|i: int| 0 <= i < self.handles@.len() implies #[trigger] self.handles@[i]
            == self.spec_handles()[i] by {
            if i > 0 {
                assert(self.handles@[(i - 1) + 1] == self.streams@[i - 1].event);
            }
        }
        assert(self.handles@ =~= self.spec_handles());
        &self.handles
    }

    /// The streams being run.
    pub fn streams(&self) -> (s: &Vec<LoopStream>)
        ensures
            s@ == self@,
    {
        &self.streams
    }

    /// What a wake-up on the handle at `handle_idx` means: `None` for the command event,
    /// else the position of the stream whose buffer is due.
    pub fn signalled(&self, handle_idx: usize) -> (r: Option<usize>)
        requires
            handle_idx < self.spec_handles().len(),
        ensures
            handle_idx == 0 ==> r is None,
            handle_idx > 0 ==> r == Some((handle_idx - 1) as usize) && handle_idx - 1 < self@.len(),
    {
        if handle_idx == 0 {
            None
        } else {
            Some(handle_idx - 1)
        }
    }

    /// The first position of the stream `id`.
    pub fn position(&self, id: usize) -> (r: Option<usize>)
        ensures
            r matches Some(p) ==> spec_position(self@, id) == Some(p as int) && p < self@.len()
                && self@[p as int].id == id,
            r is None ==> spec_position(self@, id) is None,
    {
        let mut p: usize = 0;
        while p < self.streams.len()
            invariant
                p <= self.streams@.len(),
                spec_position(self.streams@, id) == spec_position_from(self.streams@, id, p as int),
            decreases self.streams@.len() - p,
        {
            if self.streams[p].id == id {
                return Some(p);
            }
            p = p + 1;
        }
        None
    }

    /// Hands over the stream list and the handle list, leaving an empty loop behind.
    fn take_parts(&mut self) -> (parts: (Vec<LoopStream>, Vec<u64>))
        ensures
            parts.0@ == old(self)@,
            parts.1@.len() == parts.0@.len() + 1,
            parts.1@[0] == old(self).pending_event(),
            forall|i: int| 0 <= i < parts.0@.len() ==> #[trigger] parts.1@[i + 1] == parts.0@[i].event,
    {
        let mut taken = RunContext { streams: Vec::new(), handles: vec![0] };
        std::mem::swap(&mut taken, self);
        proof {
            use_type_invariant(&taken);
        }
        let RunContext { streams, handles } = taken;
        (streams, handles)
    }

    fn remove_at(&mut self, p: usize)
        requires
            p < old(self)@.len(),
        ensures
            final(self)@ == old(self)@.remove(p as int),
            final(self).pending_event() == old(self).pending_event(),
    {
        proof {
            use_type_invariant(&*self);
        }
        let (mut streams, mut handles) = self.take_parts();
        let ghost streams0 = streams@;
        let ghost handles0 = handles@;
        let hlen = handles.len();
        assert(p + 1 < hlen);
        handles.remove(p + 1);
        streams.remove(p);
        proof {
            assert forall|i: int| 0 <= i < streams@.len() implies #[trigger] handles@[i + 1]
                == streams@[i].event by {
                if i < p {
                    assert(handles0[i + 1] == streams0[i].event);
                } else {
                    let j = i + 1;
                    assert(handles0[j + 1] == streams0[j].event);
                }
            }
        }
        *self = RunContext { streams, handles };
    }

    /// Takes in one command. A new stream joins at the end, paused as it came; destroying
    /// removes the first stream with the identifier. Playing a paused stream or pausing a
    /// playing one asks for the device call first and changes nothing yet; a command for an
    /// unknown stream, or one already in the requested state, does nothing.
    pub fn begin(&mut self, command: Command) -> (a: CommandAction)
        ensures
            final(self).pending_event() == old(self).pending_event(),
            command matches Command::NewStream(s) ==> a == CommandAction::Nothing && final(self)@
                == old(self)@.push(s),
            command matches Command::DestroyStream(id) ==> a == CommandAction::Nothing && (
            match spec_position(old(self)@, id) {
                Some(p) => final(self)@ == old(self)@.remove(p),
                None => final(self)@ == old(self)@,
            }),
            command matches Command::PlayStream(id) ==> final(self)@ == old(self)@ && (match spec_position(
                old(self)@,
                id,
            ) {
                Some(p) => a == if old(self)@[p].playing {
                    CommandAction::Nothing
                } else {
                    CommandAction::Start(p as usize)
                },
                None => a == CommandAction::Nothing,
            }),
            command matches Command::PauseStream(id) ==> final(self)@ == old(self)@ && (match spec_position(
                old(self)@,
                id,
            ) {
                Some(p) => a == if old(self)@[p].playing {
                    CommandAction::Stop(p as usize)
                } else {
                    CommandAction::Nothing
                },
                None => a == CommandAction::Nothing,
            }),
    {
        proof {
            use_type_invariant(&*self);
        }
        match command {
            Command::NewStream(s) => {
                let (mut streams, mut handles) = self.take_parts();
                let ghost streams0 = streams@;
                let ghost handles0 = handles@;
                streams.push(s);
                handles.push(s.event);
                proof {
                    assert forall|i: int| 0 <= i < streams@.len() implies #[trigger] handles@[i + 1]
                        == streams@[i].event by {
                        if i < streams0.len() {
                            assert(handles0[i + 1] == streams0[i].event);
                        }
                    }
                }
                *self = RunContext { streams, handles };
                CommandAction::Nothing
            },
            Command::DestroyStream(id) => {
                let pos = self.position(id);
                if let Some(p) = pos {
                    self.remove_at(p);
                }
                CommandAction::Nothing
            },
            Command::PlayStream(id) => {
                let pos = self.position(id);
                match pos {
                    Some(p) => if self.streams[p].playing {
                        CommandAction::Nothing
                    } else {
                        CommandAction::Start(p)
                    },
                    None => CommandAction::Nothing,
                }
            },
            Command::PauseStream(id) => {
                let pos = self.position(id);
                match pos {
                    Some(p) => if self.streams[p].playing {
                        CommandAction::Stop(p)
                    } else {
                        CommandAction::Nothing
                    },
                    None => CommandAction::Nothing,
                }
            },
        }
    }

    /// Finishes a command after its device call returned `hr`: on success the stream is
    /// marked playing or paused; on failure it is dropped from the loop and the error to
    /// report, with the stream's identifier, is returned.
    pub fn complete(&mut self, action: CommandAction, hr: i32, description: &str) -> (r: Option<
        (usize, StreamError),
    >)
        requires
            action matches CommandAction::Start(p) ==> p < old(self)@.len(),
            action matches CommandAction::Stop(p) ==> p < old(self)@.len(),
        ensures
            final(self).pending_event() == old(self).pending_event(),
            action is Nothing ==> r is None && final(self)@ == old(self)@,
            action matches CommandAction::Start(p) ==> (if hr >= 0 {
                r is None && final(self)@ == old(self)@.update(
                    p as int,
                    LoopStream { playing: true, ..old(self)@[p as int] },
                )
            } else {
                final(self)@ == old(self)@.remove(p as int) && (r matches Some((id, _)) && id == old(
                    self,
                )@[p as int].id)
            }),
            action matches CommandAction::Stop(p) ==> (if hr >= 0 {
                r is None && final(self)@ == old(self)@.update(
                    p as int,
                    LoopStream { playing: false, ..old(self)@[p as int] },
                )
            } else {
                final(self)@ == old(self)@.remove(p as int) && (r matches Some((id, _)) && id == old(
                    self,
                )@[p as int].id)
            }),
            r matches Some((_, e)) ==> (hr == AUDCLNT_E_DEVICE_INVALIDATED ==> e is DeviceNotAvailable)
                && (hr != AUDCLNT_E_DEVICE_INVALIDATED ==> (e matches StreamError::BackendSpecific(d)
                && d@ == description@)),
    {
        proof {
            use_type_invariant(&*self);
        }
        let (p, playing) = match action {
            CommandAction::Nothing => {
                return None;
            },
            CommandAction::Start(p) => (p, true),
            CommandAction::Stop(p) => (p, false),
        };
        match stream_error_from_hresult(hr, description) {
            Ok(()) => {
                let mut s = self.streams[p];
                s.playing = playing;
                let (mut streams, handles) = self.take_parts();
                let ghost handles0 = handles@;
                let ghost streams0 = streams@;
                streams.set(p, s);
                proof {
                    assert forall|i: int| 0 <= i < streams@.len() implies #[trigger] handles@[i + 1]
                        == streams@[i].event by {
                        assert(handles0[i + 1] == streams0[i].event);
                    }
                }
                *self = RunContext { streams, handles };
                None
            },
            Err(e) => {
                let id = self.streams[p].id;
                self.remove_at(p);
                Some((id, e))
            },
        }
    }
}

/// Starting a paused stream that succeeds and then pausing it again leaves the loop as it
/// was.
pub proof fn lemma_start_then_stop(streams: Seq<LoopStream>, p: int)
    requires
        0 <= p < streams.len(),
        !streams[p].playing,
    ensures
        streams.update(p, LoopStream { playing: true, ..streams[p] }).update(
            p,
            LoopStream { playing: false, ..streams.update(p, LoopStream { playing: true, ..streams[p] })[p] },
        ) == streams,
{
    let s1 = streams.update(p, LoopStream { playing: true, ..streams[p] });
    let s2 = s1.update(p, LoopStream { playing: false, ..s1[p] });
    assert(s2 =~= streams);
}

} // verus!
