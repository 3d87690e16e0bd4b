//! Decisions of a running transcription session.
//!
//! The session's owner runs two loops over one connection. The outbound loop
//! waits for audio blocks and control messages, hands each to
//! [`OutboundStream::on_event`] and transmits the frame that comes back. The
//! inbound loop hands whatever the socket yields to [`on_socket_event`] and
//! forwards, continues or stops as told.
//!
//! The end of the audio is announced exactly once, by whichever comes first:
//! a stop request or the audio source closing.

use crate::network::ControlMessage;
use crate::transcript::{event_of_document, forwarded_of, json_document, TranscriptEvent};
use crate::wire::{
    audio_frame_text, base64_standard, encode_audio_frame, frame_fits, pcm16_le_bytes,
    END_STREAM_FRAME,
};
use vstd::prelude::*;

verus! {

/// A frame that is due for transmission.
#[derive(Debug, Clone, PartialEq, Eq)]
pub enum OutboundFrame {
    /// One block of samples.
    Audio(Vec<i16>),
    /// The announcement that no more audio follows.
    EndStream,
}

/// Mathematical model of an [`OutboundFrame`].
pub enum FrameModel {
    Audio(Seq<i16>),
    EndStream,
}

impl FrameModel {
    /// The text that goes on the wire for this frame.
    pub open spec fn text(self) -> Seq<char> {
        match self {
            FrameModel::Audio(samples) => audio_frame_text(
                base64_standard(pcm16_le_bytes(samples)),
            ),
            FrameModel::EndStream => END_STREAM_FRAME@,
        }
    }

    /// Whether the frame's text can be built on this machine.
    pub open spec fn fits(self) -> bool {
        match self {
            FrameModel::Audio(samples) => frame_fits(samples.len()),
            FrameModel::EndStream => true,
        }
    }
}

impl View for OutboundFrame {
    type V = FrameModel;

    open spec fn view(&self) -> FrameModel {
        match *self {
            OutboundFrame::Audio(samples) => FrameModel::Audio(samples@),
            OutboundFrame::EndStream => FrameModel::EndStream,
        }
    }
}

impl OutboundFrame {
    /// Tells whether [`OutboundFrame::encode`] may be called on this frame.
    pub fn fits(&self) -> (fits: bool)
        ensures
            fits == self@.fits(),
    {
        match self {
            OutboundFrame::Audio(samples) => {
                let bytes: u128 = 2 * (samples.len() as u128);
                bytes / 3 * 4 + 4 <= usize::MAX as u128
            },
            OutboundFrame::EndStream => true,
        }
    }

    /// The text to transmit for this frame.
    pub fn encode(&self) -> (text: String)
        requires
            self@.fits(),
        ensures
            text@ == self@.text(),
    {
        match self {
            OutboundFrame::Audio(samples) => encode_audio_frame(samples.as_slice()),
            OutboundFrame::EndStream => String::from_str(END_STREAM_FRAME),
        }
    }
}

/// What the outbound loop waits for.
#[derive(Debug, Clone, PartialEq, Eq)]
pub enum OutboundEvent {
    /// A control message arrived.
    Control(ControlMessage),
    /// The capture side delivered a block of samples.
    Audio(Vec<i16>),
    /// The capture side is gone: no further block will come.
    AudioClosed,
}

/// What can happen to the outbound loop: an event, or the failure of the
/// transmission that the previous event asked for.
pub enum OutboundInput {
    Stop,
    Audio(Seq<i16>),
    AudioClosed,
    SendFailed,
}

impl OutboundInput {
    /// The input asks for the end of the audio stream.
    pub open spec fn ends_audio(self) -> bool {
        self is Stop || self is AudioClosed
    }
}

impl View for OutboundEvent {
    type V = OutboundInput;

    open spec fn view(&self) -> OutboundInput {
        match *self {
            OutboundEvent::Control(ControlMessage::Stop) => OutboundInput::Stop,
            OutboundEvent::Audio(samples) => OutboundInput::Audio(samples@),
            OutboundEvent::AudioClosed => OutboundInput::AudioClosed,
        }
    }
}

/// Mathematical model of an [`OutboundStream`].
pub struct OutboundState {
    /// The loop still takes events.
    pub open: bool,
    /// The end-of-stream frame has been handed out for transmission.
    pub end_stream_sent: bool,
}

impl OutboundState {
    /// The state of a freshly connected session.
    pub open spec fn initial() -> OutboundState {
        OutboundState { open: true, end_stream_sent: false }
    }

    /// The end-of-stream frame is only ever handed out on closing.
    pub open spec fn consistent(self) -> bool {
        self.end_stream_sent ==> !self.open
    }

    /// The state after `input`, and the frame to transmit for it.
    pub open spec fn step(self, input: OutboundInput) -> (OutboundState, Option<FrameModel>) {
        if !self.open {
            (self, None)
        } else {
            match input {
                OutboundInput::Stop | OutboundInput::AudioClosed => (
                    OutboundState { open: false, end_stream_sent: true },
                    Some(FrameModel::EndStream),
                ),
                OutboundInput::Audio(samples) => (self, Some(FrameModel::Audio(samples))),
                OutboundInput::SendFailed => (
                    OutboundState { open: false, end_stream_sent: self.end_stream_sent },
                    None,
                ),
            }
        }
    }

    /// The frames handed out for transmission along `inputs`, in order.
    pub open spec fn transmitted(self, inputs: Seq<OutboundInput>) -> Seq<FrameModel>
        decreases inputs.len(),
    {
        if inputs.len() == 0 {
            Seq::empty()
        } else {
            let (next, frame) = self.step(inputs[0]);
            let rest = next.transmitted(inputs.skip(1));
            match frame {
                Some(frame) => seq![frame] + rest,
                None => rest,
            }
        }
    }
}

/// How many of `frames` announce the end of the stream.
pub open spec fn end_stream_count(frames: Seq<FrameModel>) -> nat
    decreases frames.len(),
{
    if frames.len() == 0 {
        0
    } else {
        end_stream_count(frames.skip(1)) + if frames[0] is EndStream {
            1nat
        } else {
            0nat
        }
    }
}

/// The audio blocks of `inputs`, each as the frame that carries it.
pub open spec fn audio_frames(inputs: Seq<OutboundInput>) -> Seq<FrameModel>
    decreases inputs.len(),
{
    if inputs.len() == 0 {
        Seq::empty()
    } else {
        let rest = audio_frames(inputs.skip(1));
        match inputs[0] {
            OutboundInput::Audio(samples) => seq![FrameModel::Audio(samples)] + rest,
            _ => rest,
        }
    }
}

/// View of an optional frame.
pub open spec fn frame_view(frame: Option<OutboundFrame>) -> Option<FrameModel> {
    match frame {
        Some(frame) => Some(frame@),
        None => None,
    }
}

/// State of the outbound loop of one session.
#[derive(Debug)]
pub struct OutboundStream {
    open: bool,
    end_stream_sent: bool,
}

impl View for OutboundStream {
    type V = OutboundState;

    closed spec fn view(&self) -> OutboundState {
        OutboundState { open: self.open, end_stream_sent: self.end_stream_sent }
    }
}

impl OutboundStream {
    pub fn new() -> (stream: OutboundStream)
        ensures
            stream@ == OutboundState::initial(),
    {
        OutboundStream { open: true, end_stream_sent: false }
    }

    /// Whether the loop should wait for another event.
    pub fn is_open(&self) -> (open: bool)
        ensures
            open == self@.open,
    {
        self.open
    }

    /// Whether the end-of-stream frame has been handed out.
    pub fn end_stream_sent(&self) -> (sent: bool)
        ensures
            sent == self@.end_stream_sent,
    {
        self.end_stream_sent
    }

    /// Takes one event and tells what to transmit for it. A stop request and
    /// the closing of the audio source both yield the end-of-stream frame and
    /// close the loop; a block of samples yields its audio frame. Once the
    /// loop is closed nothing is handed out any more.
    pub fn on_event(&mut self, event: OutboundEvent) -> (frame: Option<OutboundFrame>)
        ensures
            (final(self)@, frame_view(frame)) == old(self)@.step(event@),
    {
        if !self.open {
            return None;
        }
        match event {
            OutboundEvent::Control(ControlMessage::Stop) => {
                self.open = false;
                self.end_stream_sent = true;
                Some(OutboundFrame::EndStream)
            },
            OutboundEvent::AudioClosed => {
                self.open = false;
                self.end_stream_sent = true;
                Some(OutboundFrame::EndStream)
            },
            OutboundEvent::Audio(samples) => Some(OutboundFrame::Audio(samples)),
        }
    }

    /// Records that the last frame could not be transmitted: the loop closes
    /// and nothing more is sent.
    pub fn on_send_failure(&mut self)
        ensures
            final(self)@ == old(self)@.step(OutboundInput::SendFailed).0,
    {
        self.open = false;
    }
}

/// A closed loop hands out nothing, whatever happens.
pub proof fn lemma_closed_stream_is_silent(state: OutboundState, inputs: Seq<OutboundInput>)
    requires
        !state.open,
    ensures
        state.transmitted(inputs) == Seq::<FrameModel>::empty(),
    decreases inputs.len(),
{
    if inputs.len() > 0 {
        lemma_closed_stream_is_silent(state, inputs.skip(1));
    }
}

/// Whatever happens to a session, in whatever order, the end-of-stream frame
/// is handed out at most once.
pub proof fn lemma_end_stream_at_most_once(state: OutboundState, inputs: Seq<OutboundInput>)
    requires
        state.consistent(),
    ensures
        end_stream_count(state.transmitted(inputs)) <= 1,
        state.end_stream_sent ==> end_stream_count(state.transmitted(inputs)) == 0,
    decreases inputs.len(),
{
    if !state.open {
        lemma_closed_stream_is_silent(state, inputs);
    } else if inputs.len() > 0 {
        let (next, frame) = state.step(inputs[0]);
        let rest = next.transmitted(inputs.skip(1));
        lemma_end_stream_at_most_once(next, inputs.skip(1));
        match frame {
            Some(frame) => {
                assert((seq![frame] + rest).skip(1) =~= rest);
            },
            None => {},
        }
    }
}

/// For any interleaving of stop requests, audio blocks and the closing of the
/// audio source: if the first thing that is no audio block asks for the end
/// of the stream, then the audio blocks before it are transmitted in order,
/// the end-of-stream frame follows exactly once, and nothing comes after it.
pub proof fn lemma_end_stream_exactly_once(inputs: Seq<OutboundInput>, first_end: int)
    requires
        0 <= first_end < inputs.len(),
        inputs[first_end].ends_audio(),
        forall|k: int| 0 <= k < first_end ==> inputs[k] is Audio,
    ensures
        OutboundState::initial().transmitted(inputs) == audio_frames(inputs.take(first_end))
            + seq![FrameModel::EndStream],
        end_stream_count(OutboundState::initial().transmitted(inputs)) == 1,
    decreases first_end,
{
    let state = OutboundState::initial();
    let (next, frame) = state.step(inputs[0]);
    let rest = next.transmitted(inputs.skip(1));
    if first_end == 0 {
        lemma_closed_stream_is_silent(next, inputs.skip(1));
        assert(inputs.take(0) =~= Seq::<OutboundInput>::empty());
        assert(state.transmitted(inputs) =~= seq![FrameModel::EndStream]);
        assert(seq![FrameModel::EndStream].skip(1) =~= Seq::<FrameModel>::empty());
        assert(end_stream_count(Seq::<FrameModel>::empty()) == 0);
    } else {
        let later = inputs.skip(1);
        assert(later[first_end - 1] == inputs[first_end]);
        assert forall|k: int| 0 <= k < first_end - 1 implies later[k] is Audio by {
            assert(later[k] == inputs[k + 1]);
        }
        lemma_end_stream_exactly_once(later, first_end - 1);
        assert(inputs.take(first_end).skip(1) =~= later.take(first_end - 1));
        assert(inputs.take(first_end)[0] == inputs[0]);
        let sent = state.transmitted(inputs);
        assert(sent =~= seq![frame->0] + rest);
        assert(sent.skip(1) =~= rest);
        assert(sent[0] is Audio);
        assert(end_stream_count(sent) == end_stream_count(rest));
    }
}

/// What the read half of the connection yielded.
#[derive(Debug, Clone, PartialEq, Eq)]
pub enum SocketEvent {
    /// A text message.
    Text(String),
    /// The peer closed the connection.
    Closed,
    /// Reading failed.
    Failed,
    /// Any other kind of message.
    Other,
}

/// What the inbound loop does next.
#[derive(Debug, Clone, PartialEq, Eq)]
pub enum InboundAction {
    /// Hand this transcript on for injection, then go on reading.
    Forward(String),
    /// Go on reading.
    Continue,
    /// Leave the loop.
    Stop,
}

/// The final, non-empty transcript that an inbound text frame carries.
pub open spec fn forwarded_transcript(frame: Seq<char>) -> Option<Seq<char>> {
    forwarded_of(event_of_document(json_document(frame)))
}

/// Decides what the inbound loop does with what it read. Text frames are
/// parsed, and the transcript of a final event is forwarded when it is not
/// empty; a close message or a read failure ends the loop; everything else is
/// passed over.
pub fn on_socket_event(event: SocketEvent) -> (action: InboundAction)
    ensures
        match action {
            InboundAction::Forward(text) => event matches SocketEvent::Text(frame)
                && forwarded_transcript(frame@) == Some(text@),
            InboundAction::Continue => event is Other || (event matches SocketEvent::Text(frame)
                && forwarded_transcript(frame@) is None),
            InboundAction::Stop => event is Closed || event is Failed,
        },
{
    match event {
        SocketEvent::Text(frame) => match TranscriptEvent::parse(frame.as_str()) {
            Some(parsed) => match parsed.forwarded_text() {
                Some(text) => InboundAction::Forward(text),
                None => InboundAction::Continue,
            },
            None => InboundAction::Continue,
        },
        SocketEvent::Closed => InboundAction::Stop,
        SocketEvent::Failed => InboundAction::Stop,
        SocketEvent::Other => InboundAction::Continue,
    }
}

} // verus!
