//! The output pump of one session: it turns the chunks read from the
//! pseudo-terminal into batches of text for the host.
//!
//! The pump itself neither reads nor sends. Its caller waits for the next
//! chunk for at most [`EMIT_INTERVAL_MILLIS`], tells the pump what happened,
//! and carries out the action that the pump answers with.

use crate::utf8_stream::{
    decode_lossy, decode_pending, is_incomplete_scalar, lemma_held_is_unfinished,
    lemma_stream_decode_chunks, lemma_stream_decode_of_valid_beginning, lemma_stream_decode_valid,
    stream_decode, REPLACEMENT,
};
use vstd::prelude::*;
use vstd::string::StringExecFns;
use vstd::utf8::*;

verus! {

/// How long the caller waits for a chunk before it reports a timeout.
pub const EMIT_INTERVAL_MILLIS: u64 = 16;

/// Buffered text of at least this many bytes is sent without waiting.
pub const EMIT_MAX_BUFFER_BYTES: usize = 65536;

/// The largest chunk that the reader hands over at once.
pub const READ_CHUNK_BYTES: usize = 16384;

/// What the caller observed while waiting on the reader's queue.
#[derive(Debug, Clone, PartialEq, Eq)]
pub enum PumpEvent {
    /// The reader delivered these bytes.
    Chunk(Vec<u8>),
    /// Nothing arrived within the interval.
    Timeout,
    /// The reader is gone: the stream has ended.
    Disconnected,
    /// The host did not accept the last batch.
    EmitFailed,
}

/// A [`PumpEvent`] as a mathematical value.
pub enum PumpInput {
    Chunk(Seq<u8>),
    Timeout,
    Disconnected,
    EmitFailed,
}

impl View for PumpEvent {
    type V = PumpInput;

    open spec fn view(&self) -> PumpInput {
        match self {
            PumpEvent::Chunk(bytes) => PumpInput::Chunk(bytes@),
            PumpEvent::Timeout => PumpInput::Timeout,
            PumpEvent::Disconnected => PumpInput::Disconnected,
            PumpEvent::EmitFailed => PumpInput::EmitFailed,
        }
    }
}

/// What the caller does next.
#[derive(Debug, Clone, PartialEq, Eq)]
pub struct PumpAction {
    /// A batch to send to the host as one data event.
    pub emit: Option<String>,
    /// True when the worker ends after this action.
    pub stop: bool,
}

/// A [`PumpAction`] as a mathematical value.
pub struct PumpOutput {
    pub emit: Option<Seq<char>>,
    pub stop: bool,
}

impl View for PumpAction {
    type V = PumpOutput;

    open spec fn view(&self) -> PumpOutput {
        PumpOutput {
            emit: match self.emit {
                Some(text) => Some(text@),
                None => None,
            },
            stop: self.stop,
        }
    }
}

/// The pump as a mathematical value.
pub struct PumpState {
    /// The unfinished scalar at the end of the bytes seen so far.
    pub held: Seq<u8>,
    /// Text decoded but not yet sent.
    pub text: Seq<char>,
    /// True once the stream has ended or the host has gone away.
    pub finished: bool,
}

/// True when the pump holds back nothing but an unfinished scalar, of at
/// most three bytes, and buffers less text than the threshold.
pub open spec fn pump_bounded(s: PumpState) -> bool {
    &&& s.held.len() <= 3
    &&& s.held.len() == 0 || is_incomplete_scalar(s.held)
    &&& utf8_len(s.text) < EMIT_MAX_BUFFER_BYTES
}

/// The state of a pump that has seen nothing.
pub open spec fn pump_initial() -> PumpState {
    PumpState { held: Seq::empty(), text: Seq::empty(), finished: false }
}

/// The batch that empties a text buffer: none when there is nothing to send.
pub open spec fn flush_of(text: Seq<char>) -> Option<Seq<char>> {
    if text.len() == 0 {
        None
    } else {
        Some(text)
    }
}

/// The length in bytes of `text` encoded as UTF-8, as a `String` reports it.
pub open spec fn utf8_len(text: Seq<char>) -> usize {
    encode_utf8(text).len() as usize
}

/// The pump's transition: the state after `input`, and the action.
pub open spec fn pump_step(s: PumpState, input: PumpInput) -> (PumpState, PumpOutput) {
    if s.finished {
        (s, PumpOutput { emit: None, stop: true })
    } else {
        match input {
            PumpInput::Chunk(bytes) => {
                let d = stream_decode(s.held + bytes);
                let text = s.text + d.text;
                if utf8_len(text) >= EMIT_MAX_BUFFER_BYTES {
                    (
                        PumpState { held: d.held, text: Seq::empty(), finished: false },
                        PumpOutput { emit: Some(text), stop: false },
                    )
                } else {
                    (
                        PumpState { held: d.held, text: text, finished: false },
                        PumpOutput { emit: None, stop: false },
                    )
                }
            },
            PumpInput::Timeout => (
                PumpState { held: s.held, text: Seq::empty(), finished: false },
                PumpOutput { emit: flush_of(s.text), stop: false },
            ),
            PumpInput::Disconnected => (
                PumpState { held: Seq::empty(), text: Seq::empty(), finished: true },
                PumpOutput { emit: flush_of(s.text + decode_lossy(s.held)), stop: true },
            ),
            PumpInput::EmitFailed => (
                PumpState { held: Seq::empty(), text: Seq::empty(), finished: true },
                PumpOutput { emit: None, stop: true },
            ),
        }
    }
}

/// The decoding and batching state of one session's output.
pub struct OutputPump {
    pending_bytes: Vec<u8>,
    pending: String,
    finished: bool,
}

impl View for OutputPump {
    type V = PumpState;

    closed spec fn view(&self) -> PumpState {
        PumpState { held: self.pending_bytes@, text: self.pending@, finished: self.finished }
    }
}

impl OutputPump {
    /// Between two events only an unfinished scalar is held back, and the
    /// buffered text is shorter than the threshold.
    #[verifier::type_invariant]
    spec fn buffers_are_bounded(self) -> bool {
        pump_bounded(self@)
    }

    /// A pump that has seen nothing.
    pub fn new() -> (pump: Self)
        ensures
            pump@ == pump_initial(),
            pump_bounded(pump@),
    {
        assert(encode_utf8(Seq::<char>::empty()).len() == 0);
        OutputPump { pending_bytes: Vec::new(), pending: String::new(), finished: false }
    }

    /// True once the stream has ended or the host has gone away.
    pub fn is_finished(&self) -> (finished: bool)
        ensures
            finished == self@.finished,
    {
        self.finished
    }

    /// Moves the held bytes out, leaving none.
    fn take_held(&mut self) -> (held: Vec<u8>)
        ensures
            held@ == old(self)@.held,
            final(self)@ == (PumpState { held: Seq::empty(), ..old(self)@ }),
    {
        proof {
            use_type_invariant(&*self);
        }
        let mut held: Vec<u8> = Vec::new();
        std::mem::swap(&mut self.pending_bytes, &mut held);
        held
    }

    /// Moves the buffered text out, leaving none.
    fn take_text(&mut self) -> (text: String)
        ensures
            text@ == old(self)@.text,
            final(self)@ == (PumpState { text: Seq::empty(), ..old(self)@ }),
    {
        proof {
            use_type_invariant(&*self);
            assert(encode_utf8(Seq::<char>::empty()).len() == 0);
        }
        let mut text = String::new();
        std::mem::swap(&mut self.pending, &mut text);
        text
    }

    /// Takes the buffered text out as a batch, if there is any.
    fn flush(&mut self) -> (batch: Option<String>)
        ensures
            final(self)@ == (PumpState { text: Seq::empty(), ..old(self)@ }),
            batch.is_some() == (old(self)@.text.len() > 0),
            batch matches Some(text) ==> text@ == old(self)@.text,
    {
        if self.pending.as_str().is_empty() {
            assert(self.pending@ =~= Seq::<char>::empty());
            None
        } else {
            Some(self.take_text())
        }
    }

    /// Takes in one event and says what to do next.
    pub fn step(&mut self, event: PumpEvent) -> (action: PumpAction)
        ensures
            final(self)@ == pump_step(old(self)@, event@).0,
            action@ == pump_step(old(self)@, event@).1,
            pump_bounded(old(self)@),
            pump_bounded(final(self)@),
    {
        proof {
            use_type_invariant(&*self);
        }
        if self.finished {
            return PumpAction { emit: None, stop: true };
        }
        match event {
            PumpEvent::Chunk(bytes) => {
                let ghost chunk = bytes@;
                let mut bytes = bytes;
                let mut held = self.take_held();
                let mut text = self.take_text();
                held.append(&mut bytes);
                proof {
                    lemma_held_is_unfinished(old(self)@.held + chunk);
                }
                decode_pending(&mut held, &mut text);
                self.pending_bytes = held;
                if text.as_str().len() >= EMIT_MAX_BUFFER_BYTES {
                    PumpAction { emit: Some(text), stop: false }
                } else {
                    self.pending = text;
                    PumpAction { emit: None, stop: false }
                }
            },
            PumpEvent::Timeout => {
                let emit = self.flush();
                PumpAction { emit, stop: false }
            },
            PumpEvent::Disconnected => {
                let held = self.take_held();
                let mut text = self.take_text();
                if held.len() > 0 {
                    text.append("\u{FFFD}");
                    proof {
                        reveal_strlit("\u{FFFD}");
                        assert("\u{FFFD}"@ =~= seq![REPLACEMENT]);
                        lemma_held_is_unfinished(old(self)@.held);
                    }
                }
                assert(old(self)@.text + decode_lossy(old(self)@.held) =~= text@);
                self.finished = true;
                if text.as_str().is_empty() {
                    PumpAction { emit: None, stop: true }
                } else {
                    PumpAction { emit: Some(text), stop: true }
                }
            },
            PumpEvent::EmitFailed => {
                let _ = self.take_held();
                let _ = self.take_text();
                self.finished = true;
                PumpAction { emit: None, stop: true }
            },
        }
    }
}

/// The bytes that `input` delivers.
pub open spec fn input_bytes(input: PumpInput) -> Seq<u8> {
    match input {
        PumpInput::Chunk(bytes) => bytes,
        _ => Seq::empty(),
    }
}

/// The text that `output` sends to the host.
pub open spec fn output_text(output: PumpOutput) -> Seq<char> {
    match output.emit {
        Some(text) => text,
        None => Seq::empty(),
    }
}

/// The state of a fresh pump after `inputs`, taken in order.
pub open spec fn pump_after(inputs: Seq<PumpInput>) -> PumpState
    decreases inputs.len(),
{
    if inputs.len() == 0 {
        pump_initial()
    } else {
        pump_step(pump_after(inputs.drop_last()), inputs.last()).0
    }
}

/// All the text that a fresh pump sends while it takes in `inputs`.
pub open spec fn pump_emitted(inputs: Seq<PumpInput>) -> Seq<char>
    decreases inputs.len(),
{
    if inputs.len() == 0 {
        Seq::empty()
    } else {
        pump_emitted(inputs.drop_last()) + output_text(
            pump_step(pump_after(inputs.drop_last()), inputs.last()).1,
        )
    }
}

/// All the bytes that `inputs` deliver, in order.
pub open spec fn fed_bytes(inputs: Seq<PumpInput>) -> Seq<u8>
    decreases inputs.len(),
{
    if inputs.len() == 0 {
        Seq::empty()
    } else {
        fed_bytes(inputs.drop_last()) + input_bytes(inputs.last())
    }
}

/// True when every input is a chunk or a timeout: the stream is still open.
pub open spec fn stream_open(inputs: Seq<PumpInput>) -> bool {
    forall|i: int|
        0 <= i < inputs.len() ==> (#[trigger] inputs[i] is Chunk || inputs[i] is Timeout)
}

/// While the stream is open, what was sent followed by what is buffered is
/// the decoding of all bytes delivered so far, and what is held back is
/// theirs too, however the bytes were cut into chunks and wherever timeouts
/// fell between them.
pub proof fn lemma_pump_tracks_stream(inputs: Seq<PumpInput>)
    requires
        stream_open(inputs),
    ensures
        !pump_after(inputs).finished,
        pump_emitted(inputs) + pump_after(inputs).text == stream_decode(fed_bytes(inputs)).text,
        pump_after(inputs).held == stream_decode(fed_bytes(inputs)).held,
    decreases inputs.len(),
{
    if inputs.len() == 0 {
        assert(pump_emitted(inputs) + pump_after(inputs).text =~= Seq::<char>::empty());
    } else {
        let before = inputs.drop_last();
        assert forall|i: int| 0 <= i < before.len() implies (#[trigger] before[i] is Chunk
            || before[i] is Timeout) by {
            assert(before[i] == inputs[i]);
        }
        lemma_pump_tracks_stream(before);
        let s = pump_after(before);
        let sent = pump_emitted(before);
        match inputs.last() {
            PumpInput::Chunk(bytes) => {
                lemma_stream_decode_chunks(fed_bytes(before), bytes);
                let d = stream_decode(s.held + bytes);
                assert(sent + (s.text + d.text) =~= (sent + s.text) + d.text);
                assert((sent + (s.text + d.text)) + Seq::<char>::empty() =~= sent + (s.text
                    + d.text));
            },
            _ => {
                assert(fed_bytes(before) + Seq::<u8>::empty() =~= fed_bytes(before));
                assert(sent + flush_of(s.text).unwrap_or(Seq::empty()) =~= sent + s.text);
                assert((sent + s.text) + Seq::<char>::empty() =~= sent + s.text);
            },
        }
    }
}

/// Stream law: when the stream ends, everything that was sent, the last
/// batch included, is the lossy decoding of all the bytes delivered, however
/// they were cut into chunks.
pub proof fn lemma_pump_emits_whole_stream(inputs: Seq<PumpInput>)
    requires
        stream_open(inputs),
    ensures
        pump_emitted(inputs.push(PumpInput::Disconnected)) == decode_lossy(fed_bytes(inputs)),
        pump_after(inputs.push(PumpInput::Disconnected)).finished,
{
    lemma_pump_tracks_stream(inputs);
    let all = inputs.push(PumpInput::Disconnected);
    assert(all.drop_last() =~= inputs);
    let s = pump_after(inputs);
    let bytes = fed_bytes(inputs);
    lemma_held_is_unfinished(bytes);
    let tail = decode_lossy(s.held);
    assert(output_text(pump_step(s, PumpInput::Disconnected).1) =~= s.text + tail);
    assert(pump_emitted(inputs) + (s.text + tail) =~= (pump_emitted(inputs) + s.text) + tail);
    if s.held.len() == 0 {
        assert(stream_decode(bytes).text + Seq::<char>::empty() =~= stream_decode(bytes).text);
    }
}

/// Whole-character law: while the bytes delivered so far are the beginning of
/// well-formed UTF-8, what was sent and what is buffered is the text of whole
/// characters only, with nothing replaced: encoded again, and followed by what
/// is held back, it is the bytes delivered. A character that a chunk boundary
/// cuts is therefore held back, never sent in part.
pub proof fn lemma_pump_keeps_characters_whole(inputs: Seq<PumpInput>, rest: Seq<u8>)
    requires
        stream_open(inputs),
        valid_utf8(fed_bytes(inputs) + rest),
    ensures
        fed_bytes(inputs) == encode_utf8(pump_emitted(inputs) + pump_after(inputs).text)
            + pump_after(inputs).held,
{
    lemma_pump_tracks_stream(inputs);
    lemma_stream_decode_of_valid_beginning(fed_bytes(inputs), rest);
}

/// Once the bytes delivered are well-formed UTF-8 as a whole, nothing is held
/// back, and the next timeout has sent all of their text: a character that
/// was cut by a chunk boundary is sent whole by the first flush after its last
/// byte.
pub proof fn lemma_pump_flushes_completed_text(inputs: Seq<PumpInput>)
    requires
        stream_open(inputs),
        valid_utf8(fed_bytes(inputs)),
    ensures
        pump_after(inputs).held.len() == 0,
        pump_emitted(inputs.push(PumpInput::Timeout)) == decode_utf8(fed_bytes(inputs)),
{
    lemma_pump_tracks_stream(inputs);
    lemma_stream_decode_valid(fed_bytes(inputs));
    let all = inputs.push(PumpInput::Timeout);
    assert(all.drop_last() =~= inputs);
    let s = pump_after(inputs);
    assert(output_text(pump_step(s, PumpInput::Timeout).1) =~= s.text);
}

/// Bounds law: a batch that is sent is never empty, and after every event
/// the text still buffered is shorter than the threshold and at most three
/// bytes are held back, so the pump's memory does not grow with the stream.
pub proof fn lemma_pump_is_bounded(s: PumpState, input: PumpInput)
    requires
        pump_bounded(s),
    ensures
        pump_step(s, input).1.emit matches Some(text) ==> text.len() > 0,
        pump_bounded(pump_step(s, input).0),
{
    assert(encode_utf8(Seq::<char>::empty()).len() == 0);
    match input {
        PumpInput::Chunk(bytes) => {
            lemma_held_is_unfinished(s.held + bytes);
        },
        _ => {},
    }
}

/// Once the stream has ended or the host has gone away the pump is done:
/// whatever it is told, it stays as it is, sends nothing and says to stop.
pub proof fn lemma_finished_pump_stays_silent(s: PumpState, input: PumpInput)
    requires
        s.finished,
    ensures
        pump_step(s, input).0 == s,
        pump_step(s, input).1 == (PumpOutput { emit: None, stop: true }),
{
}

/// The end of the stream and a failed emit each finish the pump, and it says
/// to stop.
pub proof fn lemma_end_finishes_pump(s: PumpState)
    ensures
        pump_step(s, PumpInput::Disconnected).0.finished,
        pump_step(s, PumpInput::Disconnected).1.stop,
        pump_step(s, PumpInput::EmitFailed).0.finished,
        pump_step(s, PumpInput::EmitFailed).1.stop,
        pump_step(s, PumpInput::EmitFailed).1.emit is None,
{
}

} // verus!
