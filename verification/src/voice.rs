//! Speech-to-text requests and the registry of chunks that wait for their
//! transcription.

use std::collections::HashMap;
use vstd::prelude::*;

use crate::channels::{delivery_of, send_oneshot, Delivery};
use crate::correlation::{register, resolve, target};

verus! {

broadcast use vstd::std_specs::hash::group_hash_axioms;

/// What the audio of a client is meant for.
#[derive(Debug, Clone, Copy, PartialEq, Eq, Structural)]
pub enum AudioContext {
    Discover,
    Search,
    Instruct,
}

/// A piece of audio as a client sent it.
#[derive(Clone, Debug, PartialEq)]
pub struct AudioData {
    pub payload: Vec<u8>,
    pub count: usize,
}

/// One chunk of a conversation, to be transcribed.
#[derive(Clone, Debug, PartialEq)]
pub struct SpeechToText {
    pub conversation_id: u128,
    pub payload: Vec<u8>,
    pub count: usize,
    pub finalize: bool,
}

/// A chunk as it goes to the transcription service, with the topic on which
/// this process awaits the text.
#[derive(Clone, Debug, PartialEq)]
pub struct SpeechToTextRequest {
    pub conversation_id: u128,
    pub payload: Vec<u8>,
    pub count: usize,
    pub beam: String,
    pub finalize: bool,
}

impl SpeechToTextRequest {
    /// The request for chunk `stt`, to be answered on `beam`.
    pub fn extend_from(stt: SpeechToText, beam: String) -> (request: SpeechToTextRequest)
        ensures
            request.conversation_id == stt.conversation_id,
            request.payload == stt.payload,
            request.count == stt.count,
            request.beam == beam,
            request.finalize == stt.finalize,
    {
        SpeechToTextRequest {
            conversation_id: stt.conversation_id,
            payload: stt.payload,
            count: stt.count,
            beam,
            finalize: stt.finalize,
        }
    }
}

/// The text of one chunk of a conversation.
#[derive(Clone, Debug, PartialEq)]
pub struct SpeechToTextResponse {
    pub conversation_id: u128,
    pub count: usize,
    pub payload: String,
    pub finalized: bool,
}

/// The chunks that wait for their text, by conversation and by the number of
/// the chunk in it. Several chunks of one conversation may wait at once.
/// The registry is a map by conversation of maps by number, each keyed by an
/// integer, as `vstd` models hashing for integer keys only; its view is the
/// one map keyed by the pair. A conversation without a pending chunk has no
/// inner map.
pub struct VoiceResponseCollection {
    inner: HashMap<u128, HashMap<usize, tokio::sync::oneshot::Sender<SpeechToTextResponse>>>,
}

impl View for VoiceResponseCollection {
    type V = Map<(u128, usize), tokio::sync::oneshot::Sender<SpeechToTextResponse>>;

    /// The waiting sender of each pending chunk.
    closed spec fn view(&self) -> Self::V {
        Map::new(
            |key: (u128, usize)|
                self.inner@.contains_key(key.0) && self.inner@[key.0]@.contains_key(key.1),
            |key: (u128, usize)| self.inner@[key.0]@[key.1],
        )
    }
}

impl VoiceResponseCollection {
    /// A registry with no pending chunk.
    pub fn new() -> (requests: Self)
        ensures
            requests@ == Map::<
                (u128, usize),
                tokio::sync::oneshot::Sender<SpeechToTextResponse>,
            >::empty(),
    {
        let requests = VoiceResponseCollection { inner: HashMap::new() };
        assert(requests@ =~= Map::<
            (u128, usize),
            tokio::sync::oneshot::Sender<SpeechToTextResponse>,
        >::empty());
        requests
    }

    /// Registers `sender` as the slot of chunk `count` of the conversation,
    /// in place of any earlier slot of that chunk.
    pub fn insert(
        &mut self,
        conversation_id: u128,
        count: usize,
        sender: tokio::sync::oneshot::Sender<SpeechToTextResponse>,
    )
        ensures
            final(self)@ == register(old(self)@, (conversation_id, count), sender),
    {
        let mut chunks = match self.inner.remove(&conversation_id) {
            Some(chunks) => chunks,
            None => HashMap::new(),
        };
        chunks.insert(count, sender);
        self.inner.insert(conversation_id, chunks);
        assert(self@ =~= register(old(self)@, (conversation_id, count), sender));
    }

    /// Whether chunk `count` of the conversation waits for its text.
    pub fn is_pending(&self, conversation_id: u128, count: usize) -> (pending: bool)
        ensures
            pending == self@.contains_key((conversation_id, count)),
    {
        match self.inner.get(&conversation_id) {
            Some(chunks) => chunks.contains_key(&count),
            None => false,
        }
    }

    /// Takes the slot of chunk `count` of the conversation out of the
    /// registry, if that chunk is pending.
    pub fn remove(&mut self, conversation_id: u128, count: usize) -> (slot: Option<
        tokio::sync::oneshot::Sender<SpeechToTextResponse>,
    >)
        ensures
            slot == target(old(self)@, (conversation_id, count)),
            final(self)@ == resolve(old(self)@, (conversation_id, count)),
    {
        let slot = match self.inner.remove(&conversation_id) {
            Some(mut chunks) => {
                let slot = chunks.remove(&count);
                if !chunks.is_empty() {
                    self.inner.insert(conversation_id, chunks);
                }
                slot
            },
            None => None,
        };
        assert(self@ =~= resolve(old(self)@, (conversation_id, count)));
        slot
    }

    /// Resolves the chunk that `voice_response` names: its slot leaves the
    /// registry and is handed the response. Every other chunk stays pending.
    /// A response that matches no pending chunk is dropped.
    pub fn send_response(&mut self, voice_response: SpeechToTextResponse) -> (delivery: Delivery)
        ensures
            final(self)@ == resolve(
                old(self)@,
                (voice_response.conversation_id, voice_response.count),
            ),
            (delivery == Delivery::Unmatched) <==> target(
                old(self)@,
                (voice_response.conversation_id, voice_response.count),
            ) is None,
    {
        match self.remove(voice_response.conversation_id, voice_response.count) {
            Some(sender) => delivery_of(send_oneshot(sender, voice_response)),
            None => Delivery::Unmatched,
        }
    }
}


impl Default for VoiceResponseCollection {
    fn default() -> (requests: Self)
        ensures
            requests@ == Map::<
                (u128, usize),
                tokio::sync::oneshot::Sender<SpeechToTextResponse>,
            >::empty(),
    {
        VoiceResponseCollection::new()
    }
}

/// What the audio task of a client holds: the number of chunks it has sent
/// off, the audio gathered since the last one, and its purpose.
pub struct AudioTimingView {
    pub n_messages: usize,
    pub stream: Option<Seq<u8>>,
    pub context: AudioContext,
}

/// The audio task of one client. It gathers the pieces of audio that
/// arrive, and once the client has been silent for a while it sends what
/// it gathered off as one chunk.
pub struct AudioTiming {
    n_messages: usize,
    stream: Option<Vec<u8>>,
    context: AudioContext,
}

impl View for AudioTiming {
    type V = AudioTimingView;

    closed spec fn view(&self) -> AudioTimingView {
        AudioTimingView {
            n_messages: self.n_messages,
            stream: match self.stream {
                Some(audio) => Some(audio@),
                None => None,
            },
            context: self.context,
        }
    }
}

/// The task after a piece of audio arrived: the piece is added to what was
/// gathered. The purpose is taken from the first piece of a chunk.
pub open spec fn timing_after_audio(
    timing: AudioTimingView,
    context: AudioContext,
    payload: Seq<u8>,
) -> AudioTimingView {
    match timing.stream {
        Some(audio) => AudioTimingView { stream: Some(audio + payload), ..timing },
        None => AudioTimingView { stream: Some(payload), context, ..timing },
    }
}

/// The task after the client fell silent: what was gathered is gone, and
/// where there was something, one more chunk is counted.
pub open spec fn timing_after_silence(timing: AudioTimingView) -> AudioTimingView {
    match timing.stream {
        Some(_) => AudioTimingView {
            n_messages: (timing.n_messages + 1) as usize,
            stream: None,
            ..timing
        },
        None => timing,
    }
}

impl AudioTiming {
    /// The task of a client that has sent nothing yet.
    pub fn new() -> (timing: AudioTiming)
        ensures
            timing@ == (AudioTimingView {
                n_messages: 0,
                stream: None,
                context: AudioContext::Discover,
            }),
    {
        AudioTiming { n_messages: 0, stream: None, context: AudioContext::Discover }
    }

    /// The number of chunks that were sent off.
    pub fn n_messages(&self) -> (n: usize)
        ensures
            n == self@.n_messages,
    {
        self.n_messages
    }

    /// The purpose of the audio that is being gathered.
    pub fn context(&self) -> (context: AudioContext)
        ensures
            context == self@.context,
    {
        self.context
    }

    /// Whether audio was gathered since the last chunk.
    pub fn is_gathering(&self) -> (gathering: bool)
        ensures
            gathering == self@.stream is Some,
    {
        self.stream.is_some()
    }

    /// Takes in a piece of audio.
    pub fn on_audio(&mut self, context: AudioContext, audio: AudioData)
        ensures
            final(self)@ == timing_after_audio(old(self)@, context, audio.payload@),
    {
        let AudioData { payload, count: _ } = audio;
        let mut payload = payload;
        match self.stream.take() {
            Some(mut gathered) => {
                gathered.append(&mut payload);
                self.stream = Some(gathered);
            },
            None => {
                self.context = context;
                self.stream = Some(payload);
            },
        }
    }

    /// Takes in that the client has been silent for a while. Where audio
    /// was gathered, it is returned as the final chunk of the conversation
    /// `conversation_id`, numbered by the chunks sent before it. The count
    /// of chunks must have room for it.
    pub fn on_silence(&mut self, conversation_id: u128) -> (chunk: Option<SpeechToText>)
        requires
            old(self)@.stream is Some ==> old(self)@.n_messages < usize::MAX,
        ensures
            final(self)@ == timing_after_silence(old(self)@),
            match chunk {
                Some(chunk) => {
                    &&& old(self)@.stream == Some(chunk.payload@)
                    &&& chunk.conversation_id == conversation_id
                    &&& chunk.count == old(self)@.n_messages
                    &&& chunk.finalize
                },
                None => old(self)@.stream is None,
            },
    {
        match self.stream.take() {
            Some(payload) => {
                let chunk = SpeechToText {
                    conversation_id,
                    count: self.n_messages,
                    payload,
                    finalize: true,
                };
                self.n_messages = self.n_messages + 1;
                Some(chunk)
            },
            None => None,
        }
    }
}

/// The time of silence after which the audio task sends a chunk off, in
/// nanoseconds: two seconds.
pub const SPEECH_TIMEOUT: u64 = 2_000_000_000;

} // verus!
