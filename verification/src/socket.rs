//! What a client says over its web socket, and what the reader of the
//! socket decides on each frame.

use vstd::prelude::*;

use crate::prompts::ChatCompletion;
use crate::voice::{AudioContext, AudioData};

verus! {

/// A text message of a client.
#[derive(Clone, Debug, PartialEq)]
pub enum WebSocketMessage {
    /// An instruction in words.
    Instruct(String),
    /// From now on the audio of this client is meant for the given purpose.
    SetAudioContext(AudioContext),
}

/// A message to the front end of a client.
#[derive(Clone, Debug, PartialEq)]
pub enum FrontEndMessage {
    InstructMessage(ChatCompletion),
    InstructClear,
    SetProject(String),
}

impl FrontEndMessage {
    /// The name of the channel under which the front end files a message.
    pub open spec fn spec_channel(&self) -> Seq<char> {
        match self {
            FrontEndMessage::InstructMessage(_) => "INSTRUCT-MESSAGE"@,
            FrontEndMessage::InstructClear => "INSTRUCT-CLEAR"@,
            FrontEndMessage::SetProject(_) => "PROJECT-SET"@,
        }
    }

    /// The name of the channel under which the front end files this
    /// message.
    pub fn channel(&self) -> (name: &'static str)
        ensures
            name@ == self.spec_channel(),
    {
        match self {
            FrontEndMessage::InstructMessage(_) => "INSTRUCT-MESSAGE",
            FrontEndMessage::InstructClear => "INSTRUCT-CLEAR",
            FrontEndMessage::SetProject(_) => "PROJECT-SET",
        }
    }
}

/// A frame that arrived on the socket of a client.
#[derive(Clone, Debug, PartialEq)]
pub enum Frame {
    /// A text frame that holds a message.
    Text(WebSocketMessage),
    /// A text frame that holds no message.
    Garbled,
    /// A binary frame: a piece of audio.
    Binary(Vec<u8>),
    /// The client closes the socket.
    Close,
    /// Any other frame.
    Other,
}

/// What the reader does with a frame.
#[derive(Clone, Debug, PartialEq)]
pub enum ReaderAction {
    /// Hand the instruction to the instruction channel; stop reading if it
    /// is closed.
    Instruct(String),
    /// Hand the audio to the audio task, for the given purpose.
    Audio(AudioContext, AudioData),
    /// Nothing is to be done.
    Nothing,
    /// Report the frame and read on.
    Report,
    /// Stop reading.
    Stop,
}

/// The reader of the socket of one client: the purpose of the audio that
/// arrives, and the number of pieces that arrived for it.
#[derive(Clone, Copy, Debug, PartialEq, Eq, Structural)]
pub struct SocketReader {
    pub context: AudioContext,
    pub msg_counter: usize,
}

/// The reader after `frame`: a new purpose sets the count back to zero, and
/// a piece of audio adds one to it.
pub open spec fn reader_after(reader: SocketReader, frame: Frame) -> SocketReader {
    match frame {
        Frame::Text(WebSocketMessage::SetAudioContext(context)) => SocketReader {
            context,
            msg_counter: 0,
        },
        Frame::Binary(_) => SocketReader {
            context: reader.context,
            msg_counter: (reader.msg_counter + 1) as usize,
        },
        _ => reader,
    }
}

/// What the reader does with `frame`.
pub open spec fn action_on(reader: SocketReader, frame: Frame) -> ReaderAction {
    match frame {
        Frame::Text(WebSocketMessage::Instruct(text)) => ReaderAction::Instruct(text),
        Frame::Text(WebSocketMessage::SetAudioContext(_)) => ReaderAction::Nothing,
        Frame::Garbled => ReaderAction::Report,
        Frame::Binary(payload) => ReaderAction::Audio(
            reader.context,
            AudioData { payload, count: reader.msg_counter },
        ),
        Frame::Close => ReaderAction::Stop,
        Frame::Other => ReaderAction::Report,
    }
}

impl SocketReader {
    /// The reader of a socket that was just opened: it expects audio to
    /// discover what the client wants, and has seen none.
    pub fn new() -> (reader: SocketReader)
        ensures
            reader == (SocketReader { context: AudioContext::Discover, msg_counter: 0 }),
    {
        SocketReader { context: AudioContext::Discover, msg_counter: 0 }
    }

    /// Takes in a frame and decides what to do with it. For a piece of
    /// audio the count of pieces must have room for one more.
    pub fn on_frame(&mut self, frame: Frame) -> (action: ReaderAction)
        requires
            frame is Binary ==> old(self).msg_counter < usize::MAX,
        ensures
            *final(self) == reader_after(*old(self), frame),
            action == action_on(*old(self), frame),
    {
        match frame {
            Frame::Text(WebSocketMessage::Instruct(text)) => ReaderAction::Instruct(text),
            Frame::Text(WebSocketMessage::SetAudioContext(context)) => {
                self.context = context;
                self.msg_counter = 0;
                ReaderAction::Nothing
            },
            Frame::Garbled => ReaderAction::Report,
            Frame::Binary(payload) => {
                let audio = AudioData { payload, count: self.msg_counter };
                let context = self.context;
                self.msg_counter = self.msg_counter + 1;
                ReaderAction::Audio(context, audio)
            },
            Frame::Close => ReaderAction::Stop,
            Frame::Other => ReaderAction::Report,
        }
    }
}

/// The pieces of audio that a client sends for one purpose are numbered
/// from zero, one after the other.
pub proof fn lemma_audio_is_numbered(reader: SocketReader, context: AudioContext, payload: Vec<u8>)
    requires
        reader.msg_counter < usize::MAX,
    ensures
        reader_after(
            reader,
            Frame::Text(WebSocketMessage::SetAudioContext(context)),
        ).msg_counter == 0,
        action_on(reader, Frame::Binary(payload)) == ReaderAction::Audio(
            reader.context,
            AudioData { payload, count: reader.msg_counter },
        ),
        reader_after(reader, Frame::Binary(payload)).msg_counter == reader.msg_counter + 1,
        reader_after(reader, Frame::Binary(payload)).context == reader.context,
{
}

} // verus!
