//! The states of the broker bridge and what it decides on each event.
//!
//! The bridge itself waits on the network, on the local queues and on the
//! keepalive timer. What it does once one of them is ready is decided here:
//! each function takes the event, moves the bridge to its next state and
//! returns what is to be done.

use vstd::prelude::*;
use vstd::string::*;

use crate::correlation::{register, resolve, target};
use crate::events::{
    bridge_plan, gen_prompt_beams, gen_voice_beams, is_private_beam, outbound_beam,
    outbound_beam_of, plan_view, push_flow_beams, push_job_beams, push_project_beams,
    push_session_beams, push_task_beams, push_user_beams, route_beam, route_of, BeamSetup,
    Outbound, Route, Wavelet, DEFAULT_PING_RATE, JOB_CREATED_BEAM, JOB_REQUEST_BEAM,
    TASK_RESULT_BEAM, USER_CREATED_BEAM, PROMPT_INPUT_BEAM, PROMPT_STREAM_PREFIX,
    VOICE_REQUEST_BEAM, VOICE_TEXT_PREFIX,
};
use crate::interop::{JobResponse, JobResponseType};
use crate::jobs::JobRequestCollection;
use crate::prompts::{InitializePromptChannel, PromptResponseCollection, PromptTx};
use crate::voice::{
    SpeechToText, SpeechToTextRequest, SpeechToTextResponse, VoiceResponseCollection,
};

verus! {

/// The states of a bridge. `Standalone` and `Closed` are terminal.
#[derive(Clone, Copy, Debug, PartialEq, Eq, Structural)]
pub enum BridgeState {
    /// The connection to the broker has not been tried yet.
    Connecting,
    /// The broker could not be reached: only the local bus is served.
    Standalone,
    /// Connected: the bridge carries messages both ways.
    Bridged,
    /// The connection was lost. It is not opened again.
    Closed,
}

/// Whether a bridge in `state` has come to its end.
pub open spec fn is_terminal(state: BridgeState) -> bool {
    state == BridgeState::Standalone || state == BridgeState::Closed
}

/// The state after the one attempt to connect.
pub open spec fn after_connect(state: BridgeState, connected: bool) -> BridgeState {
    if state == BridgeState::Connecting {
        if connected {
            BridgeState::Bridged
        } else {
            BridgeState::Standalone
        }
    } else {
        state
    }
}

/// The state after a ping or a publish came back: a failure closes a bridge
/// that was connected.
pub open spec fn after_exchange(state: BridgeState, succeeded: bool) -> BridgeState {
    if state == BridgeState::Bridged && !succeeded {
        BridgeState::Closed
    } else {
        state
    }
}

/// What moves a bridge from one state to the next. Each event tells
/// whether the attempt it reports went through.
#[derive(Clone, Copy, Debug, PartialEq, Eq, Structural)]
pub enum BridgeEvent {
    /// The one attempt to connect ended.
    Connected(bool),
    /// A ping ended.
    Pinged(bool),
    /// A publish ended.
    Published(bool),
}

/// The state after `event`.
pub open spec fn after_event(state: BridgeState, event: BridgeEvent) -> BridgeState {
    match event {
        BridgeEvent::Connected(succeeded) => after_connect(state, succeeded),
        BridgeEvent::Pinged(succeeded) => after_exchange(state, succeeded),
        BridgeEvent::Published(succeeded) => after_exchange(state, succeeded),
    }
}

/// The state after the events of `events`, in order.
pub open spec fn after_events(state: BridgeState, events: Seq<BridgeEvent>) -> BridgeState
    decreases events.len(),
{
    if events.len() == 0 {
        state
    } else {
        after_event(after_events(state, events.drop_last()), events.last())
    }
}

/// How far a state is on the way of a bridge: connecting comes first, then
/// bridged, and the two terminal states last.
pub open spec fn progress(state: BridgeState) -> nat {
    match state {
        BridgeState::Connecting => 0,
        BridgeState::Bridged => 1,
        BridgeState::Standalone => 2,
        BridgeState::Closed => 2,
    }
}

/// The time left until the next ping, when `elapsed` nanoseconds are taken
/// from `remaining`: never below zero.
pub open spec fn remaining_after(remaining: u64, elapsed: u128) -> u64 {
    if elapsed >= remaining {
        0
    } else {
        (remaining - elapsed) as u64
    }
}

/// What a bridge knows: its state, its four session topics, and the time
/// left until the next ping, in nanoseconds.
pub struct BridgeView {
    pub state: BridgeState,
    pub voice_request: Seq<char>,
    pub voice_response: Seq<char>,
    pub prompt_request: Seq<char>,
    pub prompt_response: Seq<char>,
    pub remaining: u64,
}

/// The state of the connection to the broker, with the topics that were
/// allotted to this bridge and its keepalive timer.
pub struct Bridge {
    state: BridgeState,
    voice_request_beam: String,
    voice_response_beam: String,
    prompt_request_beam: String,
    prompt_response_beam: String,
    remaining: u64,
}

/// A message of a prompt session as it goes to the broker, with the topic
/// on which the answers are awaited.
#[derive(Clone, Debug, PartialEq)]
pub struct PromptTxWrapper {
    pub prompt_tx: PromptTx,
    pub beam: String,
}

impl PromptTxWrapper {
    /// Wraps `message` for the broker, with the topic `beam` on which the
    /// answers are awaited.
    pub fn new(message: PromptTx, beam: &str) -> (wrapper: PromptTxWrapper)
        ensures
            wrapper.prompt_tx == message,
            wrapper.beam@ == beam@,
    {
        PromptTxWrapper { prompt_tx: message, beam: String::from_str(beam) }
    }
}

impl View for Bridge {
    type V = BridgeView;

    closed spec fn view(&self) -> BridgeView {
        BridgeView {
            state: self.state,
            voice_request: self.voice_request_beam@,
            voice_response: self.voice_response_beam@,
            prompt_request: self.prompt_request_beam@,
            prompt_response: self.prompt_response_beam@,
            remaining: self.remaining,
        }
    }
}

impl Bridge {
    /// A bridge that has not tried to connect yet, with the given pairs of
    /// request and response topics and a full keepalive interval ahead.
    pub fn new(voice_beams: (String, String), prompt_beams: (String, String)) -> (bridge: Bridge)
        ensures
            bridge@ == (BridgeView {
                state: BridgeState::Connecting,
                voice_request: voice_beams.0@,
                voice_response: voice_beams.1@,
                prompt_request: prompt_beams.0@,
                prompt_response: prompt_beams.1@,
                remaining: DEFAULT_PING_RATE,
            }),
    {
        Bridge {
            state: BridgeState::Connecting,
            voice_request_beam: voice_beams.0,
            voice_response_beam: voice_beams.1,
            prompt_request_beam: prompt_beams.0,
            prompt_response_beam: prompt_beams.1,
            remaining: DEFAULT_PING_RATE,
        }
    }

    /// A bridge that has not tried to connect yet, with freshly drawn private
    /// topics for the answers of the voice and of the prompt service. The
    /// two topics last as long as the bridge: all sessions share them.
    pub fn open() -> (bridge: Bridge)
        ensures
            bridge@.state == BridgeState::Connecting,
            bridge@.voice_request == VOICE_REQUEST_BEAM@,
            is_private_beam(VOICE_TEXT_PREFIX@, bridge@.voice_response),
            bridge@.prompt_request == PROMPT_INPUT_BEAM@,
            is_private_beam(PROMPT_STREAM_PREFIX@, bridge@.prompt_response),
            bridge@.remaining == DEFAULT_PING_RATE,
    {
        let voice_beams = gen_voice_beams();
        let prompt_beams = gen_prompt_beams();
        Bridge::new(voice_beams, prompt_beams)
    }

    /// The state of the bridge.
    pub fn state(&self) -> (state: BridgeState)
        ensures
            state == self@.state,
    {
        self.state
    }

    /// Whether the bridge is connected and carries messages.
    pub fn is_bridged(&self) -> (bridged: bool)
        ensures
            bridged == (self@.state == BridgeState::Bridged),
    {
        self.state == BridgeState::Bridged
    }

    /// The topic on which voice chunks are sent.
    pub fn voice_request_beam(&self) -> (beam: &str)
        ensures
            beam@ == self@.voice_request,
    {
        self.voice_request_beam.as_str()
    }

    /// The topic on which the texts of voice chunks are awaited.
    pub fn voice_response_beam(&self) -> (beam: &str)
        ensures
            beam@ == self@.voice_response,
    {
        self.voice_response_beam.as_str()
    }

    /// The topic on which the prompt sessions speak.
    pub fn prompt_request_beam(&self) -> (beam: &str)
        ensures
            beam@ == self@.prompt_request,
    {
        self.prompt_request_beam.as_str()
    }

    /// The topic on which the answers of the prompt service are awaited.
    pub fn prompt_response_beam(&self) -> (beam: &str)
        ensures
            beam@ == self@.prompt_response,
    {
        self.prompt_response_beam.as_str()
    }

    /// The time left until the next ping, in nanoseconds.
    pub fn remaining(&self) -> (remaining: u64)
        ensures
            remaining == self@.remaining,
    {
        self.remaining
    }

    /// Takes in how the one attempt to connect ended. A bridge that was
    /// connecting becomes bridged, and the plan of what to declare and to
    /// subscribe to is returned; or it becomes standalone, for good, and
    /// there is nothing to set up. On any other bridge nothing happens.
    pub fn connected(&mut self, succeeded: bool) -> (plan: Vec<BeamSetup<String>>)
        ensures
            final(self)@ == (BridgeView {
                state: after_connect(old(self)@.state, succeeded),
                ..old(self)@
            }),
            plan_view(plan@) == (if old(self)@.state == BridgeState::Connecting && succeeded {
                bridge_plan(
                    old(self)@.voice_request,
                    old(self)@.voice_response,
                    old(self)@.prompt_request,
                    old(self)@.prompt_response,
                )
            } else {
                Seq::<BeamSetup<Seq<char>>>::empty()
            }),
    {
        let mut plan: Vec<BeamSetup<String>> = Vec::new();
        assert(plan_view(plan@) =~= Seq::<BeamSetup<Seq<char>>>::empty());
        if self.state == BridgeState::Connecting {
            if succeeded {
                self.state = BridgeState::Bridged;
                push_session_beams(
                    &mut plan,
                    self.voice_request_beam.as_str(),
                    self.voice_response_beam.as_str(),
                    self.prompt_request_beam.as_str(),
                    self.prompt_response_beam.as_str(),
                );
                push_user_beams(&mut plan);
                push_job_beams(&mut plan);
                push_task_beams(&mut plan);
                push_project_beams(&mut plan);
                push_flow_beams(&mut plan);
            } else {
                self.state = BridgeState::Standalone;
            }
        }
        plan
    }

    /// Takes `elapsed` nanoseconds, the time since the last ping, from the
    /// time left on the keepalive timer, and returns how long to wait for
    /// the next ping.
    pub fn keepalive_wait(&mut self, elapsed: u128) -> (wait: u64)
        ensures
            final(self)@ == (BridgeView {
                remaining: remaining_after(old(self)@.remaining, elapsed),
                ..old(self)@
            }),
            wait == remaining_after(old(self)@.remaining, elapsed),
    {
        if elapsed >= self.remaining as u128 {
            self.remaining = 0;
        } else {
            self.remaining = self.remaining - (elapsed as u64);
        }
        self.remaining
    }

    /// Takes in how a ping ended. On a connected bridge a ping that went
    /// through winds the keepalive timer up to the full interval, and one
    /// that failed closes the bridge. On any other bridge nothing happens.
    pub fn pinged(&mut self, succeeded: bool)
        ensures
            final(self)@ == (BridgeView {
                state: after_exchange(old(self)@.state, succeeded),
                remaining: if old(self)@.state == BridgeState::Bridged && succeeded {
                    DEFAULT_PING_RATE
                } else {
                    old(self)@.remaining
                },
                ..old(self)@
            }),
    {
        if self.state == BridgeState::Bridged {
            if succeeded {
                self.remaining = DEFAULT_PING_RATE;
            } else {
                self.state = BridgeState::Closed;
            }
        }
    }

    /// Takes in how a publish ended: one that failed closes a connected
    /// bridge. Nothing else changes.
    pub fn published(&mut self, succeeded: bool)
        ensures
            final(self)@ == (BridgeView {
                state: after_exchange(old(self)@.state, succeeded),
                ..old(self)@
            }),
    {
        if self.state == BridgeState::Bridged && !succeeded {
            self.state = BridgeState::Closed;
        }
    }

    /// Takes in `event` and moves the bridge to its next state. The plan of
    /// what to set up is returned with the event that connects the bridge,
    /// and is empty otherwise.
    pub fn handle(&mut self, event: BridgeEvent) -> (plan: Vec<BeamSetup<String>>)
        ensures
            final(self)@ == (BridgeView {
                state: after_event(old(self)@.state, event),
                remaining: if old(self)@.state == BridgeState::Bridged && event
                    == BridgeEvent::Pinged(true) {
                    DEFAULT_PING_RATE
                } else {
                    old(self)@.remaining
                },
                ..old(self)@
            }),
            plan_view(plan@) == (if old(self)@.state == BridgeState::Connecting && event
                == BridgeEvent::Connected(true) {
                bridge_plan(
                    old(self)@.voice_request,
                    old(self)@.voice_response,
                    old(self)@.prompt_request,
                    old(self)@.prompt_response,
                )
            } else {
                Seq::<BeamSetup<Seq<char>>>::empty()
            }),
    {
        match event {
            BridgeEvent::Connected(succeeded) => self.connected(succeeded),
            BridgeEvent::Pinged(succeeded) => {
                self.pinged(succeeded);
                let plan: Vec<BeamSetup<String>> = Vec::new();
                assert(plan_view(plan@) =~= Seq::<BeamSetup<Seq<char>>>::empty());
                plan
            },
            BridgeEvent::Published(succeeded) => {
                self.published(succeeded);
                let plan: Vec<BeamSetup<String>> = Vec::new();
                assert(plan_view(plan@) =~= Seq::<BeamSetup<Seq<char>>>::empty());
                plan
            },
        }
    }

    /// Decides where a batch that arrived on topic `beam` goes.
    pub fn route(&self, beam: &str) -> (route: Route)
        ensures
            route == route_of(beam@, self@.voice_response, self@.prompt_response),
    {
        route_beam(beam, self.voice_response_beam.as_str(), self.prompt_response_beam.as_str())
    }

    /// Decides where the batch `wavelet` goes, by its topic.
    pub fn dispatch(&self, wavelet: &Wavelet) -> (route: Route)
        ensures
            route == route_of(wavelet.spec_beam(), self@.voice_response, self@.prompt_response),
    {
        self.route(wavelet.beam())
    }

    /// The topic on which a connected bridge publishes a local event of kind
    /// `source`. A bridge that is not connected publishes nothing.
    pub fn publish_beam(&self, source: Outbound) -> (beam: Option<&'static str>)
        ensures
            match beam {
                Some(b) => self@.state == BridgeState::Bridged && b@ == outbound_beam_of(source),
                None => self@.state != BridgeState::Bridged,
            },
    {
        if self.state == BridgeState::Bridged {
            Some(outbound_beam(source))
        } else {
            None
        }
    }

    /// Takes in the answer to a job's request. On a connected bridge the
    /// request is resolved: where one was pending, the answer is to be
    /// published on the reply topic that the job gave; where none was, the
    /// answer is dropped. A bridge that is not connected leaves the registry
    /// as it is and publishes nothing.
    pub fn job_response(&self, requests: &mut JobRequestCollection, response: JobResponse) -> (publish:
        Option<(String, JobResponseType)>)
        ensures
            final(requests)@ == (if self@.state == BridgeState::Bridged {
                resolve(old(requests)@, response.job_id)
            } else {
                old(requests)@
            }),
            match publish {
                Some((beam, payload)) => {
                    &&& self@.state == BridgeState::Bridged
                    &&& target(old(requests)@, response.job_id) == Some(beam@)
                    &&& payload == response.response
                },
                None => self@.state != BridgeState::Bridged || target(
                    old(requests)@,
                    response.job_id,
                ) is None,
            },
    {
        if self.state != BridgeState::Bridged {
            return None;
        }
        let JobResponse { job_id, response } = response;
        match requests.remove(job_id) {
            Some(beam) => Some((beam, response)),
            None => None,
        }
    }

    /// Takes in a voice chunk that a local task wants transcribed, with the
    /// slot on which that task awaits the text. A connected bridge registers
    /// the slot under the conversation and the number of the chunk, and
    /// returns the request to publish on the voice request topic; it names
    /// the topic on which the text is awaited. A bridge that is not connected
    /// hands both back.
    pub fn voice_request(
        &self,
        requests: &mut VoiceResponseCollection,
        chunk: SpeechToText,
        slot: tokio::sync::oneshot::Sender<SpeechToTextResponse>,
    ) -> (publish: Result<
        SpeechToTextRequest,
        (SpeechToText, tokio::sync::oneshot::Sender<SpeechToTextResponse>),
    >)
        ensures
            match publish {
                Ok(request) => {
                    &&& self@.state == BridgeState::Bridged
                    &&& final(requests)@ == register(
                        old(requests)@,
                        (chunk.conversation_id, chunk.count),
                        slot,
                    )
                    &&& request.conversation_id == chunk.conversation_id
                    &&& request.payload == chunk.payload
                    &&& request.count == chunk.count
                    &&& request.finalize == chunk.finalize
                    &&& request.beam@ == self@.voice_response
                },
                Err(back) => {
                    &&& self@.state != BridgeState::Bridged
                    &&& final(requests)@ == old(requests)@
                    &&& back == (chunk, slot)
                },
            },
    {
        if self.state != BridgeState::Bridged {
            return Err((chunk, slot));
        }
        requests.insert(chunk.conversation_id, chunk.count, slot);
        Ok(SpeechToTextRequest::extend_from(chunk, self.voice_response_beam.clone()))
    }

    /// Takes in the opening of a prompt session. A connected bridge
    /// registers the channel of the session under its identifier and
    /// returns the queue of what the session says, to be forwarded to the
    /// broker. A bridge that is not connected hands the opening back.
    pub fn prompt_opened(
        &self,
        sessions: &mut PromptResponseCollection,
        opening: InitializePromptChannel,
    ) -> (forward: Result<tokio::sync::mpsc::Receiver<PromptTx>, InitializePromptChannel>)
        ensures
            match forward {
                Ok(queue) => {
                    &&& self@.state == BridgeState::Bridged
                    &&& final(sessions)@ == register(old(sessions)@, opening.0, opening.2)
                    &&& queue == opening.1
                },
                Err(back) => {
                    &&& self@.state != BridgeState::Bridged
                    &&& final(sessions)@ == old(sessions)@
                    &&& back == opening
                },
            },
    {
        if self.state != BridgeState::Bridged {
            return Err(opening);
        }
        let InitializePromptChannel(stream_id, queue, sender) = opening;
        sessions.insert(stream_id, sender);
        Ok(queue)
    }

    /// Wraps what a prompt session says for the broker: the message, and
    /// the topic on which this bridge awaits the answers.
    pub fn wrap_prompt(&self, message: PromptTx) -> (wrapper: PromptTxWrapper)
        ensures
            wrapper.prompt_tx == message,
            wrapper.beam@ == self@.prompt_response,
    {
        PromptTxWrapper::new(message, self.prompt_response_beam.as_str())
    }
}

/// What the bridge reports when it comes into `state`, if anything.
pub fn notice(state: BridgeState) -> (line: Option<&'static str>)
    ensures
        match state {
            BridgeState::Connecting => line is None,
            BridgeState::Standalone => line is Some && line->0@
                == "Zini is running in standalone mode. No connection to prism."@,
            BridgeState::Bridged => line is Some && line->0@ == "Zini connected to prism!"@,
            BridgeState::Closed => line is Some && line->0@ == "Prism client closed"@,
        },
{
    match state {
        BridgeState::Connecting => None,
        BridgeState::Standalone => Some(
            "Zini is running in standalone mode. No connection to prism.",
        ),
        BridgeState::Bridged => Some("Zini connected to prism!"),
        BridgeState::Closed => Some("Prism client closed"),
    }
}

/// A bridge that has come to its end stays there: no attempt to connect, no
/// ping and no publish moves it again.
pub proof fn lemma_terminal_states_stay(state: BridgeState, succeeded: bool)
    requires
        is_terminal(state),
    ensures
        after_connect(state, succeeded) == state,
        after_exchange(state, succeeded) == state,
{
}

/// Whatever happens to a bridge that has come to its end, it stays where it
/// is: a standalone bridge never connects, and a closed one never opens
/// again.
pub proof fn lemma_terminal_for_good(state: BridgeState, events: Seq<BridgeEvent>)
    requires
        is_terminal(state),
    ensures
        after_events(state, events) == state,
    decreases events.len(),
{
    if events.len() > 0 {
        lemma_terminal_for_good(state, events.drop_last());
    }
}

/// A bridge only moves forward: from connecting to bridged or standalone,
/// and from bridged to closed. It never comes back to an earlier state, and
/// only a bridge that was connected is ever closed.
pub proof fn lemma_bridge_moves_forward(state: BridgeState, events: Seq<BridgeEvent>)
    ensures
        progress(state) <= progress(after_events(state, events)),
        after_events(state, events) == BridgeState::Standalone ==> state
            == BridgeState::Standalone || state == BridgeState::Connecting,
        after_events(state, events) == BridgeState::Closed ==> state != BridgeState::Standalone,
    decreases events.len(),
{
    if events.len() > 0 {
        lemma_bridge_moves_forward(state, events.drop_last());
    }
}

/// A bridge whose one attempt to connect fails is standalone from then on
/// and has nothing to set up.
pub proof fn lemma_standalone_fallback(succeeded: bool)
    ensures
        after_connect(BridgeState::Connecting, false) == BridgeState::Standalone,
        is_terminal(after_connect(BridgeState::Connecting, false)),
        after_exchange(after_connect(BridgeState::Connecting, false), succeeded)
            == BridgeState::Standalone,
{
}

/// A bridge is closed only by a ping or a publish that failed while it was
/// connected, and connected only by the attempt to connect that succeeded.
pub proof fn lemma_how_states_are_reached(state: BridgeState, succeeded: bool)
    ensures
        after_exchange(state, succeeded) == BridgeState::Closed ==> state == BridgeState::Closed || (
        state == BridgeState::Bridged && !succeeded),
        after_connect(state, succeeded) == BridgeState::Bridged ==> state == BridgeState::Bridged
            || (state == BridgeState::Connecting && succeeded),
        after_connect(state, succeeded) == BridgeState::Standalone ==> state
            == BridgeState::Standalone || (state == BridgeState::Connecting && !succeeded),
        after_exchange(state, succeeded) != BridgeState::Connecting || state
            == BridgeState::Connecting,
{
}

/// A bridge with private response topics leads what arrives on them to the
/// registry they belong to: neither topic is taken for a well-known one or
/// for the other.
pub proof fn lemma_private_beams_are_routed(voice_response: Seq<char>, prompt_response: Seq<char>)
    requires
        is_private_beam(VOICE_TEXT_PREFIX@, voice_response),
        is_private_beam(PROMPT_STREAM_PREFIX@, prompt_response),
    ensures
        route_of(voice_response, voice_response, prompt_response) == Route::Voice,
        route_of(prompt_response, voice_response, prompt_response) == Route::Prompt,
{
    reveal_strlit("urn:subseq.io:voice:text:");
    reveal_strlit("urn:subseq.io:prompt:stream:");
    reveal_strlit("urn:subseq.io:builds:job:request");
    reveal_strlit("urn:subseq.io:tasks:task:result");
    reveal_strlit("urn:subseq.io:builds:job:created");
    reveal_strlit("urn:subseq.io:oidc:user:created");
    assert(voice_response.len() == 35);
    assert(prompt_response.len() == 38);
    assert(JOB_REQUEST_BEAM@.len() == 32);
    assert(TASK_RESULT_BEAM@.len() == 31);
    assert(JOB_CREATED_BEAM@.len() == 32);
    assert(USER_CREATED_BEAM@.len() == 31);
}

/// Waiting never adds to the time left on the keepalive timer, and the
/// timer never runs below zero: once as much time has passed as was left,
/// the ping is due at once.
pub proof fn lemma_keepalive_runs_down(remaining: u64, elapsed: u128)
    ensures
        remaining_after(remaining, elapsed) <= remaining,
        elapsed >= remaining ==> remaining_after(remaining, elapsed) == 0,
        elapsed < remaining ==> remaining_after(remaining, elapsed) + elapsed == remaining,
{
}

} // verus!
