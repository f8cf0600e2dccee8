//! Multi-turn prompt sessions: the messages of a session and the registries
//! that lead the answers of the prompt service back to the session that
//! waits for them.

use std::collections::HashMap;
use vstd::prelude::*;

use crate::channels::{clone_unbounded, delivery_of, send_unbounded, unbounded_channel, Delivery};
use crate::correlation::{register, resolve, stream_step, target};
use crate::interop::JobRequestType;
use crate::tables::{TaskUpdate, User};

verus! {

broadcast use vstd::std_specs::hash::group_hash_axioms;

/// `serde_json::Value`, a structured value. It is carried about as it is.
#[verifier::external_type_specification]
#[verifier::external_body]
pub struct ExJsonValue(serde_json::Value);

/// `Clone` of `serde_json::Value`, which copies the whole tree of values:
/// the copy holds what the value holds.
pub assume_specification[ <serde_json::Value as Clone>::clone ](value: &serde_json::Value) -> (copy:
    serde_json::Value)
    ensures
        copy == *value,
;

/// Who speaks in a chat.
#[derive(Debug, Clone, Copy, PartialEq, Eq, Structural)]
pub enum ChatRole {
    User,
    Assistant,
    Request,
    System,
}

/// What is said in a chat: plain text, or a structured value.
#[derive(Debug, Clone, PartialEq)]
pub enum Content {
    Text(String),
    Object(serde_json::Value),
}

/// One entry of a chat.
#[derive(Debug, Clone, PartialEq)]
pub struct ChatCompletion {
    pub role: ChatRole,
    pub content: Content,
}

/// A task in short.
#[derive(Clone, Debug, PartialEq)]
pub struct TaskSummary {
    pub task_id: u128,
    pub title: String,
    pub description: String,
}

/// What a tool call of the prompt service came to.
#[derive(Clone, Debug, PartialEq)]
pub enum ToolResult {
    RunTask(u128),
    CreateTask(TaskSummary),
    UpdateTask(TaskSummary),
    FetchTasks(Vec<TaskSummary>),
    BeginProject { project_id: u128 },
    Error(String),
}

/// What this service says to the prompt service within a session.
#[derive(Clone, Debug, PartialEq)]
pub enum PromptTxPayload {
    Handshake { prompt_id: String, prompt_start: String },
    ToolResult(ToolResult),
    Stream(String),
    HelpResponse,
}

/// A tool that the prompt service asks this service to run.
#[derive(Clone, Debug, PartialEq)]
pub enum Tool {
    RunTask { task_id: u128 },
    CreateTask {
        title: String,
        description: String,
        subtask_of: Option<String>,
        blocked_by: Option<Vec<String>>,
        tags: Option<Vec<String>>,
        components: Vec<String>,
    },
    UpdateTask { task_id: u128, update: TaskUpdate },
    FetchTasks,
    BeginProject { title: String, description: String },
}

/// The last word of the prompt service in a session.
#[derive(Clone, Debug, PartialEq)]
pub enum PromptResponseType {
    Text(String),
    Json(serde_json::Value),
}

/// What the prompt service says to this service within a session. `Close`
/// is the terminal message of the session.
#[derive(Clone, Debug, PartialEq)]
pub enum PromptRxPayload {
    Tool(Tool),
    Stream { update: String, response_expected: bool },
    JobRequest(JobRequestType, User),
    Close(PromptResponseType),
}

/// A message to the prompt service, with the session it belongs to.
#[derive(Clone, Debug, PartialEq)]
pub struct PromptTx {
    pub stream_id: u128,
    pub payload: PromptTxPayload,
}

/// A message from the prompt service, with the session it belongs to.
#[derive(Clone, Debug, PartialEq)]
pub struct PromptRx {
    pub stream_id: u128,
    pub payload: PromptRxPayload,
}

/// Whether `id` has the fixed bits of a random (version 4) identifier: the
/// version digit four and the variant bits one and zero.
pub open spec fn is_random_id(id: u128) -> bool {
    id & 0x0000_0000_0000_f000_c000_0000_0000_0000u128
        == 0x0000_0000_0000_4000_8000_0000_0000_0000u128
}

/// Calls `uuid::Uuid::new_v4` and returns the identifier as a number, most
/// significant byte first. The identifier is drawn at random; only its
/// version and variant bits are fixed.
#[verifier::external_body]
fn random_id() -> (id: u128)
    ensures
        is_random_id(id),
{
    uuid::Uuid::new_v4().as_u128()
}

impl PromptTx {
    /// Opens a session, under an identifier drawn at random, that asks for a
    /// title to the description `desc`.
    pub fn title_from_desc(desc: String) -> (opening: Self)
        ensures
            is_random_id(opening.stream_id),
            opening.payload matches PromptTxPayload::Handshake { prompt_id, prompt_start }
                && prompt_id@ == "tools_aNDkkK"@ && prompt_start == desc,
    {
        let prompt_id = "tools_aNDkkK".to_string();
        PromptTx {
            stream_id: random_id(),
            payload: PromptTxPayload::Handshake { prompt_id, prompt_start: desc },
        }
    }

    /// Opens a session of instructions, under an identifier drawn at random,
    /// that begins with `prompt_start`.
    pub fn new_stream(prompt_start: String) -> (opening: Self)
        ensures
            is_random_id(opening.stream_id),
            opening.payload matches PromptTxPayload::Handshake { prompt_id, prompt_start: start }
                && prompt_id@ == "tools_ZbTYeQ"@ && start == prompt_start,
    {
        let prompt_id = "tools_ZbTYeQ".to_string();
        PromptTx {
            stream_id: random_id(),
            payload: PromptTxPayload::Handshake { prompt_id, prompt_start },
        }
    }

    /// The next piece of text of the user in session `stream_id`.
    pub fn stream_update(stream_id: u128, update: String) -> (message: Self)
        ensures
            message.stream_id == stream_id,
            message.payload == PromptTxPayload::Stream(update),
    {
        PromptTx { stream_id, payload: PromptTxPayload::Stream(update) }
    }

    /// The result of a tool call in session `stream_id`.
    pub fn tool_result(stream_id: u128, tool_result: ToolResult) -> (message: Self)
        ensures
            message.stream_id == stream_id,
            message.payload == PromptTxPayload::ToolResult(tool_result),
    {
        PromptTx { stream_id, payload: PromptTxPayload::ToolResult(tool_result) }
    }
}

impl PromptRx {
    /// Whether this message ends its session.
    pub open spec fn spec_is_terminal(&self) -> bool {
        self.payload is Close
    }

    /// Whether this message ends its session.
    #[verifier::when_used_as_spec(spec_is_terminal)]
    pub fn is_terminal(&self) -> (terminal: bool)
        ensures
            terminal == self.spec_is_terminal(),
    {
        match &self.payload {
            PromptRxPayload::Close(_) => true,
            _ => false,
        }
    }
}

/// What the one answer to a request for a title holds.
#[derive(Clone, Debug, PartialEq)]
pub enum TitleAnswer {
    /// The title, in words.
    Title(String),
    /// A structured value, in which the title is to be looked up.
    Json(serde_json::Value),
    /// Anything but the last word of the session: there is no title.
    Unexpected,
}

/// Reads the answer to a request for a title: only the terminal message of
/// the session brings one.
pub fn title_answer(response: PromptRxPayload) -> (answer: TitleAnswer)
    ensures
        answer == (match response {
            PromptRxPayload::Close(PromptResponseType::Text(title)) => TitleAnswer::Title(title),
            PromptRxPayload::Close(PromptResponseType::Json(value)) => TitleAnswer::Json(value),
            _ => TitleAnswer::Unexpected,
        }),
{
    match response {
        PromptRxPayload::Close(PromptResponseType::Text(title)) => TitleAnswer::Title(title),
        PromptRxPayload::Close(PromptResponseType::Json(value)) => TitleAnswer::Json(value),
        _ => TitleAnswer::Unexpected,
    }
}

/// The time that a request for a title waits for its answer, in
/// nanoseconds: ten seconds.
pub const TITLE_TIMEOUT: u64 = 10_000_000_000;

/// The opening of a session: its identifier, the queue of what the session
/// says, and the channel on which the session hears the answers.
pub struct InitializePromptChannel(
    pub u128,
    pub tokio::sync::mpsc::Receiver<PromptTx>,
    pub tokio::sync::mpsc::UnboundedSender<PromptRxPayload>,
);

/// The message that shows the request of a job to a user, with the user
/// the job is assigned to.
pub fn job_request_payload(request: JobRequestType, assigned_user: User) -> (payload:
    PromptRxPayload)
    ensures
        payload == PromptRxPayload::JobRequest(request, assigned_user),
{
    PromptRxPayload::JobRequest(request, assigned_user)
}

/// For each user with an open instruction channel, the way to reach it.
pub struct PromptChannelHandle {
    user_to_prompt: HashMap<u128, tokio::sync::mpsc::UnboundedSender<PromptRxPayload>>,
}

impl View for PromptChannelHandle {
    type V = Map<u128, tokio::sync::mpsc::UnboundedSender<PromptRxPayload>>;

    /// The channel of each user that has one.
    closed spec fn view(&self) -> Self::V {
        self.user_to_prompt@
    }
}

impl PromptChannelHandle {
    /// A handle without any channel.
    pub fn new() -> (handle: Self)
        ensures
            handle@ == Map::<u128, tokio::sync::mpsc::UnboundedSender<PromptRxPayload>>::empty(),
    {
        PromptChannelHandle { user_to_prompt: HashMap::new() }
    }

    /// Opens a fresh channel for `user_id`, in place of any earlier one, and
    /// returns its two halves. The channels of other users stay.
    pub fn add_channel_for_user(&mut self, user_id: u128) -> (halves: (
        tokio::sync::mpsc::UnboundedSender<PromptRxPayload>,
        tokio::sync::mpsc::UnboundedReceiver<PromptRxPayload>,
    ))
        ensures
            final(self)@.contains_key(user_id),
            resolve(final(self)@, user_id) == resolve(old(self)@, user_id),
    {
        let (tx, rx) = unbounded_channel();
        self.user_to_prompt.insert(user_id, clone_unbounded(&tx));
        assert(resolve(self@, user_id) =~= resolve(old(self)@, user_id));
        (tx, rx)
    }

    /// Forgets the channel of `user_id`, if there is one.
    pub fn drop_channel_for_user(&mut self, user_id: u128)
        ensures
            final(self)@ == resolve(old(self)@, user_id),
    {
        self.user_to_prompt.remove(&user_id);
    }

    /// Shows the request of a job to the user `requested_by_id`, with the
    /// user the job is assigned to: the message that `job_request_payload`
    /// makes of the two is handed to the channel that `get_user_tx` finds for
    /// that user. Without such a channel the request is not shown.
    pub fn send_job_request(
        &self,
        requested_by_id: u128,
        request: JobRequestType,
        assigned_user: User,
    ) -> (delivery: Delivery)
        ensures
            (delivery == Delivery::Unmatched) <==> target(self@, requested_by_id) is None,
    {
        match self.get_user_tx(requested_by_id) {
            Some(tx) => delivery_of(send_unbounded(tx, job_request_payload(request, assigned_user))),
            None => Delivery::Unmatched,
        }
    }

    /// The channel of `user_id`, if there is one.
    pub fn get_user_tx(&self, user_id: u128) -> (tx: Option<
        &tokio::sync::mpsc::UnboundedSender<PromptRxPayload>,
    >)
        ensures
            match tx {
                Some(found) => target(self@, user_id) == Some(*found),
                None => target(self@, user_id) is None,
            },
    {
        self.user_to_prompt.get(&user_id)
    }
}

/// The sessions that wait for answers of the prompt service, each with the
/// channel on which it hears them.
pub struct PromptResponseCollection {
    inner: HashMap<u128, tokio::sync::mpsc::UnboundedSender<PromptRxPayload>>,
}

impl View for PromptResponseCollection {
    type V = Map<u128, tokio::sync::mpsc::UnboundedSender<PromptRxPayload>>;

    /// The channel of each open session.
    closed spec fn view(&self) -> Self::V {
        self.inner@
    }
}

impl PromptResponseCollection {
    /// A registry without any open session.
    pub fn new() -> (sessions: Self)
        ensures
            sessions@ == Map::<u128, tokio::sync::mpsc::UnboundedSender<PromptRxPayload>>::empty(),
    {
        PromptResponseCollection { inner: HashMap::new() }
    }

    /// Registers `sender` as the channel of session `request_id`, in place
    /// of any earlier one.
    pub fn insert(
        &mut self,
        request_id: u128,
        sender: tokio::sync::mpsc::UnboundedSender<PromptRxPayload>,
    )
        ensures
            final(self)@ == register(old(self)@, request_id, sender),
    {
        self.inner.insert(request_id, sender);
    }

    /// Whether session `request_id` is open.
    pub fn is_open(&self, request_id: u128) -> (open: bool)
        ensures
            open == self@.contains_key(request_id),
    {
        self.inner.contains_key(&request_id)
    }

    /// The channel of session `stream_id`, if that session is open.
    pub fn sender_of(&self, stream_id: u128) -> (tx: Option<
        &tokio::sync::mpsc::UnboundedSender<PromptRxPayload>,
    >)
        ensures
            match tx {
                Some(found) => target(self@, stream_id) == Some(*found),
                None => target(self@, stream_id) is None,
            },
    {
        self.inner.get(&stream_id)
    }

    /// Closes session `stream_id`: takes its channel out of the registry and
    /// returns it, if that session is open.
    pub fn close(&mut self, stream_id: u128) -> (tx: Option<
        tokio::sync::mpsc::UnboundedSender<PromptRxPayload>,
    >)
        ensures
            tx == target(old(self)@, stream_id),
            final(self)@ == resolve(old(self)@, stream_id),
    {
        self.inner.remove(&stream_id)
    }

    /// Hands the payload of `prompt_response` to the channel of its session.
    /// For a terminal message that is the channel that `close` takes out of
    /// the registry, before the hand-over, so that nothing can follow it;
    /// for any other message it is the channel that `sender_of` finds, and
    /// the registry stays as it is. A message for a session that is not open
    /// is dropped.
    pub fn send_response(&mut self, prompt_response: PromptRx) -> (delivery: Delivery)
        ensures
            final(self)@ == stream_step(
                old(self)@,
                prompt_response.stream_id,
                prompt_response.is_terminal(),
            ),
            (delivery == Delivery::Unmatched) <==> target(
                old(self)@,
                prompt_response.stream_id,
            ) is None,
    {
        let terminal = prompt_response.is_terminal();
        let PromptRx { stream_id, payload } = prompt_response;
        if terminal {
            match self.close(stream_id) {
                Some(sender) => delivery_of(send_unbounded(&sender, payload)),
                None => Delivery::Unmatched,
            }
        } else {
            match self.sender_of(stream_id) {
                Some(sender) => delivery_of(send_unbounded(sender, payload)),
                None => Delivery::Unmatched,
            }
        }
    }
}

impl Default for PromptResponseCollection {
    fn default() -> (sessions: Self)
        ensures
            sessions@ == Map::<u128, tokio::sync::mpsc::UnboundedSender<PromptRxPayload>>::empty(),
    {
        PromptResponseCollection::new()
    }
}

} // verus!
