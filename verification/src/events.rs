//! The bridge between the local bus and the message broker: the names of the
//! topics, the plan by which the bridge declares and subscribes to them, the
//! routing of what arrives, and the states that the bridge goes through.

use vstd::prelude::*;
use vstd::string::*;

use crate::text::same_text;

verus! {

// Users
pub const USER_CREATED_BEAM: &'static str = "urn:subseq.io:oidc:user:created";

pub const USER_UPDATED_BEAM: &'static str = "urn:subseq.io:oidc:user:updated";

// Builds
pub const JOB_CREATED_BEAM: &'static str = "urn:subseq.io:builds:job:created";

pub const JOB_PROGRESS_BEAM: &'static str = "urn:subseq.io:builds:job:progress";

pub const JOB_REQUEST_BEAM: &'static str = "urn:subseq.io:builds:job:request";

// Task runs
pub const TASK_RUN_BEAM: &'static str = "urn:subseq.io:tasks:task:run";

pub const TASK_RESULT_BEAM: &'static str = "urn:subseq.io:tasks:task:result";

// Task broadcast
pub const TASK_CREATED_BEAM: &'static str = "urn:subseq.io:tasks:task:created";

pub const TASK_UPDATED_BEAM: &'static str = "urn:subseq.io:tasks:task:updated";

pub const TASK_ASSIGNEE_BEAM: &'static str = "urn:subseq.io:tasks:task:assignee:changed";

pub const TASK_STATE_BEAM: &'static str = "urn:subseq.io:tasks:task:state:changed";

// Projects
pub const PROJECT_CREATED_BEAM: &'static str = "urn:subseq.io:tasts:project:created";

pub const PROJECT_UPDATED_BEAM: &'static str = "urn:subseq.io:tasks:project:updated";

// Flows
pub const FLOW_CREATED_BEAM: &'static str = "urn:subseq.io:tasks:workflow:created";

pub const FLOW_UPDATED_BEAM: &'static str = "urn:subseq.io:tasks:workflow:updated";

// Voice
pub const VOICE_REQUEST_BEAM: &'static str = "urn:subseq.io:voice:audio:request";

pub const VOICE_TEXT_PREFIX: &'static str = "urn:subseq.io:voice:text:";

// Prompts
pub const PROMPT_INPUT_BEAM: &'static str = "urn:subseq.io:prompt:stream:input";

pub const PROMPT_STREAM_PREFIX: &'static str = "urn:subseq.io:prompt:stream:";

/// The time between two pings of the broker, in nanoseconds: fifty seconds.
pub const DEFAULT_PING_RATE: u64 = 50_000_000_000;

/// The number of random characters at the end of a private topic.
pub const SUFFIX_LENGTH: usize = 10;

/// The decimal digit that stands for `d`, for `d` below ten.
pub open spec fn digit_char(d: nat) -> char {
    if d == 0 {
        '0'
    } else if d == 1 {
        '1'
    } else if d == 2 {
        '2'
    } else if d == 3 {
        '3'
    } else if d == 4 {
        '4'
    } else if d == 5 {
        '5'
    } else if d == 6 {
        '6'
    } else if d == 7 {
        '7'
    } else if d == 8 {
        '8'
    } else {
        '9'
    }
}

/// The decimal notation of `n`, most significant digit first, without
/// leading zeros.
pub open spec fn decimal(n: nat) -> Seq<char>
    decreases n,
{
    if n < 10 {
        seq![digit_char(n)]
    } else {
        decimal(n / 10).push(digit_char(n % 10))
    }
}

/// The broker address for a host and an optional port.
pub open spec fn prism_url_spec(host: Seq<char>, port: Option<u16>) -> Seq<char> {
    let tail = match port {
        Some(p) => seq![':'] + decimal(p as nat),
        None => Seq::<char>::empty(),
    };
    "ws://"@ + host + tail
}

/// Appends the decimal notation of `n` to `out`.
fn push_decimal(out: &mut String, n: u16)
    ensures
        final(out)@ == old(out)@ + decimal(n as nat),
    decreases n,
{
    if n >= 10 {
        push_decimal(out, n / 10);
    }
    let d: usize = (n % 10) as usize;
    let digits = "0123456789";
    proof {
        reveal_strlit("0123456789");
    }
    let one = digits.substring_ascii(d, d + 1);
    out.append(one);
    assert(one@ =~= seq![digit_char(d as nat)]);
    assert(out@ =~= old(out)@ + decimal(n as nat));
}

/// Builds the websocket address of the broker: `ws://`, the host, and, where
/// a port is given, a colon and the port in decimal.
pub fn prism_url(host: &str, port: Option<u16>) -> (url: String)
    ensures
        url@ == prism_url_spec(host@, port),
{
    let mut url = String::from_str("ws://");
    url.append(host);
    match port {
        Some(p) => {
            url.append(":");
            proof {
                reveal_strlit(":");
                assert(":"@ =~= seq![':']);
            }
            push_decimal(&mut url, p);
            assert(url@ =~= prism_url_spec(host@, port));
        },
        None => {
            assert(url@ =~= prism_url_spec(host@, port));
        },
    }
    url
}


/// Whether `c` is an ASCII letter or digit.
pub open spec fn is_alphanumeric(c: char) -> bool {
    ('0' <= c && c <= '9') || ('A' <= c && c <= 'Z') || ('a' <= c && c <= 'z')
}

/// Whether `suffix` is one that ends a private topic: ten ASCII letters or
/// digits.
pub open spec fn is_random_suffix(suffix: Seq<char>) -> bool {
    &&& suffix.len() == SUFFIX_LENGTH
    &&& forall|i: int| 0 <= i < suffix.len() ==> is_alphanumeric(#[trigger] suffix[i])
}

/// Whether `beam` is a private topic under `prefix`: the prefix, and then a
/// random suffix.
pub open spec fn is_private_beam(prefix: Seq<char>, beam: Seq<char>) -> bool {
    &&& beam.len() == prefix.len() + SUFFIX_LENGTH
    &&& beam.subrange(0, prefix.len() as int) == prefix
    &&& is_random_suffix(beam.subrange(prefix.len() as int, beam.len() as int))
}

/// Draws one byte with `rand::Rng::sample` from the thread's generator, in
/// the distribution `rand::distributions::Alphanumeric`: an ASCII letter or
/// digit. Which one is left to chance.
#[verifier::external_body]
fn random_alphanumeric() -> (byte: u8)
    ensures
        is_alphanumeric(byte as char),
{
    rand::Rng::sample(&mut rand::thread_rng(), rand::distributions::Alphanumeric)
}

/// Calls `String::push`, which puts `c` at the end of `text`.
#[verifier::external_body]
fn push_char(text: &mut String, c: char)
    ensures
        final(text)@ == old(text)@.push(c),
{
    text.push(c)
}

/// Appends a random suffix to `text`.
fn push_random_suffix(text: &mut String)
    ensures
        final(text)@.len() == old(text)@.len() + SUFFIX_LENGTH,
        final(text)@.subrange(0, old(text)@.len() as int) == old(text)@,
        is_random_suffix(final(text)@.subrange(old(text)@.len() as int, final(text)@.len() as int)),
{
    let ghost start = text@;
    let mut drawn: usize = 0;
    while drawn < SUFFIX_LENGTH
        invariant
            drawn <= SUFFIX_LENGTH,
            text@.len() == start.len() + drawn,
            text@.subrange(0, start.len() as int) == start,
            forall|i: int| start.len() <= i < text@.len() ==> is_alphanumeric(#[trigger] text@[i]),
        decreases SUFFIX_LENGTH - drawn,
    {
        let ghost before = text@;
        let byte = random_alphanumeric();
        push_char(text, byte as char);
        drawn = drawn + 1;
        assert(text@.subrange(0, start.len() as int) =~= before.subrange(0, start.len() as int));
    }
}

/// A string of ten random ASCII letters and digits.
pub fn gen_rand() -> (suffix: String)
    ensures
        is_random_suffix(suffix@),
{
    let mut suffix = String::new();
    push_random_suffix(&mut suffix);
    assert(suffix@.subrange(0, suffix@.len() as int) =~= suffix@);
    suffix
}

/// A fresh private topic under `prefix`. The suffix is drawn at random and
/// not held against the topics that exist already.
pub fn private_beam(prefix: &str) -> (beam: String)
    ensures
        is_private_beam(prefix@, beam@),
{
    let mut beam = String::from_str(prefix);
    push_random_suffix(&mut beam);
    beam
}

/// The topics of voice transcription: the one on which chunks are sent, and
/// a private one on which this process awaits the text.
pub fn gen_voice_beams() -> (beams: (String, String))
    ensures
        beams.0@ == VOICE_REQUEST_BEAM@,
        is_private_beam(VOICE_TEXT_PREFIX@, beams.1@),
{
    (String::from_str(VOICE_REQUEST_BEAM), private_beam(VOICE_TEXT_PREFIX))
}

/// The topics of the prompt sessions: the one on which this process speaks,
/// and a private one on which it awaits the answers.
pub fn gen_prompt_beams() -> (beams: (String, String))
    ensures
        beams.0@ == PROMPT_INPUT_BEAM@,
        is_private_beam(PROMPT_STREAM_PREFIX@, beams.1@),
{
    (String::from_str(PROMPT_INPUT_BEAM), private_beam(PROMPT_STREAM_PREFIX))
}


/// One step of setting the broker connection up, on a topic of type `T`.
#[derive(Clone, Debug, PartialEq)]
pub enum BeamSetup<T> {
    /// Declare the topic as one that this process publishes on.
    AddBeam(T),
    /// Ask for what others publish on the topic.
    Subscribe(T),
}

impl View for BeamSetup<String> {
    type V = BeamSetup<Seq<char>>;

    open spec fn view(&self) -> BeamSetup<Seq<char>> {
        match self {
            BeamSetup::AddBeam(beam) => BeamSetup::AddBeam(beam@),
            BeamSetup::Subscribe(beam) => BeamSetup::Subscribe(beam@),
        }
    }
}

/// The steps of a plan, each with its topic as a sequence of characters.
pub open spec fn plan_view(steps: Seq<BeamSetup<String>>) -> Seq<BeamSetup<Seq<char>>> {
    Seq::new(steps.len(), |i: int| steps[i]@)
}

/// The setup of the user topics.
pub open spec fn user_plan() -> Seq<BeamSetup<Seq<char>>> {
    seq![
        BeamSetup::AddBeam(USER_CREATED_BEAM@),
        BeamSetup::AddBeam(USER_UPDATED_BEAM@),
        BeamSetup::Subscribe(USER_CREATED_BEAM@),
        BeamSetup::Subscribe(USER_UPDATED_BEAM@),
    ]
}

/// The setup of the job topics.
pub open spec fn job_plan() -> Seq<BeamSetup<Seq<char>>> {
    seq![
        BeamSetup::Subscribe(TASK_RESULT_BEAM@),
        BeamSetup::Subscribe(JOB_CREATED_BEAM@),
        BeamSetup::Subscribe(JOB_REQUEST_BEAM@),
        BeamSetup::Subscribe(JOB_PROGRESS_BEAM@),
    ]
}

/// The setup of the task topics.
pub open spec fn task_plan() -> Seq<BeamSetup<Seq<char>>> {
    seq![
        BeamSetup::AddBeam(TASK_CREATED_BEAM@),
        BeamSetup::AddBeam(TASK_UPDATED_BEAM@),
        BeamSetup::AddBeam(TASK_ASSIGNEE_BEAM@),
        BeamSetup::AddBeam(TASK_STATE_BEAM@),
        BeamSetup::AddBeam(TASK_RUN_BEAM@),
    ]
}

/// The setup of the project topics.
pub open spec fn project_plan() -> Seq<BeamSetup<Seq<char>>> {
    seq![BeamSetup::AddBeam(PROJECT_CREATED_BEAM@), BeamSetup::AddBeam(PROJECT_UPDATED_BEAM@)]
}

/// The setup of the workflow topics.
pub open spec fn flow_plan() -> Seq<BeamSetup<Seq<char>>> {
    seq![BeamSetup::AddBeam(FLOW_CREATED_BEAM@), BeamSetup::AddBeam(FLOW_UPDATED_BEAM@)]
}

/// The setup of the topics of voice transcription and of the prompt
/// sessions: on each request topic this process publishes, on each
/// response topic it listens.
pub open spec fn session_plan(
    voice_request: Seq<char>,
    voice_response: Seq<char>,
    prompt_request: Seq<char>,
    prompt_response: Seq<char>,
) -> Seq<BeamSetup<Seq<char>>> {
    seq![
        BeamSetup::AddBeam(voice_request),
        BeamSetup::Subscribe(voice_response),
        BeamSetup::AddBeam(prompt_request),
        BeamSetup::Subscribe(prompt_response),
    ]
}

/// All that a bridge sets up once it is connected, in order.
pub open spec fn bridge_plan(
    voice_request: Seq<char>,
    voice_response: Seq<char>,
    prompt_request: Seq<char>,
    prompt_response: Seq<char>,
) -> Seq<BeamSetup<Seq<char>>> {
    session_plan(voice_request, voice_response, prompt_request, prompt_response) + user_plan()
        + job_plan() + task_plan() + project_plan() + flow_plan()
}

/// Adds the declaration of `beam` to the plan.
fn plan_add_beam(steps: &mut Vec<BeamSetup<String>>, beam: &str)
    ensures
        plan_view(final(steps)@) == plan_view(old(steps)@).push(BeamSetup::AddBeam(beam@)),
{
    steps.push(BeamSetup::AddBeam(String::from_str(beam)));
    assert(plan_view(steps@) =~= plan_view(old(steps)@).push(BeamSetup::AddBeam(beam@)));
}

/// Adds the subscription to `beam` to the plan.
fn plan_subscribe(steps: &mut Vec<BeamSetup<String>>, beam: &str)
    ensures
        plan_view(final(steps)@) == plan_view(old(steps)@).push(BeamSetup::Subscribe(beam@)),
{
    steps.push(BeamSetup::Subscribe(String::from_str(beam)));
    assert(plan_view(steps@) =~= plan_view(old(steps)@).push(BeamSetup::Subscribe(beam@)));
}

/// Adds the setup of the four session topics to the plan.
pub(crate) fn push_session_beams(
    steps: &mut Vec<BeamSetup<String>>,
    voice_request: &str,
    voice_response: &str,
    prompt_request: &str,
    prompt_response: &str,
)
    ensures
        plan_view(final(steps)@) == plan_view(old(steps)@) + session_plan(
            voice_request@,
            voice_response@,
            prompt_request@,
            prompt_response@,
        ),
{
    plan_add_beam(steps, voice_request);
    plan_subscribe(steps, voice_response);
    plan_add_beam(steps, prompt_request);
    plan_subscribe(steps, prompt_response);
    assert(plan_view(steps@) =~= plan_view(old(steps)@) + session_plan(
        voice_request@,
        voice_response@,
        prompt_request@,
        prompt_response@,
    ));
}

pub(crate) fn push_user_beams(steps: &mut Vec<BeamSetup<String>>)
    ensures
        plan_view(final(steps)@) == plan_view(old(steps)@) + user_plan(),
{
    plan_add_beam(steps, USER_CREATED_BEAM);
    plan_add_beam(steps, USER_UPDATED_BEAM);
    plan_subscribe(steps, USER_CREATED_BEAM);
    plan_subscribe(steps, USER_UPDATED_BEAM);
    assert(plan_view(steps@) =~= plan_view(old(steps)@) + user_plan());
}

pub(crate) fn push_job_beams(steps: &mut Vec<BeamSetup<String>>)
    ensures
        plan_view(final(steps)@) == plan_view(old(steps)@) + job_plan(),
{
    plan_subscribe(steps, TASK_RESULT_BEAM);
    plan_subscribe(steps, JOB_CREATED_BEAM);
    plan_subscribe(steps, JOB_REQUEST_BEAM);
    plan_subscribe(steps, JOB_PROGRESS_BEAM);
    assert(plan_view(steps@) =~= plan_view(old(steps)@) + job_plan());
}

pub(crate) fn push_task_beams(steps: &mut Vec<BeamSetup<String>>)
    ensures
        plan_view(final(steps)@) == plan_view(old(steps)@) + task_plan(),
{
    plan_add_beam(steps, TASK_CREATED_BEAM);
    plan_add_beam(steps, TASK_UPDATED_BEAM);
    plan_add_beam(steps, TASK_ASSIGNEE_BEAM);
    plan_add_beam(steps, TASK_STATE_BEAM);
    plan_add_beam(steps, TASK_RUN_BEAM);
    assert(plan_view(steps@) =~= plan_view(old(steps)@) + task_plan());
}

pub(crate) fn push_project_beams(steps: &mut Vec<BeamSetup<String>>)
    ensures
        plan_view(final(steps)@) == plan_view(old(steps)@) + project_plan(),
{
    plan_add_beam(steps, PROJECT_CREATED_BEAM);
    plan_add_beam(steps, PROJECT_UPDATED_BEAM);
    assert(plan_view(steps@) =~= plan_view(old(steps)@) + project_plan());
}

pub(crate) fn push_flow_beams(steps: &mut Vec<BeamSetup<String>>)
    ensures
        plan_view(final(steps)@) == plan_view(old(steps)@) + flow_plan(),
{
    plan_add_beam(steps, FLOW_CREATED_BEAM);
    plan_add_beam(steps, FLOW_UPDATED_BEAM);
    assert(plan_view(steps@) =~= plan_view(old(steps)@) + flow_plan());
}

/// The plan that sets the user topics up: both are published on and both
/// are listened to.
pub fn setup_user_beams() -> (steps: Vec<BeamSetup<String>>)
    ensures
        plan_view(steps@) == user_plan(),
{
    let mut steps = Vec::new();
    push_user_beams(&mut steps);
    assert(plan_view(steps@) =~= user_plan());
    steps
}

/// The plan that sets the job topics up: task results, new jobs, job
/// requests and job progress are listened to.
pub fn setup_job_beams() -> (steps: Vec<BeamSetup<String>>)
    ensures
        plan_view(steps@) == job_plan(),
{
    let mut steps = Vec::new();
    push_job_beams(&mut steps);
    assert(plan_view(steps@) =~= job_plan());
    steps
}

/// The plan that sets the task topics up: all five are published on.
pub fn setup_task_beams() -> (steps: Vec<BeamSetup<String>>)
    ensures
        plan_view(steps@) == task_plan(),
{
    let mut steps = Vec::new();
    push_task_beams(&mut steps);
    assert(plan_view(steps@) =~= task_plan());
    steps
}

/// The plan that sets the project topics up: both are published on.
pub fn setup_project_beams() -> (steps: Vec<BeamSetup<String>>)
    ensures
        plan_view(steps@) == project_plan(),
{
    let mut steps = Vec::new();
    push_project_beams(&mut steps);
    assert(plan_view(steps@) =~= project_plan());
    steps
}

/// The plan that sets the workflow topics up: both are published on.
pub fn setup_flow_beams() -> (steps: Vec<BeamSetup<String>>)
    ensures
        plan_view(steps@) == flow_plan(),
{
    let mut steps = Vec::new();
    push_flow_beams(&mut steps);
    assert(plan_view(steps@) =~= flow_plan());
    steps
}

/// Where a batch that arrived from the broker goes.
#[derive(Clone, Copy, Debug, PartialEq, Eq, Structural)]
pub enum Route {
    /// Requests of running jobs: recorded, and forwarded to their handler.
    JobRequest,
    /// Results of task runs: forwarded to the handler of job results.
    TaskResult,
    /// New jobs: forwarded to the handler of new jobs.
    JobCreated,
    /// New users: announced on the local bus.
    UserCreated,
    /// Texts of voice chunks: handed to the voice registry.
    Voice,
    /// Answers of the prompt service: handed to the prompt registry.
    Prompt,
    /// None of these: the batch is reported and dropped.
    Unhandled,
}

/// The route of a batch on topic `beam`, for a bridge that awaits voice
/// texts on `voice_beam` and prompt answers on `prompt_beam`. The well-known
/// topics are tried first, in this order, and each by equality.
pub open spec fn route_of(beam: Seq<char>, voice_beam: Seq<char>, prompt_beam: Seq<char>) -> Route {
    if beam == JOB_REQUEST_BEAM@ {
        Route::JobRequest
    } else if beam == TASK_RESULT_BEAM@ {
        Route::TaskResult
    } else if beam == JOB_CREATED_BEAM@ {
        Route::JobCreated
    } else if beam == USER_CREATED_BEAM@ {
        Route::UserCreated
    } else if beam == voice_beam {
        Route::Voice
    } else if beam == prompt_beam {
        Route::Prompt
    } else {
        Route::Unhandled
    }
}

/// Decides where a batch on topic `beam` goes.
pub fn route_beam(beam: &str, voice_beam: &str, prompt_beam: &str) -> (route: Route)
    ensures
        route == route_of(beam@, voice_beam@, prompt_beam@),
{
    if same_text(beam, JOB_REQUEST_BEAM) {
        Route::JobRequest
    } else if same_text(beam, TASK_RESULT_BEAM) {
        Route::TaskResult
    } else if same_text(beam, JOB_CREATED_BEAM) {
        Route::JobCreated
    } else if same_text(beam, USER_CREATED_BEAM) {
        Route::UserCreated
    } else if same_text(beam, voice_beam) {
        Route::Voice
    } else if same_text(beam, prompt_beam) {
        Route::Prompt
    } else {
        Route::Unhandled
    }
}

/// The kinds of local events that the bridge publishes as they are.
#[derive(Clone, Copy, Debug, PartialEq, Eq, Structural)]
pub enum Outbound {
    User,
    Task,
    TaskUpdate,
    TaskRun,
    Project,
    Flow,
    Graph,
}

/// The topic on which a local event of kind `source` is published.
pub open spec fn outbound_beam_of(source: Outbound) -> Seq<char> {
    match source {
        Outbound::User => USER_CREATED_BEAM@,
        Outbound::Task => TASK_CREATED_BEAM@,
        Outbound::TaskUpdate => TASK_UPDATED_BEAM@,
        Outbound::TaskRun => TASK_RUN_BEAM@,
        Outbound::Project => PROJECT_CREATED_BEAM@,
        Outbound::Flow => FLOW_CREATED_BEAM@,
        Outbound::Graph => FLOW_UPDATED_BEAM@,
    }
}

/// The topic on which a local event of kind `source` is published.
pub fn outbound_beam(source: Outbound) -> (beam: &'static str)
    ensures
        beam@ == outbound_beam_of(source),
{
    match source {
        Outbound::User => USER_CREATED_BEAM,
        Outbound::Task => TASK_CREATED_BEAM,
        Outbound::TaskUpdate => TASK_UPDATED_BEAM,
        Outbound::TaskRun => TASK_RUN_BEAM,
        Outbound::Project => PROJECT_CREATED_BEAM,
        Outbound::Flow => FLOW_CREATED_BEAM,
        Outbound::Graph => FLOW_UPDATED_BEAM,
    }
}

/// Whatever a bridge publishes on, it has declared when it was set up: the
/// topic of every kind of local event, and the two request topics of its
/// sessions.
pub proof fn lemma_outbound_topics_are_declared(
    source: Outbound,
    voice_request: Seq<char>,
    voice_response: Seq<char>,
    prompt_request: Seq<char>,
    prompt_response: Seq<char>,
)
    ensures
        bridge_plan(voice_request, voice_response, prompt_request, prompt_response).contains(
            BeamSetup::AddBeam(outbound_beam_of(source)),
        ),
        bridge_plan(voice_request, voice_response, prompt_request, prompt_response).contains(
            BeamSetup::AddBeam(voice_request),
        ),
        bridge_plan(voice_request, voice_response, prompt_request, prompt_response).contains(
            BeamSetup::AddBeam(prompt_request),
        ),
{
    let plan = bridge_plan(voice_request, voice_response, prompt_request, prompt_response);
    assert(plan.len() == 21);
    assert(plan[0] == BeamSetup::AddBeam(voice_request));
    assert(plan[2] == BeamSetup::AddBeam(prompt_request));
    assert(plan[4] == BeamSetup::AddBeam(USER_CREATED_BEAM@));
    assert(plan[12] == BeamSetup::AddBeam(TASK_CREATED_BEAM@));
    assert(plan[13] == BeamSetup::AddBeam(TASK_UPDATED_BEAM@));
    assert(plan[16] == BeamSetup::AddBeam(TASK_RUN_BEAM@));
    assert(plan[17] == BeamSetup::AddBeam(PROJECT_CREATED_BEAM@));
    assert(plan[19] == BeamSetup::AddBeam(FLOW_CREATED_BEAM@));
    assert(plan[20] == BeamSetup::AddBeam(FLOW_UPDATED_BEAM@));
}

/// Whatever a bridge has a route for, it has subscribed to when it was set
/// up: the well-known topics of job requests, task results, new jobs and new
/// users, and the two response topics of its sessions.
pub proof fn lemma_routed_topics_are_subscribed(
    beam: Seq<char>,
    voice_request: Seq<char>,
    voice_response: Seq<char>,
    prompt_request: Seq<char>,
    prompt_response: Seq<char>,
)
    requires
        route_of(beam, voice_response, prompt_response) != Route::Unhandled,
    ensures
        bridge_plan(voice_request, voice_response, prompt_request, prompt_response).contains(
            BeamSetup::Subscribe(beam),
        ),
{
    let plan = bridge_plan(voice_request, voice_response, prompt_request, prompt_response);
    assert(plan.len() == 21);
    assert(plan[1] == BeamSetup::Subscribe(voice_response));
    assert(plan[3] == BeamSetup::Subscribe(prompt_response));
    assert(plan[6] == BeamSetup::Subscribe(USER_CREATED_BEAM@));
    assert(plan[8] == BeamSetup::Subscribe(TASK_RESULT_BEAM@));
    assert(plan[9] == BeamSetup::Subscribe(JOB_CREATED_BEAM@));
    assert(plan[10] == BeamSetup::Subscribe(JOB_REQUEST_BEAM@));
}

/// One message under a topic.
#[derive(Clone, Debug, PartialEq)]
pub struct Photon {
    pub beam: String,
    pub payload: Vec<u8>,
}

/// The payloads of a sequence of messages, in order.
pub open spec fn payloads_of(photons: Seq<Photon>) -> Seq<Seq<u8>> {
    Seq::new(photons.len(), |i: int| photons[i].payload@)
}

/// Whether `photons` can travel as one batch: there is at least one, and
/// all of them are under the topic of the first.
pub open spec fn is_batch(photons: Seq<Photon>) -> bool {
    &&& photons.len() > 0
    &&& forall|i: int| 0 <= i < photons.len() ==> (#[trigger] photons[i]).beam@ == photons[0].beam@
}

/// One or more messages that are delivered together. All of them are under
/// the topic of the batch.
pub struct Wavelet {
    beam: String,
    photons: Vec<Photon>,
}

impl Wavelet {
    #[verifier::type_invariant]
    spec fn well_formed(self) -> bool {
        &&& is_batch(self.photons@)
        &&& self.photons@[0].beam@ == self.beam@
    }

    /// The topic of the batch.
    pub closed spec fn spec_beam(&self) -> Seq<char> {
        self.beam@
    }

    /// The messages of the batch.
    pub closed spec fn spec_photons(&self) -> Seq<Photon> {
        self.photons@
    }

    /// The batch of `photons`; none where they make no batch.
    pub fn from_photons(photons: Vec<Photon>) -> (wavelet: Option<Wavelet>)
        ensures
            wavelet is Some <==> is_batch(photons@),
            wavelet is Some ==> wavelet->0.spec_photons() == photons@ && wavelet->0.spec_beam()
                == photons@[0].beam@,
    {
        if photons.len() == 0 {
            return None;
        }
        let mut checked: usize = 1;
        while checked < photons.len()
            invariant
                1 <= checked <= photons.len(),
                forall|i: int|
                    0 <= i < checked ==> (#[trigger] photons@[i]).beam@ == photons@[0].beam@,
            decreases photons.len() - checked,
        {
            if !same_text(photons[checked].beam.as_str(), photons[0].beam.as_str()) {
                return None;
            }
            checked = checked + 1;
        }
        let beam = photons[0].beam.clone();
        Some(Wavelet { beam, photons })
    }

    /// The topic of the batch.
    pub fn beam(&self) -> (beam: &str)
        ensures
            beam@ == self.spec_beam(),
    {
        self.beam.as_str()
    }

    /// The number of messages in the batch: at least one.
    pub fn len(&self) -> (len: usize)
        ensures
            len == self.spec_photons().len(),
            len > 0,
    {
        proof {
            use_type_invariant(self);
        }
        self.photons.len()
    }

    /// The messages of the batch. Each is under the topic of the batch.
    pub fn photons(&self) -> (photons: &Vec<Photon>)
        ensures
            photons@ == self.spec_photons(),
            is_batch(photons@),
            photons@[0].beam@ == self.spec_beam(),
    {
        proof {
            use_type_invariant(self);
        }
        &self.photons
    }

    /// The payloads of the messages of the batch, in order.
    pub fn payloads(&self) -> (payloads: Vec<Vec<u8>>)
        ensures
            payloads@.len() == self.spec_photons().len(),
            forall|i: int|
                0 <= i < payloads@.len() ==> (#[trigger] payloads@[i])@ == payloads_of(
                    self.spec_photons(),
                )[i],
    {
        let mut payloads: Vec<Vec<u8>> = Vec::new();
        let mut taken: usize = 0;
        while taken < self.photons.len()
            invariant
                taken <= self.photons.len(),
                payloads@.len() == taken,
                forall|i: int|
                    0 <= i < taken ==> (#[trigger] payloads@[i])@ == self.photons@[i].payload@,
            decreases self.photons.len() - taken,
        {
            let payload = self.photons[taken].payload.clone();
            assert(payload@ =~= self.photons@[taken as int].payload@);
            payloads.push(payload);
            taken = taken + 1;
        }
        payloads
    }
}

} // verus!
