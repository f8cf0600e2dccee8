use tokio::sync::{mpsc, oneshot};
use zini::bridge::{notice, Bridge, BridgeEvent, BridgeState, PromptTxWrapper};
use zini::events::{
    BeamSetup, Outbound, Photon, Route, Wavelet, DEFAULT_PING_RATE, FLOW_CREATED_BEAM,
    FLOW_UPDATED_BEAM, JOB_CREATED_BEAM, JOB_PROGRESS_BEAM, JOB_REQUEST_BEAM,
    PROJECT_CREATED_BEAM, PROJECT_UPDATED_BEAM, PROMPT_INPUT_BEAM, TASK_ASSIGNEE_BEAM,
    TASK_CREATED_BEAM, TASK_RESULT_BEAM, TASK_RUN_BEAM, TASK_STATE_BEAM, TASK_UPDATED_BEAM,
    USER_CREATED_BEAM, USER_UPDATED_BEAM, VOICE_REQUEST_BEAM,
};
use zini::interop::{ActionTaken, JobRequest, JobRequestType, JobResponse, JobResponseType};
use zini::jobs::JobRequestCollection;
use zini::prompts::{
    InitializePromptChannel, PromptResponseCollection, PromptResponseType, PromptRx,
    PromptRxPayload, PromptTx,
};
use zini::router::Router;
use zini::voice::{SpeechToText, SpeechToTextResponse, VoiceResponseCollection};

fn bridge() -> Bridge {
    Bridge::new(
        ("voice-out".to_string(), "voice-in".to_string()),
        ("prompt-out".to_string(), "prompt-in".to_string()),
    )
}

fn bridged() -> Bridge {
    let mut bridge = bridge();
    bridge.connected(true);
    bridge
}

fn add(beam: &str) -> BeamSetup<String> {
    BeamSetup::AddBeam(beam.to_string())
}

fn subscribe(beam: &str) -> BeamSetup<String> {
    BeamSetup::Subscribe(beam.to_string())
}

#[test]
fn unreachable_broker_leaves_a_standalone_bridge() {
    let mut router = Router::new();
    let mut rx = router.subscribe::<u32>();
    let mut bridge = Bridge::open();
    assert_eq!(bridge.state(), BridgeState::Connecting);
    assert_eq!(notice(bridge.state()), None);

    let plan = bridge.connected(false);
    assert!(plan.is_empty());
    assert_eq!(bridge.state(), BridgeState::Standalone);
    assert!(!bridge.is_bridged());
    let line = notice(bridge.state()).expect("a line for the log");
    assert_eq!(line, "Zini is running in standalone mode. No connection to prism.");
    assert!(line.contains("standalone mode"));

    let tx = router.announce::<u32>();
    assert_eq!(tx.send(1).ok(), Some(1));
    assert_eq!(rx.try_recv(), Ok(1));
    let mut queue = router.create_channel::<u8>();
    router.get_address::<u8>().expect("address").try_send(2).expect("room");
    assert_eq!(queue.try_recv(), Ok(2));
}

#[test]
fn standalone_bridge_stays_standalone() {
    let mut bridge = bridge();
    bridge.connected(false);
    assert!(bridge.connected(true).is_empty());
    assert_eq!(bridge.state(), BridgeState::Standalone);
    bridge.pinged(false);
    bridge.published(false);
    bridge.pinged(true);
    assert_eq!(bridge.state(), BridgeState::Standalone);
    assert_eq!(bridge.publish_beam(Outbound::Task), None);
}

#[test]
fn connected_bridge_sets_every_topic_up() {
    let mut bridge = bridge();
    let plan = bridge.connected(true);
    assert_eq!(bridge.state(), BridgeState::Bridged);
    assert!(bridge.is_bridged());
    assert_eq!(notice(bridge.state()), Some("Zini connected to prism!"));
    assert_eq!(
        plan,
        vec![
            add("voice-out"),
            subscribe("voice-in"),
            add("prompt-out"),
            subscribe("prompt-in"),
            add(USER_CREATED_BEAM),
            add(USER_UPDATED_BEAM),
            subscribe(USER_CREATED_BEAM),
            subscribe(USER_UPDATED_BEAM),
            subscribe(TASK_RESULT_BEAM),
            subscribe(JOB_CREATED_BEAM),
            subscribe(JOB_REQUEST_BEAM),
            subscribe(JOB_PROGRESS_BEAM),
            add(TASK_CREATED_BEAM),
            add(TASK_UPDATED_BEAM),
            add(TASK_ASSIGNEE_BEAM),
            add(TASK_STATE_BEAM),
            add(TASK_RUN_BEAM),
            add(PROJECT_CREATED_BEAM),
            add(PROJECT_UPDATED_BEAM),
            add(FLOW_CREATED_BEAM),
            add(FLOW_UPDATED_BEAM),
        ]
    );
    assert!(bridge.connected(true).is_empty());
    assert_eq!(bridge.state(), BridgeState::Bridged);
}

#[test]
fn opened_bridge_has_private_response_topics() {
    let first = Bridge::open();
    let second = Bridge::open();
    assert_eq!(first.voice_request_beam(), VOICE_REQUEST_BEAM);
    assert_eq!(first.prompt_request_beam(), PROMPT_INPUT_BEAM);
    assert!(first.voice_response_beam().starts_with("urn:subseq.io:voice:text:"));
    assert!(first.prompt_response_beam().starts_with("urn:subseq.io:prompt:stream:"));
    assert_eq!(first.voice_response_beam().len(), "urn:subseq.io:voice:text:".len() + 10);
    assert_eq!(first.prompt_response_beam().len(), "urn:subseq.io:prompt:stream:".len() + 10);
    assert_ne!(first.voice_response_beam(), second.voice_response_beam());
    assert_eq!(first.remaining(), DEFAULT_PING_RATE);
    assert_eq!(first.state(), BridgeState::Connecting);
}

#[test]
fn successful_ping_resets_the_timer() {
    let mut bridge = bridged();
    assert_eq!(DEFAULT_PING_RATE, 50_000_000_000);
    assert_eq!(bridge.keepalive_wait(20_000_000_000), 30_000_000_000);
    assert_eq!(bridge.remaining(), 30_000_000_000);
    assert_eq!(bridge.keepalive_wait(25_000_000_000), 5_000_000_000);
    assert_eq!(bridge.keepalive_wait(25_000_000_000), 0);
    assert_eq!(bridge.keepalive_wait(u128::MAX), 0);
    bridge.pinged(true);
    assert_eq!(bridge.state(), BridgeState::Bridged);
    assert_eq!(bridge.remaining(), DEFAULT_PING_RATE);
    assert_eq!(bridge.keepalive_wait(0), DEFAULT_PING_RATE);
    assert_eq!(bridge.keepalive_wait(1), DEFAULT_PING_RATE - 1);
}

#[test]
fn failed_ping_closes_the_bridge() {
    let mut bridge = bridged();
    bridge.keepalive_wait(50_000_000_000);
    bridge.pinged(false);
    assert_eq!(bridge.state(), BridgeState::Closed);
    assert_eq!(bridge.remaining(), 0);
    assert_eq!(notice(bridge.state()), Some("Prism client closed"));
    bridge.pinged(true);
    assert_eq!(bridge.state(), BridgeState::Closed);
    assert_eq!(bridge.remaining(), 0);
    assert!(bridge.connected(true).is_empty());
    assert_eq!(bridge.state(), BridgeState::Closed);
}

#[test]
fn ping_before_the_connection_changes_nothing() {
    let mut bridge = bridge();
    bridge.keepalive_wait(10);
    bridge.pinged(false);
    assert_eq!(bridge.state(), BridgeState::Connecting);
    bridge.pinged(true);
    assert_eq!(bridge.remaining(), DEFAULT_PING_RATE - 10);
    bridge.published(false);
    assert_eq!(bridge.state(), BridgeState::Connecting);
}

#[test]
fn failed_publish_closes_the_bridge() {
    let mut bridge = bridged();
    bridge.published(true);
    assert_eq!(bridge.state(), BridgeState::Bridged);
    bridge.keepalive_wait(7);
    bridge.published(false);
    assert_eq!(bridge.state(), BridgeState::Closed);
    assert_eq!(bridge.remaining(), DEFAULT_PING_RATE - 7);
    bridge.published(true);
    assert_eq!(bridge.state(), BridgeState::Closed);
}

#[test]
fn batches_are_routed_by_their_topic() {
    let bridge = bridged();
    assert_eq!(bridge.route(JOB_REQUEST_BEAM), Route::JobRequest);
    assert_eq!(bridge.route(TASK_RESULT_BEAM), Route::TaskResult);
    assert_eq!(bridge.route(JOB_CREATED_BEAM), Route::JobCreated);
    assert_eq!(bridge.route(USER_CREATED_BEAM), Route::UserCreated);
    assert_eq!(bridge.route("voice-in"), Route::Voice);
    assert_eq!(bridge.route("prompt-in"), Route::Prompt);
    assert_eq!(bridge.route("voice-out"), Route::Unhandled);
    assert_eq!(bridge.route(JOB_PROGRESS_BEAM), Route::Unhandled);
    assert_eq!(bridge.route(USER_UPDATED_BEAM), Route::Unhandled);
    assert_eq!(bridge.route("voice-in "), Route::Unhandled);
    assert_eq!(bridge.route("voice-i"), Route::Unhandled);
    assert_eq!(bridge.route(""), Route::Unhandled);
}

#[test]
fn well_known_topics_win_over_session_topics() {
    let bridge = Bridge::new(
        ("a".to_string(), JOB_REQUEST_BEAM.to_string()),
        ("b".to_string(), "same".to_string()),
    );
    assert_eq!(bridge.route(JOB_REQUEST_BEAM), Route::JobRequest);
    let bridge = Bridge::new(
        ("a".to_string(), "same".to_string()),
        ("b".to_string(), "same".to_string()),
    );
    assert_eq!(bridge.route("same"), Route::Voice);
}

#[test]
fn wavelet_is_dispatched_by_its_topic() {
    let bridge = bridged();
    let photons = vec![
        Photon { beam: "prompt-in".to_string(), payload: vec![1, 2] },
        Photon { beam: "prompt-in".to_string(), payload: vec![] },
        Photon { beam: "prompt-in".to_string(), payload: vec![3] },
    ];
    let wavelet = Wavelet::from_photons(photons.clone()).expect("one topic");
    assert_eq!(wavelet.beam(), "prompt-in");
    assert_eq!(wavelet.len(), 3);
    assert_eq!(wavelet.photons(), &photons);
    assert_eq!(wavelet.payloads(), vec![vec![1u8, 2], vec![], vec![3]]);
    assert_eq!(bridge.dispatch(&wavelet), Route::Prompt);
}

#[test]
fn wavelet_needs_one_topic_and_a_message() {
    assert!(Wavelet::from_photons(vec![]).is_none());
    let mixed = vec![
        Photon { beam: "a".to_string(), payload: vec![1] },
        Photon { beam: "a".to_string(), payload: vec![2] },
        Photon { beam: "b".to_string(), payload: vec![3] },
    ];
    assert!(Wavelet::from_photons(mixed).is_none());
    let single = vec![Photon { beam: TASK_RESULT_BEAM.to_string(), payload: vec![9] }];
    let wavelet = Wavelet::from_photons(single).expect("one message");
    assert_eq!(wavelet.len(), 1);
    assert_eq!(bridged().dispatch(&wavelet), Route::TaskResult);
}

#[test]
fn local_events_go_out_on_their_topics() {
    let bridge = bridged();
    assert_eq!(bridge.publish_beam(Outbound::User), Some(USER_CREATED_BEAM));
    assert_eq!(bridge.publish_beam(Outbound::Task), Some(TASK_CREATED_BEAM));
    assert_eq!(bridge.publish_beam(Outbound::TaskUpdate), Some(TASK_UPDATED_BEAM));
    assert_eq!(bridge.publish_beam(Outbound::TaskRun), Some(TASK_RUN_BEAM));
    assert_eq!(bridge.publish_beam(Outbound::Project), Some(PROJECT_CREATED_BEAM));
    assert_eq!(bridge.publish_beam(Outbound::Flow), Some(FLOW_CREATED_BEAM));
    assert_eq!(bridge.publish_beam(Outbound::Graph), Some(FLOW_UPDATED_BEAM));
    let mut closed = bridged();
    closed.published(false);
    assert_eq!(closed.publish_beam(Outbound::User), None);
    assert_eq!(self::bridge().publish_beam(Outbound::User), None);
}

#[test]
fn job_response_goes_to_the_reply_topic_of_the_job() {
    let bridge = bridged();
    let mut requests = JobRequestCollection::new();
    requests.insert(JobRequest {
        request: JobRequestType::Help("h".to_string()),
        response_beam: "r7".to_string(),
        job_id: 7,
        user_id: 1,
        requested_by_id: 2,
    });
    let answer = JobResponseType::Help {
        actions_taken: vec![ActionTaken {
            action: "rebased".to_string(),
            files_changed: vec!["Cargo.toml".to_string()],
        }],
        result: "done".to_string(),
    };
    let publish =
        bridge.job_response(&mut requests, JobResponse { job_id: 7, response: answer.clone() });
    assert_eq!(publish, Some(("r7".to_string(), answer.clone())));
    assert!(!requests.contains(7));
    let again = bridge.job_response(&mut requests, JobResponse { job_id: 7, response: answer });
    assert_eq!(again, None);
}

#[test]
fn job_response_waits_while_the_bridge_is_down() {
    let bridge = bridge();
    let mut requests = JobRequestCollection::new();
    requests.insert(JobRequest {
        request: JobRequestType::Help("h".to_string()),
        response_beam: "r7".to_string(),
        job_id: 7,
        user_id: 1,
        requested_by_id: 2,
    });
    assert_eq!(bridge.job_response(&mut requests, JobResponse::failed(7)), None);
    assert!(requests.contains(7));
}

#[test]
fn voice_chunk_is_registered_and_sent_with_the_reply_topic() {
    let bridge = bridged();
    let mut requests = VoiceResponseCollection::new();
    let (tx, mut rx) = oneshot::channel();
    let chunk =
        SpeechToText { conversation_id: 5, payload: vec![1, 2, 3], count: 2, finalize: true };
    let request = bridge.voice_request(&mut requests, chunk, tx).ok().expect("bridged");
    assert_eq!(request.conversation_id, 5);
    assert_eq!(request.payload, vec![1, 2, 3]);
    assert_eq!(request.count, 2);
    assert_eq!(request.beam, "voice-in");
    assert!(request.finalize);
    assert!(requests.is_pending(5, 2));
    let text = SpeechToTextResponse {
        conversation_id: 5,
        count: 2,
        payload: "hello".to_string(),
        finalized: true,
    };
    requests.send_response(text.clone());
    assert_eq!(rx.try_recv(), Ok(text));
}

#[test]
fn voice_chunk_comes_back_while_the_bridge_is_down() {
    let bridge = bridge();
    let mut requests = VoiceResponseCollection::new();
    let (tx, mut rx) = oneshot::channel::<SpeechToTextResponse>();
    let chunk = SpeechToText { conversation_id: 5, payload: vec![1], count: 0, finalize: false };
    let (back, slot) = bridge.voice_request(&mut requests, chunk.clone(), tx).err().expect("down");
    assert_eq!(back, chunk);
    assert!(!requests.is_pending(5, 0));
    assert_eq!(rx.try_recv(), Err(oneshot::error::TryRecvError::Empty));
    drop(slot);
    assert_eq!(rx.try_recv(), Err(oneshot::error::TryRecvError::Closed));
}

#[test]
fn prompt_session_is_registered_when_it_opens() {
    let bridge = bridged();
    let mut sessions = PromptResponseCollection::new();
    let (say_tx, say_rx) = mpsc::channel::<PromptTx>(4);
    let (hear_tx, mut hear_rx) = mpsc::unbounded_channel();
    let opening = InitializePromptChannel(42, say_rx, hear_tx);
    let mut queue = bridge.prompt_opened(&mut sessions, opening).ok().expect("bridged");
    assert!(sessions.is_open(42));

    let said = PromptTx::stream_update(42, "hi".to_string());
    say_tx.try_send(said.clone()).expect("room");
    let forwarded = queue.try_recv().expect("queued");
    assert_eq!(forwarded, said);
    assert_eq!(
        bridge.wrap_prompt(forwarded),
        PromptTxWrapper { prompt_tx: said, beam: "prompt-in".to_string() }
    );

    let close = PromptRx {
        stream_id: 42,
        payload: PromptRxPayload::Close(PromptResponseType::Text("bye".to_string())),
    };
    sessions.send_response(close.clone());
    assert_eq!(hear_rx.try_recv(), Ok(close.payload));
    assert!(!sessions.is_open(42));
}

#[test]
fn prompt_opening_comes_back_while_the_bridge_is_down() {
    let mut bridge = bridged();
    bridge.pinged(false);
    let mut sessions = PromptResponseCollection::new();
    let (_say_tx, say_rx) = mpsc::channel::<PromptTx>(4);
    let (hear_tx, _hear_rx) = mpsc::unbounded_channel();
    let back = bridge
        .prompt_opened(&mut sessions, InitializePromptChannel(42, say_rx, hear_tx))
        .err()
        .expect("closed");
    assert_eq!(back.0, 42);
    assert!(!sessions.is_open(42));
}

#[test]
fn events_move_the_bridge_forward() {
    let mut bridge = bridge();
    assert!(bridge.handle(BridgeEvent::Pinged(false)).is_empty());
    assert_eq!(bridge.state(), BridgeState::Connecting);
    assert_eq!(bridge.handle(BridgeEvent::Connected(true)).len(), 21);
    assert_eq!(bridge.state(), BridgeState::Bridged);
    bridge.keepalive_wait(5);
    assert!(bridge.handle(BridgeEvent::Published(true)).is_empty());
    assert_eq!(bridge.remaining(), DEFAULT_PING_RATE - 5);
    assert!(bridge.handle(BridgeEvent::Pinged(true)).is_empty());
    assert_eq!(bridge.remaining(), DEFAULT_PING_RATE);
    assert!(bridge.handle(BridgeEvent::Published(false)).is_empty());
    assert_eq!(bridge.state(), BridgeState::Closed);
    for event in [
        BridgeEvent::Connected(true),
        BridgeEvent::Connected(false),
        BridgeEvent::Pinged(true),
        BridgeEvent::Published(true),
    ] {
        assert!(bridge.handle(event).is_empty());
        assert_eq!(bridge.state(), BridgeState::Closed);
    }
}

#[test]
fn private_topics_of_an_opened_bridge_are_routed() {
    for _ in 0..20 {
        let bridge = Bridge::open();
        let voice = bridge.voice_response_beam().to_string();
        let prompt = bridge.prompt_response_beam().to_string();
        assert_eq!(bridge.route(&voice), Route::Voice);
        assert_eq!(bridge.route(&prompt), Route::Prompt);
    }
}

#[test]
fn every_topic_that_is_published_on_was_declared() {
    let mut bridge = Bridge::open();
    let plan = bridge.connected(true);
    for source in [
        Outbound::User,
        Outbound::Task,
        Outbound::TaskUpdate,
        Outbound::TaskRun,
        Outbound::Project,
        Outbound::Flow,
        Outbound::Graph,
    ] {
        let beam = bridge.publish_beam(source).expect("bridged");
        assert_eq!(plan.iter().filter(|step| **step == add(beam)).count(), 1);
    }
    assert!(plan.contains(&add(bridge.voice_request_beam())));
    assert!(plan.contains(&add(bridge.prompt_request_beam())));
    assert!(plan.contains(&add("urn:subseq.io:tasks:task:run")));
}

#[test]
fn every_topic_with_a_route_was_subscribed() {
    let mut bridge = Bridge::open();
    let plan = bridge.connected(true);
    let voice = bridge.voice_response_beam().to_string();
    let prompt = bridge.prompt_response_beam().to_string();
    for beam in [
        JOB_REQUEST_BEAM,
        TASK_RESULT_BEAM,
        JOB_CREATED_BEAM,
        USER_CREATED_BEAM,
        voice.as_str(),
        prompt.as_str(),
    ] {
        assert_ne!(bridge.route(beam), Route::Unhandled);
        assert_eq!(plan.iter().filter(|step| **step == subscribe(beam)).count(), 1);
    }
}

#[test]
fn no_step_of_the_plan_stands_twice() {
    let mut bridge = Bridge::open();
    let plan = bridge.connected(true);
    assert_eq!(plan.len(), 21);
    for (at, step) in plan.iter().enumerate() {
        assert!(!plan[..at].contains(step));
    }
}
