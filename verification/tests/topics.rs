use zini::events::{
    gen_prompt_beams, gen_rand, gen_voice_beams, outbound_beam, prism_url, private_beam,
    route_beam, setup_flow_beams, setup_job_beams, setup_project_beams, setup_task_beams,
    setup_user_beams, BeamSetup, Outbound, Route, FLOW_CREATED_BEAM, FLOW_UPDATED_BEAM,
    JOB_CREATED_BEAM, JOB_PROGRESS_BEAM, JOB_REQUEST_BEAM, PROJECT_CREATED_BEAM,
    PROJECT_UPDATED_BEAM, PROMPT_INPUT_BEAM, PROMPT_STREAM_PREFIX, SUFFIX_LENGTH,
    TASK_ASSIGNEE_BEAM, TASK_CREATED_BEAM, TASK_RESULT_BEAM, TASK_RUN_BEAM, TASK_STATE_BEAM,
    TASK_UPDATED_BEAM, USER_CREATED_BEAM, USER_UPDATED_BEAM, VOICE_REQUEST_BEAM,
    VOICE_TEXT_PREFIX,
};
use zini::text::same_text;

fn add(beam: &str) -> BeamSetup<String> {
    BeamSetup::AddBeam(beam.to_string())
}

fn subscribe(beam: &str) -> BeamSetup<String> {
    BeamSetup::Subscribe(beam.to_string())
}

#[test]
fn broker_address_with_port() {
    assert_eq!(prism_url("localhost", Some(5050)), "ws://localhost:5050");
    assert_eq!(prism_url("prism.internal", Some(80)), "ws://prism.internal:80");
}

#[test]
fn broker_address_without_port() {
    assert_eq!(prism_url("localhost", None), "ws://localhost");
    assert_eq!(prism_url("", None), "ws://");
}

#[test]
fn broker_address_writes_the_port_in_decimal() {
    assert_eq!(prism_url("h", Some(0)), "ws://h:0");
    assert_eq!(prism_url("h", Some(7)), "ws://h:7");
    assert_eq!(prism_url("h", Some(10)), "ws://h:10");
    assert_eq!(prism_url("h", Some(109)), "ws://h:109");
    assert_eq!(prism_url("h", Some(9000)), "ws://h:9000");
    assert_eq!(prism_url("h", Some(65535)), "ws://h:65535");
    assert_eq!(prism_url("invalid", Some(0)), "ws://invalid:0");
    for port in [1u16, 99, 100, 101, 4321, 10000, 60006] {
        assert_eq!(prism_url("host", Some(port)), format!("ws://{}:{}", "host", port));
    }
}

#[test]
fn broker_address_keeps_the_host_as_it_is() {
    assert_eq!(prism_url("bücher.example", Some(1)), "ws://bücher.example:1");
    assert_eq!(prism_url("[::1]", Some(5050)), "ws://[::1]:5050");
}

#[test]
fn well_known_topics() {
    assert_eq!(USER_CREATED_BEAM, "urn:subseq.io:oidc:user:created");
    assert_eq!(USER_UPDATED_BEAM, "urn:subseq.io:oidc:user:updated");
    assert_eq!(JOB_CREATED_BEAM, "urn:subseq.io:builds:job:created");
    assert_eq!(JOB_PROGRESS_BEAM, "urn:subseq.io:builds:job:progress");
    assert_eq!(JOB_REQUEST_BEAM, "urn:subseq.io:builds:job:request");
    assert_eq!(TASK_RUN_BEAM, "urn:subseq.io:tasks:task:run");
    assert_eq!(TASK_RESULT_BEAM, "urn:subseq.io:tasks:task:result");
    assert_eq!(TASK_CREATED_BEAM, "urn:subseq.io:tasks:task:created");
    assert_eq!(TASK_UPDATED_BEAM, "urn:subseq.io:tasks:task:updated");
    assert_eq!(TASK_ASSIGNEE_BEAM, "urn:subseq.io:tasks:task:assignee:changed");
    assert_eq!(TASK_STATE_BEAM, "urn:subseq.io:tasks:task:state:changed");
    assert_eq!(PROJECT_CREATED_BEAM, "urn:subseq.io:tasts:project:created");
    assert_eq!(PROJECT_UPDATED_BEAM, "urn:subseq.io:tasks:project:updated");
    assert_eq!(FLOW_CREATED_BEAM, "urn:subseq.io:tasks:workflow:created");
    assert_eq!(FLOW_UPDATED_BEAM, "urn:subseq.io:tasks:workflow:updated");
}

#[test]
fn random_suffix_is_ten_letters_or_digits() {
    assert_eq!(SUFFIX_LENGTH, 10);
    let mut seen = Vec::new();
    for _ in 0..50 {
        let suffix = gen_rand();
        assert_eq!(suffix.len(), 10);
        assert!(suffix.chars().all(|c| c.is_ascii_alphanumeric()));
        seen.push(suffix);
    }
    seen.sort();
    seen.dedup();
    assert!(seen.len() > 1);
}

#[test]
fn private_topic_is_prefix_and_suffix() {
    let beam = private_beam("ns:");
    assert!(beam.starts_with("ns:"));
    assert_eq!(beam.len(), 13);
    assert!(beam[3..].chars().all(|c| c.is_ascii_alphanumeric()));
    let bare = private_beam("");
    assert_eq!(bare.len(), 10);
    assert_ne!(private_beam("ns:"), beam);
}

#[test]
fn voice_topics() {
    let (request, response) = gen_voice_beams();
    assert_eq!(request, "urn:subseq.io:voice:audio:request");
    assert_eq!(request, VOICE_REQUEST_BEAM);
    assert!(response.starts_with("urn:subseq.io:voice:text:"));
    assert!(response.starts_with(VOICE_TEXT_PREFIX));
    let suffix = &response[VOICE_TEXT_PREFIX.len()..];
    assert_eq!(suffix.len(), 10);
    assert!(suffix.chars().all(|c| c.is_ascii_alphanumeric()));
}

#[test]
fn prompt_topics() {
    let (request, response) = gen_prompt_beams();
    assert_eq!(request, "urn:subseq.io:prompt:stream:input");
    assert_eq!(request, PROMPT_INPUT_BEAM);
    assert!(response.starts_with("urn:subseq.io:prompt:stream:"));
    let suffix = &response[PROMPT_STREAM_PREFIX.len()..];
    assert_eq!(suffix.len(), 10);
    assert!(suffix.chars().all(|c| c.is_ascii_alphanumeric()));
    assert_ne!(gen_prompt_beams().1, response);
}

#[test]
fn user_topics_are_declared_and_subscribed() {
    assert_eq!(
        setup_user_beams(),
        vec![
            add("urn:subseq.io:oidc:user:created"),
            add("urn:subseq.io:oidc:user:updated"),
            subscribe("urn:subseq.io:oidc:user:created"),
            subscribe("urn:subseq.io:oidc:user:updated"),
        ]
    );
}

#[test]
fn job_topics_are_subscribed() {
    assert_eq!(
        setup_job_beams(),
        vec![
            subscribe("urn:subseq.io:tasks:task:result"),
            subscribe("urn:subseq.io:builds:job:created"),
            subscribe("urn:subseq.io:builds:job:request"),
            subscribe("urn:subseq.io:builds:job:progress"),
        ]
    );
}

#[test]
fn task_project_and_flow_topics_are_declared() {
    assert_eq!(
        setup_task_beams(),
        vec![
            add("urn:subseq.io:tasks:task:created"),
            add("urn:subseq.io:tasks:task:updated"),
            add("urn:subseq.io:tasks:task:assignee:changed"),
            add("urn:subseq.io:tasks:task:state:changed"),
            add("urn:subseq.io:tasks:task:run"),
        ]
    );
    assert_eq!(
        setup_project_beams(),
        vec![
            add("urn:subseq.io:tasts:project:created"),
            add("urn:subseq.io:tasks:project:updated"),
        ]
    );
    assert_eq!(
        setup_flow_beams(),
        vec![
            add("urn:subseq.io:tasks:workflow:created"),
            add("urn:subseq.io:tasks:workflow:updated"),
        ]
    );
}

#[test]
fn routes_by_exact_topic() {
    assert_eq!(route_beam(JOB_REQUEST_BEAM, "v", "p"), Route::JobRequest);
    assert_eq!(route_beam(TASK_RESULT_BEAM, "v", "p"), Route::TaskResult);
    assert_eq!(route_beam(JOB_CREATED_BEAM, "v", "p"), Route::JobCreated);
    assert_eq!(route_beam(USER_CREATED_BEAM, "v", "p"), Route::UserCreated);
    assert_eq!(route_beam("v", "v", "p"), Route::Voice);
    assert_eq!(route_beam("p", "v", "p"), Route::Prompt);
    assert_eq!(route_beam("q", "v", "p"), Route::Unhandled);
    assert_eq!(route_beam("urn:subseq.io:builds:job:reques", "v", "p"), Route::Unhandled);
    assert_eq!(route_beam("urn:subseq.io:builds:job:request:1", "v", "p"), Route::Unhandled);
}

#[test]
fn outbound_topics() {
    assert_eq!(outbound_beam(Outbound::User), "urn:subseq.io:oidc:user:created");
    assert_eq!(outbound_beam(Outbound::Task), "urn:subseq.io:tasks:task:created");
    assert_eq!(outbound_beam(Outbound::TaskUpdate), "urn:subseq.io:tasks:task:updated");
    assert_eq!(outbound_beam(Outbound::TaskRun), "urn:subseq.io:tasks:task:run");
    assert_eq!(outbound_beam(Outbound::Project), "urn:subseq.io:tasts:project:created");
    assert_eq!(outbound_beam(Outbound::Flow), "urn:subseq.io:tasks:workflow:created");
    assert_eq!(outbound_beam(Outbound::Graph), "urn:subseq.io:tasks:workflow:updated");
}

#[test]
fn same_text_compares_characters() {
    assert!(same_text("", ""));
    assert!(same_text("beam", "beam"));
    assert!(!same_text("beam", "Beam"));
    assert!(!same_text("beam", "beam "));
    assert!(same_text("ü", "ü"));
}
