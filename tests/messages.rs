use jeeves::policy::{is_triggered, mentions_persona_folded};
use jeeves::store::find_guild;
use jeeves::text::{contains_text, decimal, starts_with_text};
use jeeves::{
    clean_completion, create_chat_completion, create_chat_completion_for_guild_channel,
    empty_state, handle_message, record_completion, reply_to_message, save_channel,
    switch_model, BotResponseSchema, CompletionFailed, IncomingMessage, JeevesState,
    OutboundCall, Utterance,
};

fn s(x: &str) -> String {
    x.to_string()
}

fn message(id: &str, author: &str, content: &str) -> IncomingMessage {
    IncomingMessage {
        id: s(id),
        guild_id: Some(s("g")),
        channel_id: s("c"),
        author: Some(s(author)),
        content: Some(s(content)),
        mentions: vec![],
    }
}

fn active_state() -> JeevesState {
    let mut state = empty_state();
    save_channel(&mut state, &s("g"), &s("c"));
    state
}

fn log_of(state: &JeevesState) -> Vec<Utterance> {
    let g = &state.guilds[find_guild(state, "g").unwrap()];
    match g.find_log("c") {
        Some(j) => g.message_log[j].utterances.clone(),
        None => vec![],
    }
}

fn set_schema(state: &mut JeevesState, schema: BotResponseSchema) {
    let i = find_guild(state, "g").unwrap();
    state.guilds[i].response_schema = schema;
}

#[test]
fn message_is_recorded_and_prompt_built() {
    let mut state = active_state();
    let req = handle_message(&mut state, &message("m1", "alice", "Good morning")).unwrap();
    let log = log_of(&state);
    assert_eq!(log.len(), 1);
    assert_eq!(log[0].id.as_deref(), Some("m1"));
    assert_eq!(log[0].username, "alice");
    assert_eq!(log[0].content, "Good morning");
    assert_eq!(req.model, "gpt-3.5-turbo");
    assert_eq!(req.messages.len(), 2);
    assert_eq!(req.messages[0].role, "system");
    assert!(req.messages[0].content.starts_with("[system]: You are Jeeves"));
    assert_eq!(req.messages[1].role, "user");
    assert_eq!(req.messages[1].content, "[alice]: Good morning");
}

#[test]
fn duplicate_delivery_is_recorded_once() {
    let mut state = active_state();
    let m = message("m1", "alice", "hello");
    assert!(handle_message(&mut state, &m).is_some());
    assert!(handle_message(&mut state, &m).is_none());
    let log = log_of(&state);
    assert_eq!(log.len(), 1);
    assert_eq!(log[0].id.as_deref(), Some("m1"));
}

#[test]
fn own_messages_are_ignored() {
    let mut state = active_state();
    assert!(handle_message(&mut state, &message("m1", "Jeeves", "Jeeves here")).is_none());
    assert!(log_of(&state).is_empty());
}

#[test]
fn cooldown_silences_the_community() {
    let mut state = active_state();
    let i = find_guild(&state, "g").unwrap();
    state.guilds[i].cooldown = 1;
    set_schema(&mut state, BotResponseSchema::Pinged);
    assert!(handle_message(&mut state, &message("m1", "alice", "jeeves, help")).is_none());
    set_schema(&mut state, BotResponseSchema::EveryMessage);
    assert!(handle_message(&mut state, &message("m2", "alice", "anything")).is_none());
    assert!(log_of(&state).is_empty());
}

#[test]
fn unknown_community_or_inactive_channel_is_ignored() {
    let mut state = empty_state();
    assert!(handle_message(&mut state, &message("m1", "alice", "hi")).is_none());
    assert!(state.guilds.is_empty());
    let mut state = active_state();
    let mut m = message("m1", "alice", "hi");
    m.channel_id = s("elsewhere");
    assert!(handle_message(&mut state, &m).is_none());
    assert!(log_of(&state).is_empty());
}

#[test]
fn message_without_author_content_or_community_is_ignored() {
    let mut state = active_state();
    let mut m = message("m1", "alice", "hi");
    m.author = None;
    assert!(handle_message(&mut state, &m).is_none());
    let mut m = message("m2", "alice", "hi");
    m.content = None;
    assert!(handle_message(&mut state, &m).is_none());
    let mut m = message("m3", "alice", "hi");
    m.guild_id = None;
    assert!(handle_message(&mut state, &m).is_none());
    assert!(log_of(&state).is_empty());
}

#[test]
fn mention_schema_needs_the_persona() {
    let mut state = active_state();
    set_schema(&mut state, BotResponseSchema::Pinged);
    assert!(handle_message(&mut state, &message("m1", "alice", "good day")).is_none());
    assert!(handle_message(&mut state, &message("m2", "alice", "Good day, JEEVES")).is_some());
    let mut m = message("m3", "alice", "good day");
    m.mentions = vec![s("bob"), s("Jeeves")];
    assert!(handle_message(&mut state, &m).is_some());
    assert_eq!(log_of(&state).len(), 2);
}

#[test]
fn keyword_schema_matches_substring() {
    let mut state = active_state();
    set_schema(&mut state, BotResponseSchema::WordOrPhrase(s("tea")));
    assert!(handle_message(&mut state, &message("m1", "alice", "coffee please")).is_none());
    assert!(handle_message(&mut state, &message("m2", "alice", "some steak")).is_some());
    assert!(handle_message(&mut state, &message("m3", "alice", "TEA")).is_none());
}

#[test]
fn trigger_helpers() {
    assert!(mentions_persona_folded("ask jeeves", &vec![]));
    assert!(!mentions_persona_folded("ask JEEVES", &vec![]));
    assert!(mentions_persona_folded("", &vec![s("Jeeves")]));
    assert!(!mentions_persona_folded("", &vec![s("jeeves")]));
    assert!(is_triggered(&BotResponseSchema::Pinged, &s("Oi, JeEvEs!"), &vec![]));
    assert!(is_triggered(&BotResponseSchema::EveryMessage, &s(""), &vec![]));
    assert!(!is_triggered(&BotResponseSchema::WordOrPhrase(s("xyz")), &s("xy z"), &vec![]));
}

#[test]
fn substring_search() {
    assert!(contains_text("abcdef", "cde"));
    assert!(contains_text("abc", ""));
    assert!(!contains_text("abc", "abcd"));
    assert!(!contains_text("", "a"));
    assert!(contains_text("ünïcödé", "ïcö"));
}

#[test]
fn decimal_rendering() {
    assert_eq!(decimal(0), "0");
    assert_eq!(decimal(7), "7");
    assert_eq!(decimal(10), "10");
    assert_eq!(decimal(90210), "90210");
    assert_eq!(decimal(usize::MAX), usize::MAX.to_string());
}

#[test]
fn completion_tag_is_stripped() {
    assert_eq!(clean_completion("[Jeeves]: Indeed, sir."), " Indeed, sir.");
    assert_eq!(clean_completion("Very good, sir."), "Very good, sir.");
    assert_eq!(clean_completion("[Jeeves]:[Jeeves]: a [Jeeves]: b"), "[Jeeves]: a [Jeeves]: b");
    assert_eq!(clean_completion("a[Jeeves]:b"), "a[Jeeves]:b");
    assert_eq!(clean_completion(" [Jeeves]: late"), " [Jeeves]: late");
    assert_eq!(clean_completion("[Jeeves]:"), "");
    assert_eq!(clean_completion("[Jeeves]"), "[Jeeves]");
    assert_eq!(clean_completion(""), "");
    assert!(starts_with_text("ünï", "ün"));
    assert!(!starts_with_text("ün", "ünï"));
}

#[test]
fn completion_is_recorded_as_assistant() {
    let mut state = active_state();
    handle_message(&mut state, &message("m1", "alice", "hello")).unwrap();
    let text = record_completion(&mut state, &s("g"), &s("c"), Ok(s("[Jeeves]: Good day, sir.")));
    assert_eq!(text, " Good day, sir.");
    let log = log_of(&state);
    assert_eq!(log.len(), 2);
    assert!(log[1].id.is_none());
    assert_eq!(log[1].username, "Jeeves");
    assert_eq!(log[1].content, " Good day, sir.");
    let req = handle_message(&mut state, &message("m2", "alice", "thanks")).unwrap();
    assert_eq!(req.messages.len(), 4);
    assert_eq!(req.messages[2].role, "assistant");
    assert_eq!(req.messages[2].content, "[Jeeves]:  Good day, sir.");
    assert_eq!(req.messages[3].role, "user");
}

#[test]
fn completion_failure_leaves_log_intact() {
    let mut state = active_state();
    handle_message(&mut state, &message("m1", "alice", "hello")).unwrap();
    let calls = reply_to_message(
        &mut state,
        &s("g"),
        &s("c"),
        Err(CompletionFailed { message: s("timeout") }),
    );
    assert_eq!(calls.len(), 1);
    match &calls[0] {
        OutboundCall::ChannelMessage { channel_id, content } => {
            assert_eq!(channel_id, "c");
            assert_eq!(content, "[ERROR: fetching completion failed: timeout]");
        }
        _ => panic!("expected a channel message"),
    }
    let log = log_of(&state);
    assert_eq!(log.len(), 1);
    assert_eq!(log[0].id.as_deref(), Some("m1"));
}

#[test]
fn long_failure_report_is_split() {
    let mut state = active_state();
    handle_message(&mut state, &message("m1", "alice", "hello")).unwrap();
    let calls = reply_to_message(
        &mut state,
        &s("g"),
        &s("c"),
        Err(CompletionFailed { message: "z".repeat(1000) }),
    );
    assert_eq!(calls.len(), 2);
    assert_eq!(log_of(&state).len(), 1);
}

#[test]
fn completion_reply_goes_to_the_channel() {
    let mut state = active_state();
    handle_message(&mut state, &message("m1", "alice", "hello")).unwrap();
    let calls = reply_to_message(&mut state, &s("g"), &s("c"), Ok(s("Indeed.")));
    assert_eq!(calls.len(), 1);
    match &calls[0] {
        OutboundCall::ChannelMessage { channel_id, content } => {
            assert_eq!(channel_id, "c");
            assert_eq!(content, "Indeed.");
        }
        _ => panic!("expected a channel message"),
    }
    assert_eq!(log_of(&state).len(), 2);
}

#[test]
fn completion_for_unknown_community_records_nothing() {
    let mut state = empty_state();
    let text = record_completion(&mut state, &s("g"), &s("c"), Ok(s("hi")));
    assert_eq!(text, "hi");
    assert!(state.guilds.is_empty());
}

#[test]
fn request_uses_default_model_when_unset() {
    let mut state = active_state();
    let i = find_guild(&state, "g").unwrap();
    state.guilds[i].llm = String::new();
    let req = create_chat_completion_for_guild_channel(&state, &s("g"), &s("c")).unwrap();
    assert_eq!(req.model, "gpt-3.5-turbo");
    switch_model(&mut state, &s("g"), &s("c"), &s("gpt-4"));
    let req = create_chat_completion_for_guild_channel(&state, &s("g"), &s("c")).unwrap();
    assert_eq!(req.model, "gpt-4");
    assert!(create_chat_completion_for_guild_channel(&state, &s("g"), &s("x")).is_none());
    assert!(create_chat_completion_for_guild_channel(&state, &s("h"), &s("c")).is_none());
}

#[test]
fn prompt_roles_follow_origin() {
    let log = vec![
        Utterance { id: Some(s("1")), username: s("Jeeves"), content: s("impostor") },
        Utterance { id: None, username: s("Jeeves"), content: s("reply") },
        Utterance { id: None, username: s("system"), content: s("odd") },
    ];
    let req = create_chat_completion(&s("Be brief."), &log, &s("local"));
    assert_eq!(req.model, "local");
    let got: Vec<(&str, &str)> =
        req.messages.iter().map(|p| (p.role.as_str(), p.content.as_str())).collect();
    assert_eq!(
        got,
        vec![
            ("system", "[system]: Be brief."),
            ("user", "[Jeeves]: impostor"),
            ("assistant", "[Jeeves]: reply"),
            ("user", "[system]: odd"),
        ]
    );
}
