use jeeves::commands::{
    CLEARED_TEXT, HELP_TEXT, JOINED_TEXT, LEFT_TEXT, NO_STATE_TEXT, VALID_MODELS_TEXT,
};
use jeeves::store::find_guild;
use jeeves::{
    clear_conversation, create_guild_if_not_exists, empty_state, handle_interaction,
    leave_channel, parse_command, registered_commands, respond_with_help, run_command,
    save_channel, send_status, switch_model, system_prompt, Command, Interaction, JeevesState,
    OutboundCall, Utterance,
};

fn s(x: &str) -> String {
    x.to_string()
}

fn guild<'a>(state: &'a JeevesState, id: &str) -> &'a jeeves::GuildInfo {
    let i = find_guild(state, id).expect("community exists");
    &state.guilds[i]
}

#[test]
fn empty_state_knows_no_community() {
    let state = empty_state();
    assert!(state.guilds.is_empty());
}

#[test]
fn system_prompt_has_system_role() {
    let (role, text) = system_prompt();
    assert_eq!(role, "system");
    assert!(text.starts_with("You are Jeeves, a human-computer cyborg"));
    assert!(text.ends_with("your counsel unfailingly reflects this truth."));
}

#[test]
fn help_lists_every_command() {
    let text = respond_with_help();
    assert_eq!(text, HELP_TEXT);
    for name in ["/help", "/clear", "/init", "/leave", "/model", "/status"] {
        assert!(text.contains(name));
    }
}

#[test]
fn lazy_creation_seeds_defaults() {
    let mut state = empty_state();
    create_guild_if_not_exists(&mut state, &Some(s("g")), &s("c"));
    let g = guild(&state, "g");
    assert_eq!(g.id, "g");
    assert_eq!(g.our_channels, vec![s("c")]);
    assert!(g.message_log.is_empty());
    assert_eq!(g.cooldown, 0);
    assert!(!g.debug);
    assert_eq!(g.llm, "gpt-3.5-turbo");
    assert_eq!(g.system_prompt, system_prompt().1);
    assert!(matches!(g.response_schema, jeeves::BotResponseSchema::EveryMessage));
}

#[test]
fn lazy_creation_happens_once() {
    let mut state = empty_state();
    create_guild_if_not_exists(&mut state, &Some(s("g")), &s("c"));
    create_guild_if_not_exists(&mut state, &Some(s("g")), &s("d"));
    create_guild_if_not_exists(&mut state, &None, &s("e"));
    assert_eq!(state.guilds.len(), 1);
    assert_eq!(guild(&state, "g").our_channels, vec![s("c")]);
}

#[test]
fn init_creates_unknown_community() {
    let mut state = empty_state();
    let reply = save_channel(&mut state, &s("g"), &s("c"));
    assert_eq!(reply, JOINED_TEXT);
    assert!(guild(&state, "g").our_channels.contains(&s("c")));
}

#[test]
fn init_adds_channel_once() {
    let mut state = empty_state();
    save_channel(&mut state, &s("g"), &s("c"));
    save_channel(&mut state, &s("g"), &s("d"));
    save_channel(&mut state, &s("g"), &s("d"));
    assert_eq!(guild(&state, "g").our_channels, vec![s("c"), s("d")]);
}

#[test]
fn leave_removes_channel() {
    let mut state = empty_state();
    save_channel(&mut state, &s("g"), &s("c"));
    save_channel(&mut state, &s("g"), &s("d"));
    let reply = leave_channel(&mut state, &s("g"), &s("c"));
    assert_eq!(reply, LEFT_TEXT);
    assert_eq!(guild(&state, "g").our_channels, vec![s("d")]);
}

#[test]
fn leave_on_unknown_community_creates_it_inactive() {
    let mut state = empty_state();
    leave_channel(&mut state, &s("g"), &s("c"));
    assert!(guild(&state, "g").our_channels.is_empty());
}

#[test]
fn clear_empties_the_channel_log() {
    let mut state = empty_state();
    save_channel(&mut state, &s("g"), &s("c"));
    let i = find_guild(&state, "g").unwrap();
    state.guilds[i].push_utterance(
        &s("c"),
        Utterance { id: Some(s("m1")), username: s("alice"), content: s("hello") },
    );
    assert_eq!(state.guilds[i].log_len("c"), 1);
    let reply = clear_conversation(&mut state, &s("g"), &s("c"));
    assert_eq!(reply, CLEARED_TEXT);
    assert_eq!(guild(&state, "g").log_len("c"), 0);
}

#[test]
fn clear_on_unknown_community_creates_it() {
    let mut state = empty_state();
    clear_conversation(&mut state, &s("g"), &s("c"));
    let g = guild(&state, "g");
    assert_eq!(g.log_len("c"), 0);
    assert_eq!(g.message_log.len(), 1);
}

#[test]
fn model_with_invalid_value_is_rejected() {
    let mut state = empty_state();
    save_channel(&mut state, &s("g"), &s("c"));
    let reply = switch_model(&mut state, &s("g"), &s("c"), &s("gpt-5"));
    assert_eq!(
        reply,
        "Invalid model: \"gpt-5\". Valid models are: [\"local\", \"gpt-3.5-turbo\", \"gpt-4\", \"gpt-4-1106-preview\", \"gpt-4-turbo-preview\"]"
    );
    assert!(reply.ends_with(VALID_MODELS_TEXT));
    assert_eq!(guild(&state, "g").llm, "gpt-3.5-turbo");
}

#[test]
fn model_with_invalid_value_creates_nothing() {
    let mut state = empty_state();
    switch_model(&mut state, &s("g"), &s("c"), &s(""));
    assert!(state.guilds.is_empty());
}

#[test]
fn model_with_valid_value_changes_model() {
    let mut state = empty_state();
    save_channel(&mut state, &s("g"), &s("c"));
    let reply = switch_model(&mut state, &s("g"), &s("c"), &s("gpt-4"));
    assert_eq!(reply, "LLM has been changed to gpt-4");
    assert_eq!(guild(&state, "g").llm, "gpt-4");
    for m in ["local", "gpt-3.5-turbo", "gpt-4-1106-preview", "gpt-4-turbo-preview"] {
        let reply = switch_model(&mut state, &s("g"), &s("c"), &s(m));
        assert_eq!(reply, format!("LLM has been changed to {}", m));
        assert_eq!(guild(&state, "g").llm, m);
    }
}

#[test]
fn status_of_unknown_community_is_an_error() {
    let state = empty_state();
    assert_eq!(send_status(&state, &s("g"), &s("c")), NO_STATE_TEXT);
}

#[test]
fn status_reports_channels_count_and_model() {
    let mut state = empty_state();
    save_channel(&mut state, &s("g"), &s("c1"));
    save_channel(&mut state, &s("g"), &s("c2"));
    let i = find_guild(&state, "g").unwrap();
    for k in 0..12 {
        state.guilds[i].push_utterance(
            &s("c1"),
            Utterance { id: Some(format!("m{}", k)), username: s("bob"), content: s("hi") },
        );
    }
    let text = send_status(&state, &s("g"), &s("c1"));
    assert_eq!(
        text,
        "\n**Guild**: g\n**Channels**: #c1, #c2\n**Message Count (this channel)**: 12\n**Model**: gpt-3.5-turbo"
    );
    let other = send_status(&state, &s("g"), &s("c3"));
    assert!(other.contains("**Message Count (this channel)**: 0\n"));
}

#[test]
fn status_with_no_active_channel() {
    let mut state = empty_state();
    leave_channel(&mut state, &s("g"), &s("c"));
    let text = send_status(&state, &s("g"), &s("c"));
    assert!(text.contains("\n**Channels**: #\n"));
}

#[test]
fn commands_decode_by_name() {
    assert!(matches!(parse_command("help", None), Some(Command::Help)));
    assert!(matches!(parse_command("clear", None), Some(Command::Clear)));
    assert!(matches!(parse_command("init", None), Some(Command::Init)));
    assert!(matches!(parse_command("leave", None), Some(Command::Leave)));
    assert!(matches!(parse_command("status", None), Some(Command::Status)));
    match parse_command("model", Some(s("gpt-4"))) {
        Some(Command::Model(Some(m))) => assert_eq!(m, "gpt-4"),
        _ => panic!("model not decoded"),
    }
    assert!(parse_command("halp", None).is_none());
    assert!(parse_command("", None).is_none());
}

#[test]
fn model_without_value_is_silent() {
    let mut state = empty_state();
    let reply = run_command(&mut state, Command::Model(None), &s("g"), &s("c"));
    assert!(reply.is_none());
    assert!(state.guilds.is_empty());
}

#[test]
fn status_command_does_not_create() {
    let mut state = empty_state();
    let reply = run_command(&mut state, Command::Status, &s("g"), &s("c"));
    assert_eq!(reply.unwrap(), NO_STATE_TEXT);
    assert!(state.guilds.is_empty());
}

fn interaction(command: Option<&str>, option: Option<&str>) -> Interaction {
    Interaction {
        id: s("i1"),
        token: s("tok"),
        channel_id: Some(s("c")),
        guild_id: Some(s("g")),
        command: command.map(s),
        option: option.map(s),
    }
}

#[test]
fn interaction_init_answers_through_the_interaction() {
    let mut state = empty_state();
    let calls = handle_interaction(&mut state, interaction(Some("init"), None));
    assert_eq!(calls.len(), 1);
    match &calls[0] {
        OutboundCall::InteractionResponse {
            interaction_id,
            interaction_token,
            interaction_type,
            content,
        } => {
            assert_eq!(interaction_id, "i1");
            assert_eq!(interaction_token, "tok");
            assert_eq!(*interaction_type, 4);
            assert_eq!(content, JOINED_TEXT);
        }
        _ => panic!("expected an interaction response"),
    }
    assert!(guild(&state, "g").our_channels.contains(&s("c")));
}

#[test]
fn interaction_with_unknown_command_is_ignored() {
    let mut state = empty_state();
    let calls = handle_interaction(&mut state, interaction(Some("dance"), None));
    assert!(calls.is_empty());
    assert!(state.guilds.is_empty());
}

#[test]
fn interaction_without_command_or_place_is_ignored() {
    let mut state = empty_state();
    assert!(handle_interaction(&mut state, interaction(None, None)).is_empty());
    let mut it = interaction(Some("init"), None);
    it.guild_id = None;
    assert!(handle_interaction(&mut state, it).is_empty());
    let mut it = interaction(Some("init"), None);
    it.channel_id = None;
    assert!(handle_interaction(&mut state, it).is_empty());
    assert!(state.guilds.is_empty());
}

#[test]
fn interaction_model_rejection_lists_choices() {
    let mut state = empty_state();
    let calls = handle_interaction(&mut state, interaction(Some("model"), Some("llama")));
    assert_eq!(calls.len(), 1);
    match &calls[0] {
        OutboundCall::InteractionResponse { content, .. } => {
            let text = content.clone();
            assert!(text.starts_with("Invalid model: \"llama\""));
            assert!(text.contains("\"gpt-4-turbo-preview\""));
        }
        _ => panic!("expected an interaction response"),
    }
    assert!(state.guilds.is_empty());
}

#[test]
fn registered_commands_in_order() {
    let defs = registered_commands();
    let names: Vec<&str> = defs.iter().map(|d| d.name.as_str()).collect();
    assert_eq!(names, vec!["help", "clear", "init", "leave", "status", "model"]);
    assert_eq!(defs[0].description, "Show help");
    for d in &defs[..5] {
        assert!(d.option.is_none());
    }
    let (n, desc) = defs[5].option.clone().unwrap();
    assert_eq!(n, "model");
    assert_eq!(desc, "The model to use");
}
