use vstd::prelude::*;
use vstd::utf8::{encode_utf8, encode_utf8_decode_utf8};

use crate::commands::{command_effect, command_of, command_reply, parse_command, run_command};
use crate::discord::{call_carries, chunks_of, delivers, send_message_to_discord, OutboundCall, CHUNK_LIMIT};
use crate::policy::{append_line, cleaned, failure_text, record_completion, reply_line, CompletionFailed};
use crate::types::{JeevesState, StateView};

verus! {

/// An administrative command invoked on the chat platform.
#[derive(Debug, Clone)]
pub struct Interaction {
    /// Id of the interaction, which its answers address.
    pub id: String,
    /// One-time token that authorises the answers.
    pub token: String,
    pub channel_id: Option<String>,
    pub guild_id: Option<String>,
    /// Name of the command; `None` when the interaction carries no command.
    pub command: Option<String>,
    /// Value of the command's parameter, if one was given.
    pub option: Option<String>,
}

/// The command interaction `it` runs, with its community and channel, if it
/// names all three.
pub open spec fn interaction_command(it: Interaction) -> Option<(crate::commands::Command, Seq<char>, Seq<char>)> {
    match (it.command, it.channel_id, it.guild_id) {
        (Some(name), Some(ch), Some(g)) => match command_of(name@, it.option) {
            Some(cmd) => Some((cmd, g@, ch@)),
            None => None,
        },
        _ => None,
    }
}

/// The text of the reply to a completion outcome.
pub open spec fn completion_text(outcome: Result<String, CompletionFailed>) -> Seq<char> {
    match outcome {
        Ok(raw) => cleaned(raw@),
        Err(e) => failure_text(e.message@),
    }
}

/// The store after a completion outcome is recorded.
pub open spec fn completion_effect(
    s: StateView,
    gid: Seq<char>,
    ch: Seq<char>,
    outcome: Result<String, CompletionFailed>,
) -> StateView {
    match outcome {
        Ok(raw) => append_line(s, gid, ch, reply_line(cleaned(raw@))),
        Err(_) => s,
    }
}

/// Handles an interaction: runs the command it names and returns the calls
/// that answer it. An interaction without a command, a channel or a
/// community, or with an unknown command, is ignored.
pub fn handle_interaction(state: &mut JeevesState, it: Interaction) -> (r: Vec<OutboundCall>)
    requires
        old(state).wf(),
    ensures
        final(state).wf(),
        match interaction_command(it) {
            Some((cmd, g, ch)) => {
                &&& final(state)@ == command_effect(old(state)@, cmd, g, ch)
                &&& match command_reply(old(state)@, cmd, g, ch) {
                    Some(t) => delivers(r@, t, it.id@, Some(it.token@)),
                    None => r@.len() == 0,
                }
            },
            None => final(state)@ == old(state)@ && r@.len() == 0,
        },
{
    let Interaction { id, token, channel_id, guild_id, command, option } = it;
    let Some(name) = command else { return Vec::new() };
    let Some(ch) = channel_id else { return Vec::new() };
    let Some(gid) = guild_id else { return Vec::new() };
    let Some(cmd) = parse_command(name.as_str(), option) else { return Vec::new() };
    match run_command(state, cmd, &gid, &ch) {
        Some(text) => send_message_to_discord(&text, &id, &Some(token)),
        None => Vec::new(),
    }
}

/// Records the outcome of a completion for channel `channel_id` of community
/// `guild_id` and returns the calls that post the reply, or the error
/// report, in that channel.
pub fn reply_to_message(
    state: &mut JeevesState,
    guild_id: &String,
    channel_id: &String,
    outcome: Result<String, CompletionFailed>,
) -> (r: Vec<OutboundCall>)
    requires
        old(state).wf(),
    ensures
        final(state).wf(),
        final(state)@ == completion_effect(old(state)@, guild_id@, channel_id@, outcome),
        delivers(r@, completion_text(outcome), channel_id@, None),
{
    let text = record_completion(state, guild_id, channel_id, outcome);
    send_message_to_discord(&text, channel_id, &None)
}

/// A failed completion leaves the store exactly as it was, with the user's
/// line still in the log and no line of the bot's added, and what is posted
/// is the error report alone.
pub proof fn lemma_failure_isolation(
    s: StateView,
    gid: Seq<char>,
    ch: Seq<char>,
    e: CompletionFailed,
)
    ensures
        completion_effect(s, gid, ch, Err(e)) == s,
        completion_text(Err(e)) == failure_text(e.message@),
{
}

/// When the error report fits in one piece, the calls that answer a failed
/// completion are a single message in the channel, which carries the whole
/// report.
pub proof fn lemma_failure_reply_single(
    calls: Seq<OutboundCall>,
    ch: Seq<char>,
    e: CompletionFailed,
)
    requires
        encode_utf8(failure_text(e.message@)).len() <= CHUNK_LIMIT,
        delivers(calls, completion_text(Err(e)), ch, None),
    ensures
        calls.len() == 1,
        match calls[0] {
            OutboundCall::ChannelMessage { channel_id, content } => channel_id@ == ch && content@
                == failure_text(e.message@),
            _ => false,
        },
{
    let t = failure_text(e.message@);
    assert(chunks_of(encode_utf8(t)) == seq![encode_utf8(t)]);
    assert(call_carries(calls[0], ch, None, encode_utf8(t)));
    if let OutboundCall::ChannelMessage { channel_id, content } = calls[0] {
        encode_utf8_decode_utf8(content@);
        encode_utf8_decode_utf8(t);
    }
}

} // verus!
