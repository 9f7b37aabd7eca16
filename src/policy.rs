use vstd::prelude::*;

use crate::store::{find_guild, log_has_id, put_guild, set_log};
use crate::text::{
    contains_string, contains_sub, contains_text, has_prefix, lower_of, lowercase, same_text,
    starts_with_text,
};
use crate::types::{
    strings_view, utterances_view, BotResponseSchema, GuildView, JeevesState, SchemaView,
    StateView, Utterance, UtteranceView, DEFAULT_MODEL, PERSONA_NAME, SYSTEM_ROLE,
};

verus! {

/// The persona name as it reads after lowercasing.
pub const PERSONA_FOLDED: &'static str = "jeeves";

/// The tag a completion may open with when the model echoes its own role.
pub const PERSONA_TAG: &'static str = "[Jeeves]:";

pub const ASSISTANT_ROLE: &'static str = "assistant";

pub const USER_ROLE: &'static str = "user";

pub const COMPLETION_ERROR_TEXT: &'static str = "[ERROR: fetching completion failed: ";

/// An ordinary message posted in a channel.
#[derive(Debug, Clone)]
pub struct IncomingMessage {
    pub id: String,
    pub guild_id: Option<String>,
    pub channel_id: String,
    pub author: Option<String>,
    pub content: Option<String>,
    pub mentions: Vec<String>,
}

/// One entry of a prompt.
#[derive(Debug, Clone)]
pub struct PromptMessage {
    pub role: String,
    pub content: String,
}

impl View for PromptMessage {
    type V = (Seq<char>, Seq<char>);

    open spec fn view(&self) -> (Seq<char>, Seq<char>) {
        (self.role@, self.content@)
    }
}

/// What the completion backend is asked for: a model and an ordered prompt.
#[derive(Debug, Clone)]
pub struct ChatRequest {
    pub model: String,
    pub messages: Vec<PromptMessage>,
}

impl View for ChatRequest {
    type V = (Seq<char>, Seq<(Seq<char>, Seq<char>)>);

    open spec fn view(&self) -> (Seq<char>, Seq<(Seq<char>, Seq<char>)>) {
        (self.model@, self.messages@.map_values(|p: PromptMessage| p@))
    }
}

/// The completion backend gave no usable answer.
#[derive(Debug, Clone)]
pub struct CompletionFailed {
    pub message: String,
}

/// A message whose lowercased text is `folded` names the persona, or it
/// mentions the persona.
pub open spec fn mentions_persona(folded: Seq<char>, mentions: Seq<Seq<char>>) -> bool {
    contains_sub(folded, PERSONA_FOLDED@) || mentions.contains(PERSONA_NAME@)
}

/// A message with text `content` and mentions `mentions` calls for an answer
/// under `schema`.
pub open spec fn triggered(schema: SchemaView, content: Seq<char>, mentions: Seq<Seq<char>>) -> bool {
    match schema {
        SchemaView::Pinged => mentions_persona(lower_of(content), mentions),
        SchemaView::WordOrPhrase(p) => contains_sub(content, p),
        SchemaView::EveryMessage => true,
    }
}

/// Message `m` is taken into the log of its channel.
pub open spec fn accepts(s: StateView, m: IncomingMessage) -> bool {
    match (m.guild_id, m.author, m.content) {
        (Some(g), Some(a), Some(c)) => {
            &&& s.contains_key(g@)
            &&& s[g@].is_active(m.channel_id@)
            &&& s[g@].cooldown == 0
            &&& a@ != PERSONA_NAME@
            &&& triggered(s[g@].schema, c@, strings_view(m.mentions@))
            &&& !log_has_id(s[g@], m.channel_id@, m.id@)
        },
        _ => false,
    }
}

/// The line message `m` is recorded as.
pub open spec fn message_line(m: IncomingMessage) -> UtteranceView {
    UtteranceView {
        id: Some(m.id@),
        username: m.author.unwrap()@,
        content: m.content.unwrap()@,
    }
}

/// `s` with line `u` appended to the log of channel `ch` of community `g`,
/// if that community is known.
pub open spec fn append_line(s: StateView, g: Seq<char>, ch: Seq<char>, u: UtteranceView) -> StateView {
    if s.contains_key(g) {
        s.insert(g, set_log(s[g], ch, s[g].log(ch).push(u)))
    } else {
        s
    }
}

/// The store after message `m` is delivered.
pub open spec fn deliver(s: StateView, m: IncomingMessage) -> StateView {
    if accepts(s, m) {
        append_line(s, m.guild_id.unwrap()@, m.channel_id@, message_line(m))
    } else {
        s
    }
}

/// How a prompt entry names its speaker.
pub open spec fn rendered(speaker: Seq<char>, text: Seq<char>) -> Seq<char> {
    "["@ + speaker + "]: "@ + text
}

/// The role a recorded line takes in a prompt.
pub open spec fn role_of(u: UtteranceView) -> Seq<char> {
    if u.id is None && u.username == PERSONA_NAME@ {
        ASSISTANT_ROLE@
    } else {
        USER_ROLE@
    }
}

pub open spec fn prompt_entry(u: UtteranceView) -> (Seq<char>, Seq<char>) {
    (role_of(u), rendered(u.username, u.content))
}

/// The prompt for a conversation: the system prompt, then every line, oldest
/// first.
pub open spec fn prompt_of(system_prompt: Seq<char>, log: Seq<UtteranceView>) -> Seq<(Seq<char>, Seq<char>)> {
    seq![(SYSTEM_ROLE@, rendered(SYSTEM_ROLE@, system_prompt))] + log.map_values(
        |u: UtteranceView| prompt_entry(u),
    )
}

/// The model a community uses.
pub open spec fn model_of(g: GuildView) -> Seq<char> {
    if g.llm.len() == 0 {
        DEFAULT_MODEL@
    } else {
        g.llm
    }
}

/// The request for the conversation of channel `ch` in community `g`.
pub open spec fn request_of(g: GuildView, ch: Seq<char>) -> (Seq<char>, Seq<(Seq<char>, Seq<char>)>) {
    (model_of(g), prompt_of(g.system_prompt, g.log(ch)))
}

/// The text of a completion with a leading echoed persona tag taken off.
pub open spec fn cleaned(raw: Seq<char>) -> Seq<char> {
    if has_prefix(raw, PERSONA_TAG@) {
        raw.subrange(PERSONA_TAG@.len() as int, raw.len() as int)
    } else {
        raw
    }
}

/// The reply that reports a failed completion.
pub open spec fn failure_text(e: Seq<char>) -> Seq<char> {
    COMPLETION_ERROR_TEXT@ + e + "]"@
}

/// The line the bot records for its own reply `text`.
pub open spec fn reply_line(text: Seq<char>) -> UtteranceView {
    UtteranceView { id: None, username: PERSONA_NAME@, content: text }
}

/// Whether lowercased text `folded`, or the mention list, names the persona.
pub fn mentions_persona_folded(folded: &str, mentions: &Vec<String>) -> (r: bool)
    ensures
        r == mentions_persona(folded@, strings_view(mentions@)),
{
    contains_text(folded, PERSONA_FOLDED) || contains_string(mentions, PERSONA_NAME)
}

/// Whether a message with `content` and `mentions` calls for an answer under
/// `schema`.
pub fn is_triggered(schema: &BotResponseSchema, content: &String, mentions: &Vec<String>) -> (r:
    bool)
    ensures
        r == triggered(schema@, content@, strings_view(mentions@)),
{
    match schema {
        BotResponseSchema::Pinged => {
            let folded = lowercase(content.as_str());
            mentions_persona_folded(folded.as_str(), mentions)
        },
        BotResponseSchema::WordOrPhrase(p) => contains_text(content.as_str(), p.as_str()),
        BotResponseSchema::EveryMessage => true,
    }
}

/// A prompt entry for `text` spoken by `speaker`: `[speaker]: text`.
fn render(speaker: &str, text: &str) -> (r: String)
    ensures
        r@ == rendered(speaker@, text@),
{
    let mut r = String::from_str("[");
    r.append(speaker);
    r.append("]: ");
    r.append(text);
    r
}

/// Builds the request for a conversation: `system_prompt` first, then the
/// lines of `log` in order, each with its role and its speaker's name.
pub fn create_chat_completion(system_prompt: &String, log: &Vec<Utterance>, model: &String) -> (r:
    ChatRequest)
    ensures
        r@ == (model@, prompt_of(system_prompt@, utterances_view(log@))),
{
    let mut messages: Vec<PromptMessage> = Vec::new();
    messages.push(
        PromptMessage {
            role: String::from_str(SYSTEM_ROLE),
            content: render(SYSTEM_ROLE, system_prompt.as_str()),
        },
    );
    let ghost lv = utterances_view(log@);
    let mut i: usize = 0;
    while i < log.len()
        invariant
            i <= log@.len(),
            lv == utterances_view(log@),
            messages@.map_values(|p: PromptMessage| p@) == prompt_of(
                system_prompt@,
                lv.subrange(0, i as int),
            ),
        decreases log.len() - i,
    {
        let u = &log[i];
        let role = if u.id.is_none() && same_text(u.username.as_str(), PERSONA_NAME) {
            String::from_str(ASSISTANT_ROLE)
        } else {
            String::from_str(USER_ROLE)
        };
        let ghost before = messages@;
        messages.push(
            PromptMessage { role, content: render(u.username.as_str(), u.content.as_str()) },
        );
        assert(lv.subrange(0, i + 1) =~= lv.subrange(0, i as int).push(lv[i as int]));
        assert(messages@.map_values(|p: PromptMessage| p@) =~= before.map_values(
            |p: PromptMessage| p@,
        ).push(prompt_entry(lv[i as int])));
        assert(prompt_of(system_prompt@, lv.subrange(0, i + 1)) =~= prompt_of(
            system_prompt@,
            lv.subrange(0, i as int),
        ).push(prompt_entry(lv[i as int])));
        i += 1;
    }
    assert(lv.subrange(0, i as int) =~= lv);
    ChatRequest { model: model.clone(), messages }
}

/// Builds the request for channel `channel_id` of community `guild_id`:
/// `None` if the community is unknown or does not answer in that channel.
pub fn create_chat_completion_for_guild_channel(
    state: &JeevesState,
    guild_id: &String,
    channel_id: &String,
) -> (r: Option<ChatRequest>)
    requires
        state.wf(),
    ensures
        r is Some <==> state@.contains_key(guild_id@) && state@[guild_id@].is_active(channel_id@),
        r matches Some(q) ==> q@ == request_of(state@[guild_id@], channel_id@),
{
    let i = find_guild(state, guild_id.as_str())?;
    let g = &state.guilds[i];
    if !contains_string(&g.our_channels, channel_id.as_str()) {
        return None;
    }
    let model = if g.llm.unicode_len() == 0 {
        String::from_str(DEFAULT_MODEL)
    } else {
        g.llm.clone()
    };
    let empty: Vec<Utterance> = Vec::new();
    let log = match g.find_log(channel_id.as_str()) {
        Some(j) => &g.message_log[j].utterances,
        None => &empty,
    };
    assert(utterances_view(empty@) =~= Seq::<UtteranceView>::empty());
    Some(create_chat_completion(&g.system_prompt, log, &model))
}

/// Takes an ordinary message in. If the message calls for an answer, it is
/// appended to its channel's log and the request for the completion is
/// returned; otherwise the store is left as it is and `None` comes back.
pub fn handle_message(state: &mut JeevesState, msg: &IncomingMessage) -> (r: Option<ChatRequest>)
    requires
        old(state).wf(),
    ensures
        final(state).wf(),
        final(state)@ == deliver(old(state)@, *msg),
        r is Some <==> accepts(old(state)@, *msg),
        r matches Some(q) ==> q@ == request_of(
            final(state)@[msg.guild_id.unwrap()@],
            msg.channel_id@,
        ),
{
    let Some(gid) = &msg.guild_id else { return None };
    let Some(author) = &msg.author else { return None };
    if same_text(author.as_str(), PERSONA_NAME) {
        return None;
    }
    let Some(content) = &msg.content else { return None };
    let Some(i) = find_guild(state, gid.as_str()) else { return None };
    let g = &state.guilds[i];
    if !contains_string(&g.our_channels, msg.channel_id.as_str()) {
        return None;
    }
    if g.cooldown > 0 {
        return None;
    }
    if !is_triggered(&g.response_schema, content, &msg.mentions) {
        return None;
    }
    if g.has_message(msg.channel_id.as_str(), msg.id.as_str()) {
        return None;
    }
    let u = Utterance { id: Some(msg.id.clone()), username: author.clone(), content: content.clone() };
    let ghost before = *state;
    let mut g = state.guilds.remove(i);
    g.push_utterance(&msg.channel_id, u);
    put_guild(state, i, g, Ghost(before));
    create_chat_completion_for_guild_channel(state, gid, &msg.channel_id)
}

/// A completion with the persona tag taken off its start, if it opens with one.
pub fn clean_completion(raw: &str) -> (r: String)
    ensures
        r@ == cleaned(raw@),
{
    if starts_with_text(raw, PERSONA_TAG) {
        let tag_len = PERSONA_TAG.unicode_len();
        let len = raw.unicode_len();
        String::from_str(raw.substring_char(tag_len, len))
    } else {
        String::from_str(raw)
    }
}

/// Records the outcome of a completion for channel `channel_id` of community
/// `guild_id`, and returns the text to post. A completion is cleaned, appended
/// to the log as the bot's own line, and posted; a failure leaves the store
/// as it is and is reported.
pub fn record_completion(
    state: &mut JeevesState,
    guild_id: &String,
    channel_id: &String,
    outcome: Result<String, CompletionFailed>,
) -> (r: String)
    requires
        old(state).wf(),
    ensures
        final(state).wf(),
        match outcome {
            Ok(raw) => final(state)@ == append_line(
                old(state)@,
                guild_id@,
                channel_id@,
                reply_line(cleaned(raw@)),
            ) && r@ == cleaned(raw@),
            Err(e) => final(state)@ == old(state)@ && r@ == failure_text(e.message@),
        },
{
    match outcome {
        Err(e) => {
            let mut r = String::from_str(COMPLETION_ERROR_TEXT);
            r.append(e.message.as_str());
            r.append("]");
            r
        },
        Ok(raw) => {
            let text = clean_completion(raw.as_str());
            if let Some(i) = find_guild(state, guild_id.as_str()) {
                let u = Utterance {
                    id: None,
                    username: String::from_str(PERSONA_NAME),
                    content: text.clone(),
                };
                let ghost before = *state;
                let mut g = state.guilds.remove(i);
                g.push_utterance(channel_id, u);
                put_guild(state, i, g, Ghost(before));
            }
            text
        },
    }
}

/// The log `log` holds exactly one line with external id `id`.
pub open spec fn exactly_one(log: Seq<UtteranceView>, id: Seq<char>) -> bool {
    exists|k: int|
        0 <= k < log.len() && (#[trigger] log[k]).id == Some(id) && forall|j: int|
            0 <= j < log.len() && (#[trigger] log[j]).id == Some(id) ==> j == k
}

/// Delivering the same message twice records it once: the second delivery
/// is not taken in and changes nothing, and once a delivery has taken the
/// message in, its channel's log holds exactly one line with its id.
pub proof fn lemma_redelivery_is_ignored(s: StateView, m: IncomingMessage)
    ensures
        !accepts(deliver(s, m), m),
        deliver(deliver(s, m), m) == deliver(s, m),
        accepts(s, m) ==> exactly_one(
            deliver(s, m)[m.guild_id.unwrap()@].log(m.channel_id@),
            m.id@,
        ),
{
    if accepts(s, m) {
        let g = m.guild_id.unwrap()@;
        let ch = m.channel_id@;
        let old_log = s[g].log(ch);
        let t = deliver(s, m);
        let log = t[g].log(ch);
        assert(log == old_log.push(message_line(m)));
        let k = old_log.len() as int;
        assert(log[k].id == Some(m.id@));
        assert(log_has_id(t[g], ch, m.id@));
        assert forall|j: int| 0 <= j < log.len() && (#[trigger] log[j]).id == Some(m.id@) implies j
            == k by {
            if j < k {
                assert(old_log[j] == log[j]);
            }
        }
    }
}

/// A message posted under the persona's own name is never taken in, so it
/// neither changes the store nor asks for a completion.
pub proof fn lemma_own_messages_ignored(s: StateView, m: IncomingMessage)
    requires
        m.author matches Some(a) && a@ == PERSONA_NAME@,
    ensures
        !accepts(s, m),
        deliver(s, m) == s,
{
}

/// While a community cools down, none of its messages is taken in, whatever
/// its text.
pub proof fn lemma_cooldown_silences(s: StateView, m: IncomingMessage)
    requires
        m.guild_id matches Some(g) && s.contains_key(g@) && s[g@].cooldown > 0,
    ensures
        !accepts(s, m),
        deliver(s, m) == s,
{
}

} // verus!
