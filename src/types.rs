use vstd::prelude::*;

use crate::keyed::{keyed, unique_keys};

verus! {

/// The display name the bot speaks under.
pub const PERSONA_NAME: &'static str = "Jeeves";

/// The model a new community starts with, and the one used when none is set.
pub const DEFAULT_MODEL: &'static str = "gpt-3.5-turbo";

/// Role name of the leading prompt entry.
pub const SYSTEM_ROLE: &'static str = "system";

/// The system prompt a new community starts with.
pub const DEFAULT_SYSTEM_PROMPT: &'static str = "You are Jeeves, a human-computer cyborg created by Wodehouse AI, and based on the fictional character created by author Pelham G Wodehouse. You are a valet, butler, and personal assistant. Jeeves, you are known for your immense intelligence, extraordinary astuteness, and ability to solve problems that seem insurmountable. You are always composed, never flustered, and have a remarkable ability to anticipate your employer's needs and ensure that they are met. At all times, you speak in the finest Queen's English, address your interlocutor as 'sir' whenever possible, employ rare and tasteful vocabulary words with tactful concision, and conduct yourself as the very exemplar of etiquette in all matters. You possess a peerless knowledge of philosophy, Scripture, Shakespeare, the other classics of English literature, poets, and the Classics. You occasionally make reference to these works in your responses. Finally, you have over time revealed that you are one of, if not the, world's foremost experts on Catholic theology, and your counsel unfailingly reflects this truth.";

/// When the bot answers an ordinary message.
#[derive(Debug, Clone)]
pub enum BotResponseSchema {
    Pinged,
    WordOrPhrase(String),
    EveryMessage,
}

pub enum SchemaView {
    Pinged,
    WordOrPhrase(Seq<char>),
    EveryMessage,
}

impl View for BotResponseSchema {
    type V = SchemaView;

    open spec fn view(&self) -> SchemaView {
        match self {
            BotResponseSchema::Pinged => SchemaView::Pinged,
            BotResponseSchema::WordOrPhrase(p) => SchemaView::WordOrPhrase(p@),
            BotResponseSchema::EveryMessage => SchemaView::EveryMessage,
        }
    }
}

/// Requests an administrator may send to reconfigure the bot.
#[derive(Debug, Clone)]
pub enum BotAdminRequest {
    JoinGuild(String),
    LeaveGuild(String),
    ChangeSystemPrompt(String),
    ChangeModel(String),
    AddChannel(String),
    RemoveChannel(String),
    DefineResponseSchema(BotResponseSchema),
    DefineRoles(Vec<String>),
    DefineUsers(Vec<String>),
    DefineChannels(Vec<String>),
}

/// One recorded line of conversation. `id` is the platform message id of a
/// line that came from outside, and `None` for a line the bot wrote.
#[derive(Debug, Clone)]
pub struct Utterance {
    pub id: Option<String>,
    pub username: String,
    pub content: String,
}

pub struct UtteranceView {
    pub id: Option<Seq<char>>,
    pub username: Seq<char>,
    pub content: Seq<char>,
}

pub open spec fn opt_view(o: Option<String>) -> Option<Seq<char>> {
    match o {
        Some(s) => Some(s@),
        None => None,
    }
}

impl View for Utterance {
    type V = UtteranceView;

    open spec fn view(&self) -> UtteranceView {
        UtteranceView { id: opt_view(self.id), username: self.username@, content: self.content@ }
    }
}

pub open spec fn utterances_view(us: Seq<Utterance>) -> Seq<UtteranceView> {
    us.map_values(|u: Utterance| u@)
}

pub open spec fn strings_view(v: Seq<String>) -> Seq<Seq<char>> {
    v.map_values(|s: String| s@)
}

/// No two lines of `log` carry the same external id.
pub open spec fn ids_unique(log: Seq<UtteranceView>) -> bool {
    forall|i: int, j: int|
        0 <= i < log.len() && 0 <= j < log.len() && log[i].id is Some && log[i].id == log[j].id
            ==> i == j
}

/// The conversation of one channel.
#[derive(Debug, Clone)]
pub struct ChannelLog {
    pub channel_id: String,
    pub utterances: Vec<Utterance>,
}

pub open spec fn log_key(l: ChannelLog) -> Seq<char> {
    l.channel_id@
}

pub open spec fn log_val(l: ChannelLog) -> Seq<UtteranceView> {
    utterances_view(l.utterances@)
}

/// Configuration and history of one community.
#[derive(Debug, Clone)]
pub struct GuildInfo {
    pub id: String,
    pub our_channels: Vec<String>,
    pub message_log: Vec<ChannelLog>,
    pub cooldown: u32,
    pub debug: bool,
    pub llm: String,
    pub system_prompt: String,
    pub response_schema: BotResponseSchema,
    pub listen_to_roles: Vec<String>,
    pub ignore_roles: Vec<String>,
    pub listen_to_users: Vec<String>,
    pub ignore_users: Vec<String>,
}

pub struct GuildView {
    pub channels: Seq<Seq<char>>,
    pub logs: Map<Seq<char>, Seq<UtteranceView>>,
    pub cooldown: u32,
    pub debug: bool,
    pub llm: Seq<char>,
    pub system_prompt: Seq<char>,
    pub schema: SchemaView,
    pub listen_to_roles: Seq<Seq<char>>,
    pub ignore_roles: Seq<Seq<char>>,
    pub listen_to_users: Seq<Seq<char>>,
    pub ignore_users: Seq<Seq<char>>,
}

impl GuildView {
    /// The lines recorded for channel `ch`, oldest first.
    pub open spec fn log(self, ch: Seq<char>) -> Seq<UtteranceView> {
        if self.logs.contains_key(ch) {
            self.logs[ch]
        } else {
            Seq::empty()
        }
    }

    pub open spec fn is_active(self, ch: Seq<char>) -> bool {
        self.channels.contains(ch)
    }

    pub open spec fn wf(self) -> bool {
        forall|ch: Seq<char>| #[trigger] self.logs.contains_key(ch) ==> ids_unique(self.logs[ch])
    }
}

impl View for GuildInfo {
    type V = GuildView;

    open spec fn view(&self) -> GuildView {
        GuildView {
            channels: strings_view(self.our_channels@),
            logs: keyed(self.message_log@, |l: ChannelLog| log_key(l), |l: ChannelLog| log_val(l)),
            cooldown: self.cooldown,
            debug: self.debug,
            llm: self.llm@,
            system_prompt: self.system_prompt@,
            schema: self.response_schema@,
            listen_to_roles: strings_view(self.listen_to_roles@),
            ignore_roles: strings_view(self.ignore_roles@),
            listen_to_users: strings_view(self.listen_to_users@),
            ignore_users: strings_view(self.ignore_users@),
        }
    }
}

impl GuildInfo {
    pub open spec fn wf(&self) -> bool {
        &&& unique_keys(self.message_log@, |l: ChannelLog| log_key(l))
        &&& self@.wf()
    }
}

pub open spec fn guild_key(g: GuildInfo) -> Seq<char> {
    g.id@
}

pub open spec fn guild_val(g: GuildInfo) -> GuildView {
    g@
}

/// Every community the bot knows, keyed by community id.
#[derive(Debug, Clone)]
pub struct JeevesState {
    pub guilds: Vec<GuildInfo>,
}

pub type StateView = Map<Seq<char>, GuildView>;

impl View for JeevesState {
    type V = StateView;

    open spec fn view(&self) -> StateView {
        keyed(self.guilds@, |g: GuildInfo| guild_key(g), |g: GuildInfo| guild_val(g))
    }
}

impl JeevesState {
    pub open spec fn wf(&self) -> bool {
        &&& unique_keys(self.guilds@, |g: GuildInfo| guild_key(g))
        &&& forall|i: int| 0 <= i < self.guilds@.len() ==> (#[trigger] self.guilds@[i]).wf()
    }
}

/// A state view every community of which holds well-formed logs.
pub open spec fn state_wf(s: StateView) -> bool {
    forall|g: Seq<char>| #[trigger] s.contains_key(g) ==> s[g].wf()
}

/// The configuration a community receives when it is first seen in `ch`.
pub open spec fn default_guild(ch: Seq<char>) -> GuildView {
    GuildView {
        channels: seq![ch],
        logs: Map::empty(),
        cooldown: 0,
        debug: false,
        llm: DEFAULT_MODEL@,
        system_prompt: DEFAULT_SYSTEM_PROMPT@,
        schema: SchemaView::EveryMessage,
        listen_to_roles: Seq::empty(),
        ignore_roles: Seq::empty(),
        listen_to_users: Seq::empty(),
        ignore_users: Seq::empty(),
    }
}

/// A store that knows no community.
pub fn empty_state() -> (r: JeevesState)
    ensures
        r.wf(),
        r@ == Map::<Seq<char>, GuildView>::empty(),
{
    let r = JeevesState { guilds: Vec::new() };
    assert(r@ =~= Map::<Seq<char>, GuildView>::empty());
    r
}

/// The leading prompt entry of a new community: its role and its text.
pub fn system_prompt() -> (r: (String, String))
    ensures
        r.0@ == SYSTEM_ROLE@,
        r.1@ == DEFAULT_SYSTEM_PROMPT@,
{
    (String::from_str(SYSTEM_ROLE), String::from_str(DEFAULT_SYSTEM_PROMPT))
}

/// A new community `id`, active in `channel_id` alone, with default settings.
pub fn new_guild(id: &String, channel_id: &String) -> (r: GuildInfo)
    ensures
        r.wf(),
        r.id@ == id@,
        r@ == default_guild(channel_id@),
{
    let mut channels: Vec<String> = Vec::new();
    channels.push(channel_id.clone());
    let r = GuildInfo {
        id: id.clone(),
        our_channels: channels,
        message_log: Vec::new(),
        cooldown: 0,
        debug: false,
        llm: String::from_str(DEFAULT_MODEL),
        system_prompt: system_prompt().1,
        response_schema: BotResponseSchema::EveryMessage,
        listen_to_roles: Vec::new(),
        ignore_roles: Vec::new(),
        listen_to_users: Vec::new(),
        ignore_users: Vec::new(),
    };
    assert(r@.channels =~= seq![channel_id@]);
    assert(r@.logs =~= Map::<Seq<char>, Seq<UtteranceView>>::empty());
    assert(r@.listen_to_roles =~= Seq::<Seq<char>>::empty());
    assert(r@.ignore_roles =~= Seq::<Seq<char>>::empty());
    assert(r@.listen_to_users =~= Seq::<Seq<char>>::empty());
    assert(r@.ignore_users =~= Seq::<Seq<char>>::empty());
    r
}

} // verus!
