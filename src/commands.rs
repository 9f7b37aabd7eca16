use vstd::prelude::*;

use crate::store::{
    add_channel, create_guild_if_not_exists, drop_channel, ensure_guild, find_guild, set_log,
    set_model,
};
use crate::text::{decimal, decimal_text, same_text};
use crate::types::{default_guild, opt_view, GuildView, JeevesState, StateView};

verus! {

pub const HELP_TEXT: &'static str = "Greetings, sir. I am Jeeves, your most humble assistant.\nIn order to utilize my features, you may avail your esteemed self of one of the following commands.\n\n`/help`: Show this help message\n`/clear`: Make Jeeves forget the conversation thus far\n`/init`: Tell Jeeves to start responding to messages in this channel\n`/leave`: Tell Jeeves to stop responding to messages in this channel\n`/model`: Change the language model Jeeves is using (`gpt-4`, `gpt-3.5-turbo`)\n`/status`: See what channels Jeeves is in, the size of message logs, model data, etc.\n";

pub const CLEARED_TEXT: &'static str = "Conversation history cleared.";

pub const JOINED_TEXT: &'static str = "Thank you, sir. I shall endeavor to respond to messages in this channel.";

pub const LEFT_TEXT: &'static str = "Thank you, sir. No longer shall I respond to messages in this channel.";

pub const NO_STATE_TEXT: &'static str = "[ERROR: no state found for this guild.]";

pub const MODEL_CHANGED_TEXT: &'static str = "LLM has been changed to ";

pub const INVALID_MODEL_TEXT: &'static str = "Invalid model: \"";

/// The rest of the rejection of a model, listing the valid ones.
pub const VALID_MODELS_TEXT: &'static str = "\". Valid models are: [\"local\", \"gpt-3.5-turbo\", \"gpt-4\", \"gpt-4-1106-preview\", \"gpt-4-turbo-preview\"]";

pub const STATUS_GUILD: &'static str = "\n**Guild**: ";

pub const STATUS_CHANNELS: &'static str = "\n**Channels**: #";

pub const CHANNEL_SEPARATOR: &'static str = ", #";

pub const STATUS_COUNT: &'static str = "\n**Message Count (this channel)**: ";

pub const STATUS_MODEL: &'static str = "\n**Model**: ";

/// The models a community may switch to.
pub open spec fn allowed_model(m: Seq<char>) -> bool {
    m == "local"@ || m == "gpt-3.5-turbo"@ || m == "gpt-4"@ || m == "gpt-4-1106-preview"@ || m
        == "gpt-4-turbo-preview"@
}

/// The rejection of model `m`.
pub open spec fn invalid_model_text(m: Seq<char>) -> Seq<char> {
    INVALID_MODEL_TEXT@ + m + VALID_MODELS_TEXT@
}

/// The channel ids joined by `", #"`.
pub open spec fn join_channels(cs: Seq<Seq<char>>) -> Seq<char>
    decreases cs.len(),
{
    if cs.len() == 0 {
        Seq::empty()
    } else if cs.len() == 1 {
        cs[0]
    } else {
        join_channels(cs.drop_last()) + CHANNEL_SEPARATOR@ + cs.last()
    }
}

/// The status report of community `gid`, seen from channel `ch`.
pub open spec fn status_text(gid: Seq<char>, g: GuildView, ch: Seq<char>) -> Seq<char> {
    STATUS_GUILD@ + gid + STATUS_CHANNELS@ + join_channels(g.channels) + STATUS_COUNT@
        + decimal_text(g.log(ch).len()) + STATUS_MODEL@ + g.llm
}

/// The store after `clear` for channel `ch` of community `gid`.
pub open spec fn clear_effect(s: StateView, gid: Seq<char>, ch: Seq<char>) -> StateView {
    let t = ensure_guild(s, gid, ch);
    t.insert(gid, set_log(t[gid], ch, Seq::empty()))
}

/// The store after `init` for channel `ch` of community `gid`.
pub open spec fn init_effect(s: StateView, gid: Seq<char>, ch: Seq<char>) -> StateView {
    let t = ensure_guild(s, gid, ch);
    t.insert(gid, add_channel(t[gid], ch))
}

/// The store after `leave` for channel `ch` of community `gid`.
pub open spec fn leave_effect(s: StateView, gid: Seq<char>, ch: Seq<char>) -> StateView {
    let t = ensure_guild(s, gid, ch);
    t.insert(gid, drop_channel(t[gid], ch))
}

/// The store after `model m` for channel `ch` of community `gid`.
pub open spec fn model_effect(s: StateView, gid: Seq<char>, ch: Seq<char>, m: Seq<char>) -> StateView {
    if allowed_model(m) {
        let t = ensure_guild(s, gid, ch);
        t.insert(gid, set_model(t[gid], m))
    } else {
        s
    }
}

/// The acknowledgement of `model m`.
pub open spec fn model_reply(m: Seq<char>) -> Seq<char> {
    if allowed_model(m) {
        MODEL_CHANGED_TEXT@ + m
    } else {
        invalid_model_text(m)
    }
}

/// The acknowledgement of `status`.
pub open spec fn status_reply(s: StateView, gid: Seq<char>, ch: Seq<char>) -> Seq<char> {
    if s.contains_key(gid) {
        status_text(gid, s[gid], ch)
    } else {
        NO_STATE_TEXT@
    }
}

/// An administrative command, decoded from its name.
#[derive(Debug, Clone)]
pub enum Command {
    Help,
    Clear,
    Init,
    Leave,
    Model(Option<String>),
    Status,
}

/// `m` is one of the models a community may switch to.
pub fn is_allowed_model(m: &str) -> (r: bool)
    ensures
        r == allowed_model(m@),
{
    same_text(m, "local") || same_text(m, "gpt-3.5-turbo") || same_text(m, "gpt-4") || same_text(
        m,
        "gpt-4-1106-preview",
    ) || same_text(m, "gpt-4-turbo-preview")
}

/// Decodes a command by its name; `option` is the value of its one
/// parameter, if given. Unknown names give `None`.
pub fn parse_command(name: &str, option: Option<String>) -> (r: Option<Command>)
    ensures
        r == command_of(name@, option),
{
    proof {
        reveal_strlit("help");
        reveal_strlit("clear");
        reveal_strlit("init");
        reveal_strlit("leave");
        reveal_strlit("model");
        reveal_strlit("status");
        assert("help"@[0] == 'h' && "clear"@[0] == 'c' && "init"@[0] == 'i');
        assert("leave"@[0] == 'l' && "model"@[0] == 'm' && "status"@[0] == 's');
    }
    if same_text(name, "help") {
        Some(Command::Help)
    } else if same_text(name, "clear") {
        Some(Command::Clear)
    } else if same_text(name, "init") {
        Some(Command::Init)
    } else if same_text(name, "leave") {
        Some(Command::Leave)
    } else if same_text(name, "model") {
        Some(Command::Model(option))
    } else if same_text(name, "status") {
        Some(Command::Status)
    } else {
        None
    }
}

/// The help text listing every command.
pub fn respond_with_help() -> (r: String)
    ensures
        r@ == HELP_TEXT@,
{
    String::from_str(HELP_TEXT)
}

/// Empties the log of channel `channel_id`, creating the community first if
/// it is unknown.
pub fn clear_conversation(state: &mut JeevesState, guild_id: &String, channel_id: &String) -> (r:
    String)
    requires
        old(state).wf(),
    ensures
        final(state).wf(),
        final(state)@ == clear_effect(old(state)@, guild_id@, channel_id@),
        r@ == CLEARED_TEXT@,
{
    create_guild_if_not_exists(state, &Some(guild_id.clone()), channel_id);
    let reply = String::from_str(CLEARED_TEXT);
    let Some(i) = find_guild(state, guild_id.as_str()) else { return reply };
    let ghost before = *state;
    let mut g = state.guilds.remove(i);
    let _ = g.take_log(channel_id);
    crate::store::put_guild(state, i, g, Ghost(before));
    reply
}

/// Makes the bot answer in channel `channel_id`, creating the community
/// first if it is unknown.
pub fn save_channel(state: &mut JeevesState, guild_id: &String, channel_id: &String) -> (r: String)
    requires
        old(state).wf(),
    ensures
        final(state).wf(),
        final(state)@ == init_effect(old(state)@, guild_id@, channel_id@),
        r@ == JOINED_TEXT@,
{
    create_guild_if_not_exists(state, &Some(guild_id.clone()), channel_id);
    let reply = String::from_str(JOINED_TEXT);
    let Some(i) = find_guild(state, guild_id.as_str()) else { return reply };
    let ghost before = *state;
    let mut g = state.guilds.remove(i);
    g.add_channel(channel_id);
    crate::store::put_guild(state, i, g, Ghost(before));
    reply
}

/// Makes the bot stop answering in channel `channel_id`, creating the
/// community first if it is unknown.
pub fn leave_channel(state: &mut JeevesState, guild_id: &String, channel_id: &String) -> (r: String)
    requires
        old(state).wf(),
    ensures
        final(state).wf(),
        final(state)@ == leave_effect(old(state)@, guild_id@, channel_id@),
        r@ == LEFT_TEXT@,
{
    create_guild_if_not_exists(state, &Some(guild_id.clone()), channel_id);
    let reply = String::from_str(LEFT_TEXT);
    let Some(i) = find_guild(state, guild_id.as_str()) else { return reply };
    let ghost before = *state;
    let mut g = state.guilds.remove(i);
    g.remove_channel(channel_id);
    crate::store::put_guild(state, i, g, Ghost(before));
    reply
}

/// Switches the community to `model` if it is allowed; otherwise leaves the
/// store as it is and lists the valid models.
pub fn switch_model(
    state: &mut JeevesState,
    guild_id: &String,
    channel_id: &String,
    model: &String,
) -> (r: String)
    requires
        old(state).wf(),
    ensures
        final(state).wf(),
        final(state)@ == model_effect(old(state)@, guild_id@, channel_id@, model@),
        r@ == model_reply(model@),
{
    if !is_allowed_model(model.as_str()) {
        let mut reply = String::from_str(INVALID_MODEL_TEXT);
        reply.append(model.as_str());
        reply.append(VALID_MODELS_TEXT);
        return reply;
    }
    create_guild_if_not_exists(state, &Some(guild_id.clone()), channel_id);
    let mut reply = String::from_str(MODEL_CHANGED_TEXT);
    reply.append(model.as_str());
    let Some(i) = find_guild(state, guild_id.as_str()) else { return reply };
    let ghost before = *state;
    let mut g = state.guilds.remove(i);
    g.set_model(model);
    crate::store::put_guild(state, i, g, Ghost(before));
    reply
}

proof fn lemma_join_step(cs: Seq<Seq<char>>, i: int)
    requires
        0 <= i < cs.len(),
    ensures
        join_channels(cs.subrange(0, i + 1)) == if i == 0 {
            cs[0]
        } else {
            join_channels(cs.subrange(0, i)) + CHANNEL_SEPARATOR@ + cs[i]
        },
{
    assert(cs.subrange(0, i + 1).drop_last() =~= cs.subrange(0, i));
}

/// The status report of community `guild_id` seen from channel
/// `channel_id`, or an error text if the community is unknown.
pub fn send_status(state: &JeevesState, guild_id: &String, channel_id: &String) -> (r: String)
    requires
        state.wf(),
    ensures
        r@ == status_reply(state@, guild_id@, channel_id@),
{
    let Some(i) = find_guild(state, guild_id.as_str()) else {
        return String::from_str(NO_STATE_TEXT);
    };
    let g = &state.guilds[i];
    let mut r = String::from_str(STATUS_GUILD);
    r.append(guild_id.as_str());
    r.append(STATUS_CHANNELS);
    let ghost cs = g@.channels;
    let ghost head = r@;
    let mut k: usize = 0;
    while k < g.our_channels.len()
        invariant
            k <= g.our_channels@.len(),
            cs == g@.channels,
            r@ == head + join_channels(cs.subrange(0, k as int)),
        decreases g.our_channels.len() - k,
    {
        proof {
            lemma_join_step(cs, k as int);
        }
        if k > 0 {
            r.append(CHANNEL_SEPARATOR);
        }
        r.append(g.our_channels[k].as_str());
        k += 1;
    }
    assert(cs.subrange(0, k as int) =~= cs);
    r.append(STATUS_COUNT);
    let n = decimal(g.log_len(channel_id.as_str()));
    r.append(n.as_str());
    r.append(STATUS_MODEL);
    r.append(g.llm.as_str());
    r
}

/// The command a name decodes to, with `option` as its parameter.
pub open spec fn command_of(name: Seq<char>, option: Option<String>) -> Option<Command> {
    if name == "help"@ {
        Some(Command::Help)
    } else if name == "clear"@ {
        Some(Command::Clear)
    } else if name == "init"@ {
        Some(Command::Init)
    } else if name == "leave"@ {
        Some(Command::Leave)
    } else if name == "model"@ {
        Some(Command::Model(option))
    } else if name == "status"@ {
        Some(Command::Status)
    } else {
        None
    }
}

/// The store after command `cmd` runs in channel `ch` of community `gid`.
pub open spec fn command_effect(s: StateView, cmd: Command, gid: Seq<char>, ch: Seq<char>) -> StateView {
    match cmd {
        Command::Clear => clear_effect(s, gid, ch),
        Command::Init => init_effect(s, gid, ch),
        Command::Leave => leave_effect(s, gid, ch),
        Command::Model(Some(m)) => model_effect(s, gid, ch, m@),
        _ => s,
    }
}

/// The acknowledgement of command `cmd`, if it has one.
pub open spec fn command_reply(s: StateView, cmd: Command, gid: Seq<char>, ch: Seq<char>) -> Option<
    Seq<char>,
> {
    match cmd {
        Command::Help => Some(HELP_TEXT@),
        Command::Clear => Some(CLEARED_TEXT@),
        Command::Init => Some(JOINED_TEXT@),
        Command::Leave => Some(LEFT_TEXT@),
        Command::Model(None) => None,
        Command::Model(Some(m)) => Some(model_reply(m@)),
        Command::Status => Some(status_reply(s, gid, ch)),
    }
}

/// Runs command `cmd` issued in channel `channel_id` of community
/// `guild_id`, and returns its acknowledgement, if it has one.
pub fn run_command(
    state: &mut JeevesState,
    cmd: Command,
    guild_id: &String,
    channel_id: &String,
) -> (r: Option<String>)
    requires
        old(state).wf(),
    ensures
        final(state).wf(),
        final(state)@ == command_effect(old(state)@, cmd, guild_id@, channel_id@),
        opt_view(r) == command_reply(old(state)@, cmd, guild_id@, channel_id@),
{
    match cmd {
        Command::Help => Some(respond_with_help()),
        Command::Clear => Some(clear_conversation(state, guild_id, channel_id)),
        Command::Init => Some(save_channel(state, guild_id, channel_id)),
        Command::Leave => Some(leave_channel(state, guild_id, channel_id)),
        Command::Model(None) => None,
        Command::Model(Some(m)) => Some(switch_model(state, guild_id, channel_id, &m)),
        Command::Status => Some(send_status(state, guild_id, channel_id)),
    }
}

/// A command as it is registered with the chat platform. `option` names the
/// required text parameter and describes it, for a command that takes one.
#[derive(Debug, Clone)]
pub struct CommandDefinition {
    pub name: String,
    pub description: String,
    pub option: Option<(String, String)>,
}

impl View for CommandDefinition {
    type V = (Seq<char>, Seq<char>, Option<(Seq<char>, Seq<char>)>);

    open spec fn view(&self) -> (Seq<char>, Seq<char>, Option<(Seq<char>, Seq<char>)>) {
        (
            self.name@,
            self.description@,
            match self.option {
                Some((n, d)) => Some((n@, d@)),
                None => None,
            },
        )
    }
}

/// The commands registered at startup, in order.
pub open spec fn command_table() -> Seq<(Seq<char>, Seq<char>, Option<(Seq<char>, Seq<char>)>)> {
    seq![
        ("help"@, "Show help"@, None),
        ("clear"@, "Make Jeeves forget the conversation thus far"@, None),
        ("init"@, "Tell Jeeves to respond to posts in this channel"@, None),
        ("leave"@, "Tell Jeeves to leave this channel"@, None),
        (
            "status"@,
            "See what channels Jeeves is in, the size of message logs, model data, etc."@,
            None,
        ),
        ("model"@, "Change the LLM that Jeeves will use"@, Some(("model"@, "The model to use"@))),
    ]
}

fn definition(name: &str, description: &str) -> (r: CommandDefinition)
    ensures
        r@ == (name@, description@, None::<(Seq<char>, Seq<char>)>),
{
    CommandDefinition {
        name: String::from_str(name),
        description: String::from_str(description),
        option: None,
    }
}

/// The commands to register with the chat platform at startup.
pub fn registered_commands() -> (r: Vec<CommandDefinition>)
    ensures
        r@.map_values(|d: CommandDefinition| d@) == command_table(),
{
    let mut r: Vec<CommandDefinition> = Vec::new();
    r.push(definition("help", "Show help"));
    r.push(definition("clear", "Make Jeeves forget the conversation thus far"));
    r.push(definition("init", "Tell Jeeves to respond to posts in this channel"));
    r.push(definition("leave", "Tell Jeeves to leave this channel"));
    r.push(
        definition(
            "status",
            "See what channels Jeeves is in, the size of message logs, model data, etc.",
        ),
    );
    r.push(
        CommandDefinition {
            name: String::from_str("model"),
            description: String::from_str("Change the LLM that Jeeves will use"),
            option: Some((String::from_str("model"), String::from_str("The model to use"))),
        },
    );
    assert(r@.map_values(|d: CommandDefinition| d@) =~= command_table());
    r
}

/// `init` needs no earlier step: afterwards the community exists and answers
/// in the channel.
pub proof fn lemma_init_creates(s: StateView, gid: Seq<char>, ch: Seq<char>)
    ensures
        init_effect(s, gid, ch).contains_key(gid),
        init_effect(s, gid, ch)[gid].is_active(ch),
        !s.contains_key(gid) ==> init_effect(s, gid, ch)[gid].channels == seq![ch],
{
    let t = ensure_guild(s, gid, ch);
    if t[gid].channels.contains(ch) {
    } else {
        assert(t[gid].channels.push(ch)[t[gid].channels.len() as int] == ch);
    }
    if !s.contains_key(gid) {
        assert(default_guild(ch).channels[0] == ch);
    }
}

/// `model` with a value outside the allowed list changes nothing and lists
/// the valid models; with an allowed value it sets the model and says so.
pub proof fn lemma_model_validation(s: StateView, gid: Seq<char>, ch: Seq<char>, m: Seq<char>)
    ensures
        !allowed_model(m) ==> model_effect(s, gid, ch, m) == s && model_reply(m)
            == INVALID_MODEL_TEXT@ + m + VALID_MODELS_TEXT@,
        allowed_model(m) ==> model_effect(s, gid, ch, m).contains_key(gid) && model_effect(
            s,
            gid,
            ch,
            m,
        )[gid].llm == m && model_reply(m) == MODEL_CHANGED_TEXT@ + m,
{
}

} // verus!
