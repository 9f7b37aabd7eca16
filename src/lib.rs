//! A conversational relay for a chat platform: it keeps per-community
//! conversation state, decides when a message calls for an answer, builds the
//! prompt for a language model, runs administrative commands, and turns
//! replies into outbound calls.

pub mod keyed;
pub mod types;
pub mod text;
pub mod store;
pub mod commands;
pub mod policy;
pub mod discord;
pub mod events;

pub use commands::{
    clear_conversation, leave_channel, parse_command, registered_commands, respond_with_help,
    run_command, save_channel, send_status, switch_model, Command, CommandDefinition,
};
pub use discord::{chunk_message, send_message_to_discord, OutboundCall};
pub use events::{handle_interaction, reply_to_message, Interaction};
pub use policy::{
    clean_completion, create_chat_completion, create_chat_completion_for_guild_channel,
    handle_message, record_completion, ChatRequest, CompletionFailed, IncomingMessage,
    PromptMessage,
};
pub use store::create_guild_if_not_exists;
pub use types::{
    empty_state, system_prompt, BotAdminRequest, BotResponseSchema, ChannelLog, GuildInfo,
    JeevesState, Utterance,
};
