//! The message context, the start handler, and command dispatch.
//!
//! Dispatch is pure routing: a total map from each command variant to
//! exactly one handler, enforced by an exhaustive match with no default
//! arm. A handler decides what to record and what to reply; the transport
//! client that delivers the reply is the caller's collaborator, and its
//! answer is folded back into the outcome by [`complete_send`].

use vstd::prelude::*;

use crate::commands::Command;
use crate::error::BotError;

verus! {

/// Sender identity attached to an inbound message.
#[derive(Debug, Clone)]
pub struct UserInfo {
    /// The sender's first name; always present when a sender is attached.
    pub first_name: String,
    /// The sender's last name, when the platform knows one.
    pub last_name: Option<String>,
}

/// Read-only view of one inbound event: who sent it, where, and its text.
#[derive(Debug, Clone)]
pub struct InboundMessage {
    /// Sender identity; absent when no sender is attached to the event.
    pub from: Option<UserInfo>,
    /// The chat the message arrived in; replies are addressed here.
    pub chat_id: i64,
    /// The raw message text.
    pub text: String,
}

/// A reply for the transport client to deliver.
#[derive(Debug, Clone)]
pub struct Reply {
    /// The chat to deliver to.
    pub chat_id: i64,
    /// The text to send.
    pub text: String,
}

/// What handling one command decides: the display name recorded for
/// observability and the reply to send to the originating chat.
#[derive(Debug, Clone)]
pub struct HandlerAction {
    /// The sender's display name, recorded by the logging collaborator.
    pub log_user: String,
    /// The reply to deliver through the transport client.
    pub reply: Reply,
}

/// The display name derived from a message's sender: the first name alone,
/// `"first last"` when a last name is present, and the literal `"Unknown"`
/// when no sender identity is attached.
pub open spec fn spec_display_name(from: Option<UserInfo>) -> Seq<char> {
    match from {
        Some(user) => match user.last_name {
            Some(last) => user.first_name@ + " "@ + last@,
            None => user.first_name@,
        },
        None => "Unknown"@,
    }
}

/// The reply text each command's handler sends.
pub open spec fn spec_reply_text(cmd: Command) -> Seq<char> {
    match cmd {
        Command::Start => "Hello World"@,
    }
}

/// Derives the sender's display name for the observability event.
pub fn display_name(msg: &InboundMessage) -> (name: String)
    ensures
        name@ == spec_display_name(msg.from),
{
    match &msg.from {
        Some(user) => match &user.last_name {
            Some(last) => {
                let mut name = user.first_name.clone();
                name.append(" ");
                name.append(last.as_str());
                name
            },
            None => user.first_name.clone(),
        },
        None => String::from_str("Unknown"),
    }
}

/// Handles the start command: records who started the bot and replies to
/// the originating chat. The reply always carries the literal
/// `"Hello World"`, whatever the sender's identity.
pub fn handle_start(msg: &InboundMessage) -> (action: HandlerAction)
    ensures
        action.log_user@ == spec_display_name(msg.from),
        action.reply.chat_id == msg.chat_id,
        action.reply.text@ == "Hello World"@,
{
    let log_user = display_name(msg);
    let reply = Reply { chat_id: msg.chat_id, text: String::from_str(Command::start_message()) };
    HandlerAction { log_user, reply }
}

/// Routes a parsed command to its handler: a total map with exactly one
/// arm per variant and no default arm, so an unrouted variant cannot
/// compile. The reply is always addressed to the originating chat.
pub fn handle_command(cmd: Command, msg: &InboundMessage) -> (action: HandlerAction)
    ensures
        action.log_user@ == spec_display_name(msg.from),
        action.reply.chat_id == msg.chat_id,
        action.reply.text@ == spec_reply_text(cmd),
{
    match cmd {
        Command::Start => handle_start(msg),
    }
}

/// Dispatch is total: every command variant routes to a handler that
/// produces a non-empty reply.
pub proof fn lemma_dispatch_total(cmd: Command)
    ensures
        spec_reply_text(cmd).len() > 0,
{
    reveal_strlit("Hello World");
    match cmd {
        Command::Start => {
            assert(spec_reply_text(cmd) == "Hello World"@);
        },
    }
}

/// Folds the transport client's answer to a delivered reply into the
/// dispatch outcome: success passes through, and a transport failure is
/// wrapped as a `Telegram` error with the underlying cause kept verbatim —
/// nothing is retried and nothing is swallowed.
pub fn complete_send(send_result: Result<(), String>) -> (outcome: Result<(), BotError>)
    ensures
        outcome is Ok <==> send_result is Ok,
        send_result matches Err(cause) ==> (outcome matches Err(e) && e matches BotError::Telegram(
            c,
        ) && c == cause),
{
    match send_result {
        Ok(_) => Ok(()),
        Err(cause) => Err(BotError::Telegram(cause)),
    }
}

} // verus!
