//! The command handler: it routes a command to its job, asks the provider
//! for the request to send, and turns the outcome of the fetch into the one
//! reply addressed to the conversation the command came from. A failure of
//! the fetch becomes a notice to that conversation, never a crash.

use vstd::prelude::*;
use crate::provider::{
    credential_of, endpoint_text, fetch_outcome, key_header_text, outcome_view, ApiRequest,
    Config, Failure, FetchError, FetchReply, ImageProvider,
};

verus! {

/// A command the bot knows.
#[derive(Clone, Copy, Debug, PartialEq, Eq, Structural)]
pub enum Command {
    /// Send a picture of a cat.
    Cat,
}

/// The work a command calls for.
#[derive(Clone, Copy, Debug, PartialEq, Eq, Structural)]
pub enum Job {
    /// Fetch an image URL and send it as a photo.
    FetchImage,
}

/// The job of each command.
pub open spec fn job_spec(command: Command) -> Job {
    match command {
        Command::Cat => Job::FetchImage,
    }
}

pub fn job_of(command: Command) -> (r: Job)
    ensures
        r == job_spec(command),
{
    match command {
        Command::Cat => Job::FetchImage,
    }
}

/// One recognized command, with the conversation it came from.
#[derive(Clone, Copy, Debug, PartialEq, Eq)]
pub struct CommandEvent {
    pub chat: i64,
    pub command: Command,
}

/// What to send back.
#[derive(Clone, Debug, PartialEq, Eq)]
pub enum ReplyAction {
    SendPhoto { chat: i64, url: String },
    SendText { chat: i64, text: String },
}

/// A reply as a mathematical value: a photo by URL, or a text, each with
/// the conversation it goes to.
pub enum Reply {
    Photo(i64, Seq<char>),
    Text(i64, Seq<char>),
}

impl View for ReplyAction {
    type V = Reply;

    open spec fn view(&self) -> Reply {
        match self {
            ReplyAction::SendPhoto { chat, url } => Reply::Photo(*chat, url@),
            ReplyAction::SendText { chat, text } => Reply::Text(*chat, text@),
        }
    }
}

impl ReplyAction {
    /// The conversation the reply goes to.
    pub fn chat(&self) -> (r: i64)
        ensures
            r == match self@ {
                Reply::Photo(c, _) => c,
                Reply::Text(c, _) => c,
            },
    {
        match self {
            ReplyAction::SendPhoto { chat, .. } => *chat,
            ReplyAction::SendText { chat, .. } => *chat,
        }
    }
}

/// The text sent when no image could be had.
pub open spec fn failure_notice() -> Seq<char> {
    "Sorry, could not fetch a cat image right now."@
}

/// The reply to a conversation, given the outcome of the fetch.
pub open spec fn reply_for(chat: i64, outcome: Result<Seq<char>, Failure>) -> Reply {
    match outcome {
        Ok(url) => Reply::Photo(chat, url),
        Err(_) => Reply::Text(chat, failure_notice()),
    }
}

/// Turns the outcome of a fetch into the reply to conversation `chat`.
pub fn reply_for_outcome(chat: i64, outcome: Result<String, FetchError>) -> (r: ReplyAction)
    ensures
        r@ == reply_for(chat, outcome_view(outcome)),
{
    match outcome {
        Ok(url) => ReplyAction::SendPhoto { chat, url },
        Err(_) => ReplyAction::SendText {
            chat,
            text: String::from_str("Sorry, could not fetch a cat image right now."),
        },
    }
}

/// Whatever way a fetch fails, the conversation gets the failure notice,
/// and only that one reply.
pub proof fn failed_fetch_gets_notice(chat: i64, reply: FetchReply)
    requires
        fetch_outcome(reply) is Err,
    ensures
        reply_for(chat, fetch_outcome(reply)) == Reply::Text(chat, failure_notice()),
{
}

/// A configuration that cannot authenticate a request gets the conversation
/// the failure notice.
pub proof fn config_fault_gets_notice(chat: i64, config: Config)
    requires
        credential_of(config) is Err,
    ensures
        reply_for(chat, Err(credential_of(config)->Err_0)) == Reply::Text(chat, failure_notice()),
{
}

/// What the handler asks for next: a request to send, whose answer goes to
/// `complete`, or the reply itself.
pub enum HandlerStep {
    Fetch(ApiRequest),
    Reply(ReplyAction),
}

/// Handles one command at a time, with the provider it was built with.
pub struct CommandHandler {
    pub provider: ImageProvider,
}

impl CommandHandler {
    pub fn new(provider: ImageProvider) -> (r: CommandHandler)
        ensures
            r.provider == provider,
    {
        CommandHandler { provider }
    }

    /// The first step of handling `event`. Where the configuration holds no
    /// usable key, the step is the failure notice, and no request is made.
    pub fn handle(&self, event: &CommandEvent) -> (r: HandlerStep)
        ensures
            job_spec(event.command) == Job::FetchImage ==> match credential_of(
                self.provider.config,
            ) {
                Err(f) => r matches HandlerStep::Reply(a) && a@ == reply_for(event.chat, Err(f)),
                Ok(key) => r matches HandlerStep::Fetch(req) && req.api_key@ == key && req.url@
                    == endpoint_text() && req.header_name@ == key_header_text(),
            },
    {
        match job_of(event.command) {
            Job::FetchImage => match self.provider.prepare_request() {
                Ok(req) => HandlerStep::Fetch(req),
                Err(e) => HandlerStep::Reply(reply_for_outcome(event.chat, Err(e))),
            },
        }
    }

    /// The reply to `event`, given what came back from the request that
    /// `handle` asked for.
    pub fn complete(&self, event: &CommandEvent, reply: &FetchReply) -> (r: ReplyAction)
        ensures
            r@ == reply_for(event.chat, fetch_outcome(*reply)),
    {
        let outcome = self.provider.finish_fetch(reply);
        reply_for_outcome(event.chat, outcome)
    }
}

} // verus!
