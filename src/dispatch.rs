//! What the bot sends back for one incoming message.
use vstd::prelude::*;
use crate::command::{spec_help_text, spec_parse, Command};

verus! {

/// A message to send: the chat it goes to and its text.
#[derive(Debug)]
pub struct Reply {
    pub chat_id: i64,
    pub text: String,
}

/// The replies owed to one incoming message, as a sequence of (chat, text) pairs.
pub open spec fn spec_answer(chat_id: i64, text: Seq<char>, bot_name: Seq<char>) -> Seq<(i64, Seq<char>)> {
    match spec_parse(text, bot_name) {
        Some(Command::Help) => seq![(chat_id, spec_help_text())],
        None => Seq::empty(),
    }
}

/// The reply owed to `command` when it came from the chat `chat_id`.
pub fn reply_to(chat_id: i64, command: Command) -> (r: Reply)
    ensures
        r.chat_id == chat_id,
        r.text@ == match command {
            Command::Help => spec_help_text(),
        },
{
    match command {
        Command::Help => Reply { chat_id, text: Command::descriptions() },
    }
}

/// The replies for the message `text` that came from the chat `chat_id`, for the
/// bot named `bot_name`: the help text back to that chat when the message is the
/// help command, and nothing when it is no command of the bot.
pub fn answer(chat_id: i64, text: &str, bot_name: &str) -> (r: Vec<Reply>)
    ensures
        r@.len() == spec_answer(chat_id, text@, bot_name@).len(),
        forall|i: int| 0 <= i < r@.len() ==> (r@[i].chat_id, r@[i].text@) == #[trigger] spec_answer(chat_id, text@, bot_name@)[i],
        spec_parse(text@, bot_name@) == Some(Command::Help) ==> r@.len() == 1 && r@[0].chat_id == chat_id
            && r@[0].text@ == spec_help_text(),
        spec_parse(text@, bot_name@) is None ==> r@.len() == 0,
{
    let mut r: Vec<Reply> = Vec::new();
    match Command::parse(text, bot_name) {
        Some(command) => {
            r.push(reply_to(chat_id, command));
        },
        None => {},
    }
    r
}

} // verus!
