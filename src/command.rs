//! The bot's closed set of chat commands, their help text, and the command grammar.
use vstd::prelude::*;
use crate::text::{after, before, eq_ignore_ascii_case, find_char, holds, same_text, same_text_ignore_ascii_case};

verus! {

/// The commands the bot answers.
#[derive(Clone, Copy, Debug, PartialEq, Eq, Structural)]
pub enum Command {
    /// Shows the list of commands.
    Help,
}

/// The line that opens the help text.
pub open spec fn spec_header() -> Seq<char> {
    seq!['T','h','e',' ','f','o','l','l','o','w','i','n','g',' ','c','o','m','m','a','n','d','s',' ',
        'a','r','e',' ','s','u','p','p','o','r','t','e','d']
}

/// `/`, the mark that opens a command.
pub open spec fn spec_prefix() -> Seq<char> {
    seq!['/']
}

/// What stands between a command and its description in the help text.
pub open spec fn spec_separator() -> Seq<char> {
    seq![' ', '\u{2014}', ' ']
}

/// The help text: the header, a blank line, then one line per command.
pub open spec fn spec_help_text() -> Seq<char> {
    spec_header() + seq!['\n', '\n'] + Command::Help.spec_line()
}

/// The command that `text` holds, when it is meant for the bot named `bot_name`.
///
/// The first word (up to the first space) is the command, optionally followed by
/// `@` and a bot name; that name must equal `bot_name` up to ASCII case. What
/// follows the first word is ignored, as no command takes arguments.
pub open spec fn spec_parse(text: Seq<char>, bot_name: Seq<char>) -> Option<Command> {
    let word = before(text, ' ');
    let name = before(word, '@');
    let addressed = before(after(word, '@'), '@');
    if holds(word, '@') && !eq_ignore_ascii_case(addressed, bot_name) {
        None
    } else if name == spec_prefix() + Command::Help.spec_name() {
        Some(Command::Help)
    } else {
        None
    }
}

/// Relies on teloxide's `CommandDescriptions` (`new`, `global_description` and its
/// `Display`), for a list of one command: the header, a blank line, the prefix and
/// the command, then a space, an em dash, a space and the description where that
/// is not empty.
#[verifier::external_body]
fn describe(header: &str, prefix: &str, command: &str, description: &str) -> (r: String)
    ensures
        r@ == header@ + seq!['\n', '\n'] + prefix@ + command@ + (if description@.len() == 0 {
            Seq::empty()
        } else {
            spec_separator() + description@
        }),
{
    let list = [teloxide::utils::command::CommandDescription { prefix, command, description }];
    teloxide::utils::command::CommandDescriptions::new(&list).global_description(header).to_string()
}

impl Command {
    /// The name that a user types after `/`.
    pub open spec fn spec_name(self) -> Seq<char> {
        match self {
            Command::Help => seq!['h', 'e', 'l', 'p'],
        }
    }

    /// What the help text says of the command.
    pub open spec fn spec_description(self) -> Seq<char> {
        match self {
            Command::Help => seq!['d','i','s','p','l','a','y',' ','t','h','i','s',' ','t','e','x','t','.'],
        }
    }

    /// The command's line in the help text.
    pub open spec fn spec_line(self) -> Seq<char> {
        spec_prefix() + self.spec_name() + spec_separator() + self.spec_description()
    }

    /// The name that a user types after `/`.
    pub fn name(&self) -> (r: &'static str)
        ensures
            r@ == self.spec_name(),
    {
        match self {
            Command::Help => {
                let r = "help";
                proof {
                    reveal_strlit("help");
                }
                assert(r@ =~= self.spec_name());
                r
            },
        }
    }

    /// What the help text says of the command.
    pub fn description(&self) -> (r: &'static str)
        ensures
            r@ == self.spec_description(),
    {
        match self {
            Command::Help => {
                let r = "display this text.";
                proof {
                    reveal_strlit("display this text.");
                }
                assert(r@ =~= self.spec_description());
                r
            },
        }
    }

    /// The help text that lists every command with its description.
    pub fn descriptions() -> (r: String)
        ensures
            r@ == spec_help_text(),
    {
        let header = "The following commands are supported";
        let prefix = "/";
        proof {
            reveal_strlit("The following commands are supported");
            reveal_strlit("/");
        }
        assert(header@ =~= spec_header());
        assert(prefix@ =~= spec_prefix());
        let description = Command::Help.description();
        assert(description@.len() > 0);
        let r = describe(header, prefix, Command::Help.name(), description);
        assert(r@ =~= spec_help_text());
        r
    }

    /// The command that `text` holds, when it is meant for the bot named `bot_name`.
    pub fn parse(text: &str, bot_name: &str) -> (r: Option<Command>)
        ensures
            r == spec_parse(text@, bot_name@),
    {
        let space = find_char(text, ' ');
        let word = text.substring_char(0, space);
        assert(word@ =~= before(text@, ' '));
        let at = find_char(word, '@');
        let name = word.substring_char(0, at);
        assert(name@ =~= before(word@, '@'));
        let n = word.unicode_len();
        if at < n {
            let rest = word.substring_char(at + 1, n);
            assert(rest@ =~= after(word@, '@'));
            let end = find_char(rest, '@');
            let addressed = rest.substring_char(0, end);
            assert(addressed@ =~= before(after(word@, '@'), '@'));
            if !same_text_ignore_ascii_case(addressed, bot_name) {
                return None;
            }
        }
        let help = "/help";
        proof {
            reveal_strlit("/help");
        }
        assert(help@ =~= spec_prefix() + Command::Help.spec_name());
        if same_text(name, help) {
            Some(Command::Help)
        } else {
            None
        }
    }
}

} // verus!
