use vstd::prelude::*;

use crate::message::Outgoing;
use crate::settings::Config;

verus! {

/// The commands the bot answers.
#[derive(Clone, Copy, Debug, PartialEq, Eq, Structural)]
pub enum Command {
    /// `/source`: where the bot's code lives.
    Source,
    /// `/start`: the introduction.
    Start,
    /// `/help`: the introduction again.
    Help,
}

/// The configured reply to a command.
pub open spec fn reply_text(config: Config, cmd: Command) -> Seq<char> {
    match cmd {
        Command::Source => config.source_msg@,
        Command::Start => config.help_msg@,
        Command::Help => config.help_msg@,
    }
}

/// The one message that answers `cmd`, sent back to the chat it came from.
pub fn handle_command(config: &Config, chat_id: i64, cmd: Command) -> (r: Outgoing)
    ensures
        r.chat_id == chat_id,
        r.text@ == reply_text(*config, cmd),
{
    let text = match cmd {
        Command::Source => config.source_msg.clone(),
        Command::Start => config.help_msg.clone(),
        Command::Help => config.help_msg.clone(),
    };
    Outgoing { chat_id, text }
}

} // verus!
