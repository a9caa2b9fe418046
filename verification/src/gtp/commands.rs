//! The commands that the engine knows.

use vstd::prelude::*;
use vstd::string::*;
use crate::text::{chars_of, same_text};

verus! {

/// The commands of the protocol that the engine knows.
#[derive(Clone, Copy, Debug, PartialEq, Eq, Hash, Structural)]
pub enum KnownCommands {
    BoardSize,
    ClearBoard,
    FinalScore,
    GenMove,
    KnownCommand,
    Komi,
    ListCommands,
    LoadSgf,
    Name,
    Play,
    ProtocolVersion,
    Quit,
    ShowBoard,
    TimeLeft,
    TimeSettings,
    Version,
}

/// The end of a line.
pub open spec fn newline() -> Seq<char> {
    seq!['\n']
}

impl KnownCommands {
    /// The name of the command in the protocol.
    pub open spec fn word(self) -> Seq<char> {
        match self {
            KnownCommands::BoardSize => "boardsize"@,
            KnownCommands::ClearBoard => "clear_board"@,
            KnownCommands::FinalScore => "final_score"@,
            KnownCommands::GenMove => "genmove"@,
            KnownCommands::KnownCommand => "known_command"@,
            KnownCommands::Komi => "komi"@,
            KnownCommands::ListCommands => "list_commands"@,
            KnownCommands::LoadSgf => "loadsgf"@,
            KnownCommands::Name => "name"@,
            KnownCommands::Play => "play"@,
            KnownCommands::ProtocolVersion => "protocol_version"@,
            KnownCommands::Quit => "quit"@,
            KnownCommands::ShowBoard => "showboard"@,
            KnownCommands::TimeLeft => "time_left"@,
            KnownCommands::TimeSettings => "time_settings"@,
            KnownCommands::Version => "version"@,
        }
    }

    /// The command that a word names.
    pub open spec fn named(word: Seq<char>) -> Option<KnownCommands> {
        if word == KnownCommands::BoardSize.word() {
            Some(KnownCommands::BoardSize)
        } else if word == KnownCommands::ClearBoard.word() {
            Some(KnownCommands::ClearBoard)
        } else if word == KnownCommands::FinalScore.word() {
            Some(KnownCommands::FinalScore)
        } else if word == KnownCommands::GenMove.word() {
            Some(KnownCommands::GenMove)
        } else if word == KnownCommands::KnownCommand.word() {
            Some(KnownCommands::KnownCommand)
        } else if word == KnownCommands::Komi.word() {
            Some(KnownCommands::Komi)
        } else if word == KnownCommands::ListCommands.word() {
            Some(KnownCommands::ListCommands)
        } else if word == KnownCommands::LoadSgf.word() {
            Some(KnownCommands::LoadSgf)
        } else if word == KnownCommands::Name.word() {
            Some(KnownCommands::Name)
        } else if word == KnownCommands::Play.word() {
            Some(KnownCommands::Play)
        } else if word == KnownCommands::ProtocolVersion.word() {
            Some(KnownCommands::ProtocolVersion)
        } else if word == KnownCommands::Quit.word() {
            Some(KnownCommands::Quit)
        } else if word == KnownCommands::ShowBoard.word() {
            Some(KnownCommands::ShowBoard)
        } else if word == KnownCommands::TimeLeft.word() {
            Some(KnownCommands::TimeLeft)
        } else if word == KnownCommands::TimeSettings.word() {
            Some(KnownCommands::TimeSettings)
        } else if word == KnownCommands::Version.word() {
            Some(KnownCommands::Version)
        } else {
            None
        }
    }

    /// The names of all commands, one on each line.
    pub open spec fn listing() -> Seq<char> {
        KnownCommands::BoardSize.word() + newline() + KnownCommands::ClearBoard.word() + newline() + KnownCommands::FinalScore.word() + newline() + KnownCommands::GenMove.word() + newline() + KnownCommands::KnownCommand.word() + newline() + KnownCommands::Komi.word() + newline() + KnownCommands::ListCommands.word() + newline() + KnownCommands::LoadSgf.word() + newline() + KnownCommands::Name.word() + newline() + KnownCommands::Play.word() + newline() + KnownCommands::ProtocolVersion.word() + newline() + KnownCommands::Quit.word() + newline() + KnownCommands::ShowBoard.word() + newline() + KnownCommands::TimeLeft.word() + newline() + KnownCommands::TimeSettings.word() + newline() + KnownCommands::Version.word()
    }

    pub fn name(&self) -> (s: &'static str)
        ensures
            s@ == self.word(),
    {
        match self {
            KnownCommands::BoardSize => "boardsize",
            KnownCommands::ClearBoard => "clear_board",
            KnownCommands::FinalScore => "final_score",
            KnownCommands::GenMove => "genmove",
            KnownCommands::KnownCommand => "known_command",
            KnownCommands::Komi => "komi",
            KnownCommands::ListCommands => "list_commands",
            KnownCommands::LoadSgf => "loadsgf",
            KnownCommands::Name => "name",
            KnownCommands::Play => "play",
            KnownCommands::ProtocolVersion => "protocol_version",
            KnownCommands::Quit => "quit",
            KnownCommands::ShowBoard => "showboard",
            KnownCommands::TimeLeft => "time_left",
            KnownCommands::TimeSettings => "time_settings",
            KnownCommands::Version => "version",
        }
    }

    /// The command that a word names, where it names one.
    pub fn enumify(word: &str) -> (r: Option<KnownCommands>)
        ensures
            r == KnownCommands::named(word@),
    {
        recognize(&chars_of(word))
    }

    /// The names of all commands, one on each line.
    pub fn stringify() -> (s: String)
        ensures
            s@ == KnownCommands::listing(),
    {
        let mut s: String = String::new();
        s.append(KnownCommands::BoardSize.name());
        s.push('\n');
        s.append(KnownCommands::ClearBoard.name());
        s.push('\n');
        s.append(KnownCommands::FinalScore.name());
        s.push('\n');
        s.append(KnownCommands::GenMove.name());
        s.push('\n');
        s.append(KnownCommands::KnownCommand.name());
        s.push('\n');
        s.append(KnownCommands::Komi.name());
        s.push('\n');
        s.append(KnownCommands::ListCommands.name());
        s.push('\n');
        s.append(KnownCommands::LoadSgf.name());
        s.push('\n');
        s.append(KnownCommands::Name.name());
        s.push('\n');
        s.append(KnownCommands::Play.name());
        s.push('\n');
        s.append(KnownCommands::ProtocolVersion.name());
        s.push('\n');
        s.append(KnownCommands::Quit.name());
        s.push('\n');
        s.append(KnownCommands::ShowBoard.name());
        s.push('\n');
        s.append(KnownCommands::TimeLeft.name());
        s.push('\n');
        s.append(KnownCommands::TimeSettings.name());
        s.push('\n');
        s.append(KnownCommands::Version.name());
        s
    }
}

/// The command that a word names, where it names one.
pub fn recognize(word: &Vec<char>) -> (r: Option<KnownCommands>)
    ensures
        r == KnownCommands::named(word@),
{
    if same_text(word, KnownCommands::BoardSize.name()) {
        Some(KnownCommands::BoardSize)
    } else if same_text(word, KnownCommands::ClearBoard.name()) {
        Some(KnownCommands::ClearBoard)
    } else if same_text(word, KnownCommands::FinalScore.name()) {
        Some(KnownCommands::FinalScore)
    } else if same_text(word, KnownCommands::GenMove.name()) {
        Some(KnownCommands::GenMove)
    } else if same_text(word, KnownCommands::KnownCommand.name()) {
        Some(KnownCommands::KnownCommand)
    } else if same_text(word, KnownCommands::Komi.name()) {
        Some(KnownCommands::Komi)
    } else if same_text(word, KnownCommands::ListCommands.name()) {
        Some(KnownCommands::ListCommands)
    } else if same_text(word, KnownCommands::LoadSgf.name()) {
        Some(KnownCommands::LoadSgf)
    } else if same_text(word, KnownCommands::Name.name()) {
        Some(KnownCommands::Name)
    } else if same_text(word, KnownCommands::Play.name()) {
        Some(KnownCommands::Play)
    } else if same_text(word, KnownCommands::ProtocolVersion.name()) {
        Some(KnownCommands::ProtocolVersion)
    } else if same_text(word, KnownCommands::Quit.name()) {
        Some(KnownCommands::Quit)
    } else if same_text(word, KnownCommands::ShowBoard.name()) {
        Some(KnownCommands::ShowBoard)
    } else if same_text(word, KnownCommands::TimeLeft.name()) {
        Some(KnownCommands::TimeLeft)
    } else if same_text(word, KnownCommands::TimeSettings.name()) {
        Some(KnownCommands::TimeSettings)
    } else if same_text(word, KnownCommands::Version.name()) {
        Some(KnownCommands::Version)
    } else {
        None
    }
}

/// Every command is known by its own name, and by that name only.
pub proof fn lemma_named_by_word(command: KnownCommands)
    ensures
        KnownCommands::named(command.word()) == Some(command),
{
    broadcast use group_string_axioms;
    reveal_strlit("boardsize");
    reveal_strlit("clear_board");
    reveal_strlit("final_score");
    reveal_strlit("genmove");
    reveal_strlit("known_command");
    reveal_strlit("komi");
    reveal_strlit("list_commands");
    reveal_strlit("loadsgf");
    reveal_strlit("name");
    reveal_strlit("play");
    reveal_strlit("protocol_version");
    reveal_strlit("quit");
    reveal_strlit("showboard");
    reveal_strlit("time_left");
    reveal_strlit("time_settings");
    reveal_strlit("version");
    assert("boardsize"@.len() == 9);
    assert("clear_board"@.len() == 11);
    assert("final_score"@.len() == 11);
    assert("genmove"@.len() == 7);
    assert("known_command"@.len() == 13);
    assert("komi"@.len() == 4);
    assert("list_commands"@.len() == 13);
    assert("loadsgf"@.len() == 7);
    assert("name"@.len() == 4);
    assert("play"@.len() == 4);
    assert("protocol_version"@.len() == 16);
    assert("quit"@.len() == 4);
    assert("showboard"@.len() == 9);
    assert("time_left"@.len() == 9);
    assert("time_settings"@.len() == 13);
    assert("version"@.len() == 7);
    assert("boardsize"@[0] != "showboard"@[0]);
    assert("boardsize"@[0] != "time_left"@[0]);
    assert("clear_board"@[0] != "final_score"@[0]);
    assert("genmove"@[0] != "loadsgf"@[0]);
    assert("genmove"@[0] != "version"@[0]);
    assert("known_command"@[0] != "list_commands"@[0]);
    assert("known_command"@[0] != "time_settings"@[0]);
    assert("komi"@[0] != "name"@[0]);
    assert("komi"@[0] != "play"@[0]);
    assert("komi"@[0] != "quit"@[0]);
    assert("list_commands"@[0] != "time_settings"@[0]);
    assert("loadsgf"@[0] != "version"@[0]);
    assert("name"@[0] != "play"@[0]);
    assert("name"@[0] != "quit"@[0]);
    assert("play"@[0] != "quit"@[0]);
    assert("showboard"@[0] != "time_left"@[0]);
}

} // verus!
