//! The text protocol: what a line of input asks for, and the answers.

use vstd::prelude::*;
use crate::board::{Color, IllegalMove, Move};
use crate::text::{as_i32, as_u32, as_u8, chars_of, parse_i32, parse_u32, parse_u8, string_of};
use self::commands::recognize;
use self::line::{clean, preprocessed, split, texts, trim, words};

pub mod commands;
pub mod line;

pub use self::commands::KnownCommands;

verus! {

/// What a line of input asks of the session.
#[derive(Debug)]
pub enum Request {
    /// The line holds nothing that counts.
    Empty,
    /// The line names no known command, or an argument is missing or
    /// malformed.
    Invalid,
    Name,
    Version,
    ProtocolVersion,
    ListCommands,
    /// Whether the word asked about names a known command.
    KnownCommand(bool),
    BoardSize(u8),
    ClearBoard,
    /// The komi as it was written.
    Komi(String),
    GenMove(Color),
    Play(Move),
    ShowBoard,
    FinalScore,
    /// Main time, byo-yomi time and byo-yomi stones.
    TimeSettings(u32, u32, i32),
    /// Time left and stones left.
    TimeLeft(u32, i32),
    /// The path of the file.
    LoadSgf(String),
    Quit,
}

/// A request as a mathematical value.
pub enum RequestView {
    Empty,
    Invalid,
    Name,
    Version,
    ProtocolVersion,
    ListCommands,
    KnownCommand(bool),
    BoardSize(u8),
    ClearBoard,
    Komi(Seq<char>),
    GenMove(Color),
    Play(Move),
    ShowBoard,
    FinalScore,
    TimeSettings(u32, u32, i32),
    TimeLeft(u32, i32),
    LoadSgf(Seq<char>),
    Quit,
}

impl View for Request {
    type V = RequestView;

    open spec fn view(&self) -> RequestView {
        match self {
            Request::Empty => RequestView::Empty,
            Request::Invalid => RequestView::Invalid,
            Request::Name => RequestView::Name,
            Request::Version => RequestView::Version,
            Request::ProtocolVersion => RequestView::ProtocolVersion,
            Request::ListCommands => RequestView::ListCommands,
            Request::KnownCommand(known) => RequestView::KnownCommand(*known),
            Request::BoardSize(size) => RequestView::BoardSize(*size),
            Request::ClearBoard => RequestView::ClearBoard,
            Request::Komi(komi) => RequestView::Komi(komi@),
            Request::GenMove(color) => RequestView::GenMove(*color),
            Request::Play(m) => RequestView::Play(*m),
            Request::ShowBoard => RequestView::ShowBoard,
            Request::FinalScore => RequestView::FinalScore,
            Request::TimeSettings(main, byo, stones) => RequestView::TimeSettings(*main, *byo, *stones),
            Request::TimeLeft(time, stones) => RequestView::TimeLeft(*time, *stones),
            Request::LoadSgf(path) => RequestView::LoadSgf(path@),
            Request::Quit => RequestView::Quit,
        }
    }
}

/// What a command asks for, given the words of its line, the first of
/// which is its name. Words after those that a command reads are ignored.
pub open spec fn request_of(command: KnownCommands, w: Seq<Seq<char>>) -> RequestView {
    match command {
        KnownCommands::Name => RequestView::Name,
        KnownCommands::Version => RequestView::Version,
        KnownCommands::ProtocolVersion => RequestView::ProtocolVersion,
        KnownCommands::ListCommands => RequestView::ListCommands,
        KnownCommands::KnownCommand => RequestView::KnownCommand(
            w.len() > 1 && KnownCommands::named(w[1]) is Some,
        ),
        KnownCommands::BoardSize => if w.len() > 1 && as_u8(w[1]) is Some {
            RequestView::BoardSize(as_u8(w[1])->0)
        } else {
            RequestView::Invalid
        },
        KnownCommands::ClearBoard => RequestView::ClearBoard,
        KnownCommands::Komi => if w.len() > 1 {
            RequestView::Komi(w[1])
        } else {
            RequestView::Invalid
        },
        KnownCommands::GenMove => if w.len() > 1 && Color::named(w[1]) is Some {
            RequestView::GenMove(Color::named(w[1])->0)
        } else {
            RequestView::Invalid
        },
        KnownCommands::Play => if w.len() > 2 && Move::named(w[1], w[2]) is Some {
            RequestView::Play(Move::named(w[1], w[2])->0)
        } else {
            RequestView::Invalid
        },
        KnownCommands::ShowBoard => RequestView::ShowBoard,
        KnownCommands::Quit => RequestView::Quit,
        KnownCommands::FinalScore => RequestView::FinalScore,
        KnownCommands::TimeSettings => if w.len() > 3 && as_u32(w[1]) is Some && as_u32(w[2]) is Some
            && as_i32(w[3]) is Some {
            RequestView::TimeSettings(as_u32(w[1])->0, as_u32(w[2])->0, as_i32(w[3])->0)
        } else {
            RequestView::Invalid
        },
        // The first argument is the colour; the time and the stones follow it.
        KnownCommands::TimeLeft => if w.len() > 3 && as_u32(w[2]) is Some && as_i32(w[3]) is Some {
            RequestView::TimeLeft(as_u32(w[2])->0, as_i32(w[3])->0)
        } else {
            RequestView::Invalid
        },
        KnownCommands::LoadSgf => if w.len() > 1 {
            RequestView::LoadSgf(w[1])
        } else {
            RequestView::Invalid
        },
    }
}

/// What a line of input asks for.
pub open spec fn parsed(input: Seq<char>) -> RequestView {
    let line = preprocessed(input);
    if line.len() == 0 {
        RequestView::Empty
    } else {
        match KnownCommands::named(words(line)[0]) {
            Some(command) => request_of(command, words(line)),
            None => RequestView::Invalid,
        }
    }
}

/// Reads a line of input.
pub fn parse(input: &str) -> (r: Request)
    ensures
        r@ == parsed(input@),
{
    let preprocessed = trim(&clean(&chars_of(input)));
    if preprocessed.len() == 0 {
        return Request::Empty;
    }
    let command = split(&preprocessed);
    //command[0] is never empty because a split always has at least one part
    let command_name = match recognize(&command[0]) {
        Some(comm) => comm,
        None => {
            return Request::Invalid;
        },
    };
    let n: usize = command.len();
    match command_name {
        KnownCommands::Name => Request::Name,
        KnownCommands::Version => Request::Version,
        KnownCommands::ProtocolVersion => Request::ProtocolVersion,
        KnownCommands::ListCommands => Request::ListCommands,
        KnownCommands::KnownCommand => if n > 1 {
            Request::KnownCommand(recognize(&command[1]).is_some())
        } else {
            Request::KnownCommand(false)
        },
        KnownCommands::BoardSize => if n > 1 {
            match parse_u8(&command[1]) {
                Some(size) => Request::BoardSize(size),
                None => Request::Invalid,
            }
        } else {
            Request::Invalid
        },
        KnownCommands::ClearBoard => Request::ClearBoard,
        KnownCommands::Komi => if n > 1 {
            let komi = string_of(&command[1], 0, command[1].len());
            assert(command@[1]@.subrange(0, command@[1]@.len() as int) =~= command@[1]@);
            Request::Komi(komi)
        } else {
            Request::Invalid
        },
        KnownCommands::GenMove => if n > 1 {
            match Color::parse(&command[1]) {
                Some(color) => Request::GenMove(color),
                None => Request::Invalid,
            }
        } else {
            Request::Invalid
        },
        KnownCommands::Play => if n > 2 {
            match Move::parse(&command[1], &command[2]) {
                Some(m) => Request::Play(m),
                None => Request::Invalid,
            }
        } else {
            Request::Invalid
        },
        KnownCommands::ShowBoard => Request::ShowBoard,
        KnownCommands::Quit => Request::Quit,
        KnownCommands::FinalScore => Request::FinalScore,
        KnownCommands::TimeSettings => if n > 3 {
            match (parse_u32(&command[1]), parse_u32(&command[2]), parse_i32(&command[3])) {
                (Some(main), Some(byo), Some(stones)) => Request::TimeSettings(main, byo, stones),
                _ => Request::Invalid,
            }
        } else {
            Request::Invalid
        },
        KnownCommands::TimeLeft => if n > 3 {
            match (parse_u32(&command[2]), parse_i32(&command[3])) {
                (Some(time), Some(stones)) => Request::TimeLeft(time, stones),
                _ => Request::Invalid,
            }
        } else {
            Request::Invalid
        },
        KnownCommands::LoadSgf => if n > 1 {
            let filename = string_of(&command[1], 0, command[1].len());
            assert(command@[1]@.subrange(0, command@[1]@.len() as int) =~= command@[1]@);
            Request::LoadSgf(filename)
        } else {
            Request::Invalid
        },
    }
}

/// The answer of the session to a line of input.
#[derive(Debug)]
pub enum Command {
    BoardSize,
    ClearBoard,
    Empty,
    Error,
    ErrorMessage(String),
    FinalScore(String),
    GenMove(String),
    GenMoveError(Move, IllegalMove),
    KnownCommand(bool),
    Komi,
    ListCommands(String),
    LoadSgf,
    Name,
    Play,
    PlayError(Move, IllegalMove),
    ProtocolVersion,
    Quit,
    ShowBoard(String),
    TimeLeft,
    TimeSettings,
    Version,
}

/// What is said of a file that cannot be loaded.
pub open spec fn cannot_load() -> Seq<char> {
    "cannot load file"@
}

impl Request {
    /// The answer to a request that asks nothing of the game, the timer or
    /// the engine; `None` for the others.
    pub fn answer(&self) -> (r: Option<Command>)
        ensures
            match self@ {
                RequestView::Empty => r == Some(Command::Empty),
                RequestView::Invalid => r == Some(Command::Error),
                RequestView::Name => r == Some(Command::Name),
                RequestView::Version => r == Some(Command::Version),
                RequestView::ProtocolVersion => r == Some(Command::ProtocolVersion),
                RequestView::ListCommands => (r matches Some(Command::ListCommands(names)) && names@
                    == KnownCommands::listing()),
                RequestView::KnownCommand(known) => r == Some(Command::KnownCommand(known)),
                _ => r is None,
            },
    {
        match self {
            Request::Empty => Some(Command::Empty),
            Request::Invalid => Some(Command::Error),
            Request::Name => Some(Command::Name),
            Request::Version => Some(Command::Version),
            Request::ProtocolVersion => Some(Command::ProtocolVersion),
            Request::ListCommands => Some(Command::ListCommands(KnownCommands::stringify())),
            Request::KnownCommand(known) => Some(Command::KnownCommand(*known)),
            _ => None,
        }
    }
}

impl Command {
    /// The answer to a move that was put to the game: the game took it, or
    /// turned it down for a reason.
    pub fn played(m: Move, outcome: Result<(), IllegalMove>) -> (c: Command)
        ensures
            c == match outcome {
                Ok(_) => Command::Play,
                Err(e) => Command::PlayError(m, e),
            },
    {
        match outcome {
            Ok(_) => Command::Play,
            Err(e) => Command::PlayError(m, e),
        }
    }

    /// The answer to a request for a move, once the engine has chosen `m`
    /// and the move was put to the game: the vertex of the move, or the move
    /// and why the game turned it down.
    pub fn generated(m: Move, outcome: Result<(), IllegalMove>) -> (c: Command)
        requires
            m matches Move::Play(_, point) ==> 1 <= point.col <= 25,
        ensures
            match outcome {
                Ok(_) => (c matches Command::GenMove(vertex) && vertex@ == m.gtp()),
                Err(e) => c == Command::GenMoveError(m, e),
            },
    {
        match outcome {
            Ok(_) => Command::GenMove(m.to_gtp()),
            Err(e) => Command::GenMoveError(m, e),
        }
    }

    /// The answer to a request to load a file.
    pub fn loaded(done: bool) -> (c: Command)
        ensures
            done ==> c == Command::LoadSgf,
            !done ==> (c matches Command::ErrorMessage(message) && message@ == cannot_load()),
    {
        if done {
            Command::LoadSgf
        } else {
            Command::ErrorMessage("cannot load file".to_string())
        }
    }
}

} // verus!
