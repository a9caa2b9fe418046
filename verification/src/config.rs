//! The options of the engine.

use vstd::prelude::*;

verus! {

/// Options of the tree search.
#[derive(Clone, Copy, Debug)]
pub struct UctConfig {
    /// How often a node has to be visited before it gets children.
    pub expand_after: usize,
}

/// Options of the playouts.
#[derive(Clone, Copy, Debug)]
pub struct PlayoutConfig {
    /// A move that puts its own chain into atari is played only if that
    /// chain has fewer stones than this.
    pub no_self_atari_cutoff: usize,
    /// Whether a playout first tries to save a chain of its own in atari.
    pub atari_check: bool,
    /// Whether saving moves are checked for ladders.
    pub ladder_check: bool,
    /// Whether a playout looks for moves that match a pattern.
    pub use_patterns: bool,
    /// In how many of a hundred turns the patterns are consulted.
    pub pattern_probability: u8,
    /// How many of the last moves mark out the points at which patterns are
    /// looked for.
    pub last_moves_for_heuristics: usize,
    /// Whether a move into an eye of several points is moved to its middle.
    pub play_in_middle_of_eye: bool,
}

/// The options that the search and the playouts consult.
#[derive(Clone, Copy, Debug)]
pub struct Config {
    pub log: bool,
    pub playout: PlayoutConfig,
    /// The number of workers that search in parallel, at least 1.
    pub threads: usize,
    pub uct: UctConfig,
}

impl Config {
    /// One worker, children after the first visit, self-atari allowed for
    /// chains of fewer than 7 stones, and every other option switched off.
    pub fn default() -> (c: Config)
        ensures
            !c.log,
            c.threads == 1,
            c.uct.expand_after == 1,
            c.playout.no_self_atari_cutoff == 7,
            !c.playout.atari_check,
            !c.playout.ladder_check,
            !c.playout.use_patterns,
            c.playout.pattern_probability == 0,
            c.playout.last_moves_for_heuristics == 0,
            !c.playout.play_in_middle_of_eye,
    {
        Config {
            log: false,
            playout: PlayoutConfig {
                no_self_atari_cutoff: 7,
                atari_check: false,
                ladder_check: false,
                use_patterns: false,
                pattern_probability: 0,
                last_moves_for_heuristics: 0,
                play_in_middle_of_eye: false,
            },
            threads: 1,
            uct: UctConfig { expand_after: 1 },
        }
    }
}

} // verus!
