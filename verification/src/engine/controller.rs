//! The controller: what it does with each command of the protocol layer.

use vstd::prelude::*;
use crate::board::Color;

verus! {

/// What the protocol layer asks of the controller: a move for a colour in
/// a game within the time that a timer gives, a fresh start, or the end.
pub enum ControllerCommand<G, T> {
    GenMove(G, Color, T),
    Reset,
    ShutDown,
}

/// What the controller does next.
pub enum ControllerAction<G, T> {
    /// Let the engine search, and hand its move to the protocol layer.
    Search(G, Color, T),
    /// Let the engine drop what it kept of the last game.
    Reset,
    /// Leave the loop.
    Exit,
}

/// The state of the controller: whether it still takes commands.
pub struct Controller {
    stopped: bool,
}

impl Controller {
    pub closed spec fn stopped(&self) -> bool {
        self.stopped
    }

    /// What a controller that is running does on a command, and on `None`,
    /// which stands for a command channel that has failed.
    pub open spec fn reaction<G, T>(received: Option<ControllerCommand<G, T>>) -> ControllerAction<G, T> {
        match received {
            Some(ControllerCommand::GenMove(game, color, timer)) => ControllerAction::Search(
                game,
                color,
                timer,
            ),
            Some(ControllerCommand::Reset) => ControllerAction::Reset,
            Some(ControllerCommand::ShutDown) => ControllerAction::Exit,
            None => ControllerAction::Exit,
        }
    }

    pub fn new() -> (c: Controller)
        ensures
            !c.stopped(),
    {
        Controller { stopped: false }
    }

    /// What the controller does on what it received. A command to move
    /// starts one search, a reset resets the engine, and a shutdown or a
    /// failed channel ends the loop. Once it has ended, nothing is searched
    /// any more.
    pub fn handle<G, T>(&mut self, received: Option<ControllerCommand<G, T>>) -> (action: ControllerAction<
        G,
        T,
    >)
        ensures
            old(self).stopped() ==> action is Exit,
            !old(self).stopped() ==> action == Controller::reaction(received),
            final(self).stopped() == (action is Exit),
    {
        if self.stopped {
            return ControllerAction::Exit;
        }
        match received {
            Some(ControllerCommand::GenMove(game, color, timer)) => ControllerAction::Search(
                game,
                color,
                timer,
            ),
            Some(ControllerCommand::Reset) => ControllerAction::Reset,
            Some(ControllerCommand::ShutDown) => {
                self.stopped = true;
                ControllerAction::Exit
            },
            None => {
                self.stopped = true;
                ControllerAction::Exit
            },
        }
    }
}

/// The quotient of `a` by `b`, rounded to the nearest whole number, and up
/// where two are as near.
pub open spec fn rounded_quotient(a: int, b: int) -> int {
    (2 * a + b) / (2 * b)
}

/// The speed of a search: playouts in a second, and playouts in a second
/// for each worker, both rounded. There is no speed where no time has
/// passed or nothing has worked.
pub fn playout_speed(duration_ns: u64, playouts: usize, threads: usize) -> (r: Option<(u128, u128)>)
    ensures
        r is None <==> duration_ns == 0 || threads == 0,
        r matches Some((all, each)) ==> {
            &&& all == rounded_quotient(playouts * 1_000_000_000, duration_ns as int)
            &&& each == rounded_quotient(playouts * 1_000_000_000, duration_ns * threads)
        },
{
    if duration_ns == 0 || threads == 0 {
        return None;
    }
    let work: u128 = playouts as u128 * 1_000_000_000u128;
    let time: u128 = duration_ns as u128;
    assert(time * threads <= 0xffff_ffff_ffff_ffff * 0xffff_ffff_ffff_ffff && time * threads >= 1)
        by (nonlinear_arith)
        requires
            1 <= time <= 0xffff_ffff_ffff_ffff,
            1 <= threads <= 0xffff_ffff_ffff_ffff,
    ;
    let shared: u128 = time * threads as u128;
    let all: u128 = divide_rounded(work, time);
    let each: u128 = divide_rounded(work, shared);
    Some((all, each))
}

fn divide_rounded(a: u128, b: u128) -> (q: u128)
    requires
        a <= 0xffff_ffff_ffff_ffff * 1_000_000_000,
        1 <= b <= 0xffff_ffff_ffff_ffff * 0xffff_ffff_ffff_ffff,
    ensures
        q == rounded_quotient(a as int, b as int),
{
    let q: u128 = a / b;
    let r: u128 = a % b;
    assert(a == b * q + r && 0 <= r < b) by (nonlinear_arith)
        requires
            q == a / b,
            r == a % b,
            b >= 1,
    ;
    let up: bool = r >= b - r;
    proof {
        let (ai, bi, qi, ri) = (a as int, b as int, q as int, r as int);
        if up {
            assert((2 * ai + bi) / (2 * bi) == qi + 1) by (nonlinear_arith)
                requires
                    ai == bi * qi + ri,
                    0 <= ri < bi,
                    2 * ri >= bi,
            ;
        } else {
            assert((2 * ai + bi) / (2 * bi) == qi) by (nonlinear_arith)
                requires
                    ai == bi * qi + ri,
                    0 <= ri < bi,
                    2 * ri < bi,
            ;
        }
    }
    if up {
        q + 1
    } else {
        q
    }
}

} // verus!
