//! A pluggable adversarial tree-search engine: an alpha-beta-pruned negamax
//! driver that explores a two-player, zero-sum decision tree to a bounded
//! depth and returns the best move together with its evaluation.
//!
//! The driver is domain-agnostic. It knows nothing about boards, legality or
//! evaluation; all of that is injected through the five operations of
//! [`CallbackCatalog`], which a caller implements on its own game-engine
//! adapter. The driver only orchestrates the calls in a fixed protocol:
//! generate candidates, apply a move, fold the child evaluation back with a
//! sign flip, compare against the running best, undo the move.

use vstd::prelude::*;

verus! {

/// The reserved move identifier meaning "no move chosen" (resignation).
/// Returned when a node has no legal candidate, or when the search aborts
/// before any candidate was tried.
pub const RESIGN_HASH: u64 = 0;

/// The most negative evaluation a callback may produce or receive. The full
/// extreme of a 16-bit signed integer is deliberately left unused so that
/// negating a score across a ply boundary can never overflow.
pub const SCORE_FLOOR: i16 = -32767;

/// Counters threaded by mutable reference through every recursion frame.
/// The driver bumps `nodes` each time a move is undone (once per explored
/// child), so the leaf-evaluation callback can report progress without the
/// driver knowing what progress means to the caller.
pub struct DisplayInformation {
    /// Number of moves undone so far in this search. The driver only ever
    /// increases it, saturating at `i64::MAX` instead of wrapping.
    pub nodes: i64,
}

impl DisplayInformation {
    /// A fresh counter, created once at the top of a search and shared by
    /// every frame below it.
    pub fn new() -> (r: DisplayInformation)
        ensures
            r.nodes == 0,
    {
        DisplayInformation { nodes: 0 }
    }
}

/// How a recursion frame came to an end.
///
/// The two-tier cutoff protocol distinguishes local pruning from global
/// abandonment: a `LocalCutoff` stops the siblings of one node only, while
/// `AbortAll` unwinds every enclosing frame up to the root.
#[derive(Clone, Copy, Debug, PartialEq, Eq, Structural)]
pub enum SearchOutcome {
    /// Every candidate of the frame was considered.
    Completed,
    /// The frame stopped early for a node-local reason: either the
    /// comparison callback signalled a beta-cutoff, or applying a move
    /// signalled its own tactical cutoff.
    LocalCutoff,
    /// A callback (or a deeper frame) asked for the whole search to unwind.
    AbortAll,
}

/// Ghost record of how often the driver invoked each callback during one
/// frame, deeper recursion included. It makes the calling discipline part of
/// the driver's contract: applies and undos balance exactly, and a
/// depth-zero call touches nothing but the leaf evaluator.
pub ghost struct CallbackTally {
    /// Calls of `pick_movements_callback`.
    pub pick_movements: nat,
    /// Calls of `makemove_callback`.
    pub makemove: nat,
    /// Calls of `unmakemove_callback`.
    pub unmakemove: nat,
    /// Calls of `visit_leaf_callback`.
    pub visit_leaf: nat,
    /// Calls of `compare_best_callback`.
    pub compare_best: nat,
}

/// The five operations a caller injects into the search.
///
/// The implementor is the caller's context object: the driver holds no game
/// state of its own, forwards `self` to every operation unchanged, and all
/// side effects of applying a move are expected to be reversed by the
/// matching undo call.
///
/// The contracts below are the narrow part of the bargain the driver relies
/// on: evaluations stay in the symmetric score range (so the negamax sign
/// flip cannot overflow), the alpha bound only ever rises (the search window
/// narrows monotonically), and a comparison that leaves alpha at or above
/// beta must announce the cutoff.
pub trait CallbackCatalog {
    /// Evaluate the position reached at a leaf of the tree, from the
    /// perspective of the side to move. Invoked only when the driver has no
    /// deeper recursion to perform. The counters are read-only here; the
    /// driver alone updates them.
    fn visit_leaf_callback(&mut self, display_information: &DisplayInformation) -> (evaluation: i16)
        ensures
            SCORE_FLOOR <= evaluation;

    /// Apply a candidate move to the position. `alpha` may be raised here
    /// (a tactical improvement discovered while making the move); the
    /// returned flag asks the driver to skip evaluation and comparison for
    /// this candidate, undo it at once, and stop exploring its siblings.
    fn makemove_callback(&mut self, movement_hash: u64, alpha: &mut i16) -> (cutoff: bool)
        requires
            SCORE_FLOOR <= *old(alpha),
        ensures
            *old(alpha) <= *final(alpha);

    /// Restore the position to what it was before the most recent
    /// `makemove_callback`. The driver calls this exactly once for every
    /// apply, on cutoff and abort paths included.
    fn unmakemove_callback(&mut self);

    /// Produce the candidate moves of the current node. The second
    /// component, when true, signals that generation itself was interrupted
    /// and the entire search must unwind immediately without trying any
    /// move.
    fn pick_movements_callback(&mut self, max_depth: i16, cur_depth: i16) -> (r: (Vec<u64>, bool));

    /// Decide whether `evaluation` improves on the running best move, and
    /// whether beta now prunes this node. The first returned flag is the
    /// beta-cutoff, the second asks the whole search to unwind. A best-move
    /// update may only install the candidate under comparison, alpha may
    /// only rise, and whenever the callback declines to cut off it must
    /// leave the window open: alpha strictly below beta.
    fn compare_best_callback(
        &mut self,
        best_movement_hash: &mut u64,
        alpha: &mut i16,
        beta: i16,
        movement_hash: u64,
        evaluation: i16,
    ) -> (r: (bool, bool))
        requires
            SCORE_FLOOR <= *old(alpha),
        ensures
            *old(alpha) <= *final(alpha),
            !r.0 ==> *final(alpha) < beta,
            *final(best_movement_hash) == *old(best_movement_hash)
                || *final(best_movement_hash) == movement_hash;
}

/// What one recursion frame hands back to its caller: the best move it
/// settled on (or [`RESIGN_HASH`]), that move's evaluation, how the frame
/// ended, and the ghost tally of callback invocations it performed.
pub struct FrameReturn {
    /// The chosen move, or `RESIGN_HASH` when no candidate was adopted.
    pub best_movement_hash: u64,
    /// The evaluation standing beside the chosen move; the incoming floor
    /// when nothing was adopted or the frame unwound.
    pub evaluation: i16,
    /// How the frame came to an end.
    pub outcome: SearchOutcome,
    /// Ghost count of callback calls made by this frame and everything
    /// below it.
    pub tally: Ghost<CallbackTally>,
}

/// One frame of the negamax recursion: the full driver, with its calling
/// discipline spelled out in the contract.
///
/// Protocol: at depth zero the frame delegates to the leaf evaluator and
/// makes no move. Otherwise it asks for candidates, and for each one in
/// turn applies it, obtains an evaluation (directly at the last ply, else
/// by recursing with the window swapped and negated and flipping the sign
/// of the child's score), lets the comparison callback fold that into the
/// running best, and undoes the move — always, whichever branch ran.
///
/// Abort-all, from whichever callback or deeper frame it came, makes every
/// frame on the way out return `RESIGN_HASH` with its own incoming floor,
/// untouched — cancellation is a normal return value here, never an error.
///
/// The contract pins the rest of the protocol down: applies and undos
/// balance exactly; `nodes` advances by precisely the number of undos (until
/// it would overflow, where it saturates); a depth-zero call runs the leaf
/// evaluator once and nothing else; a frame that completed its loop leaves
/// alpha strictly under beta unless no candidate ever moved it off the
/// floor; and the evaluation returned never drops below the incoming floor.
pub fn search_frame<T: CallbackCatalog>(
    t: &mut T,
    max_depth: i16,
    cur_depth: i16,
    min_alpha: i16,
    beta: i16,
    display_information: &mut DisplayInformation,
) -> (r: FrameReturn)
    requires
        0 <= cur_depth,
        SCORE_FLOOR <= min_alpha,
        SCORE_FLOOR <= beta,
    ensures
        SCORE_FLOOR <= r.evaluation,
        cur_depth > 0 ==> min_alpha <= r.evaluation,
        r.outcome == SearchOutcome::AbortAll ==> r.best_movement_hash == RESIGN_HASH
            && r.evaluation == min_alpha,
        cur_depth > 0 && r.outcome == SearchOutcome::Completed ==> r.evaluation == min_alpha
            || r.evaluation < beta,
        cur_depth == 0 ==> r.best_movement_hash == RESIGN_HASH
            && r.outcome == SearchOutcome::Completed
            && r.tally@.visit_leaf == 1
            && r.tally@.pick_movements == 0
            && r.tally@.makemove == 0
            && r.tally@.unmakemove == 0
            && r.tally@.compare_best == 0,
        r.tally@.makemove == r.tally@.unmakemove,
        old(display_information).nodes <= final(display_information).nodes,
        old(display_information).nodes + r.tally@.unmakemove <= i64::MAX
            ==> final(display_information).nodes == old(display_information).nodes
                + r.tally@.unmakemove,
    decreases cur_depth,
{
    if cur_depth == 0 {
        // Terminal frame: evaluate in place; no move was made at this call.
        let evaluation = t.visit_leaf_callback(display_information);
        return FrameReturn {
            best_movement_hash: RESIGN_HASH,
            evaluation,
            outcome: SearchOutcome::Completed,
            tally: Ghost(
                CallbackTally {
                    pick_movements: 0,
                    makemove: 0,
                    unmakemove: 0,
                    visit_leaf: 1,
                    compare_best: 0,
                },
            ),
        };
    }

    let (movements, quittance) = t.pick_movements_callback(max_depth, cur_depth);
    if quittance {
        // Generation itself was interrupted: unwind without trying a move.
        return FrameReturn {
            best_movement_hash: RESIGN_HASH,
            evaluation: min_alpha,
            outcome: SearchOutcome::AbortAll,
            tally: Ghost(
                CallbackTally {
                    pick_movements: 1,
                    makemove: 0,
                    unmakemove: 0,
                    visit_leaf: 0,
                    compare_best: 0,
                },
            ),
        };
    }

    let ghost nodes_at_entry: int = display_information.nodes as int;
    let ghost mut n_pick_movements: nat = 1;
    let ghost mut n_makemove: nat = 0;
    let ghost mut n_unmakemove: nat = 0;
    let ghost mut n_visit_leaf: nat = 0;
    let ghost mut n_compare_best: nat = 0;

    let mut best_movement_hash: u64 = RESIGN_HASH;  // no candidate: resign
    let mut alpha: i16 = min_alpha;
    let mut outcome = SearchOutcome::Completed;
    let mut i: usize = 0;

    while i < movements.len() && outcome == SearchOutcome::Completed
        invariant
            i <= movements.len(),
            1 <= cur_depth,
            SCORE_FLOOR <= min_alpha,
            SCORE_FLOOR <= beta,
            min_alpha <= alpha,
            outcome == SearchOutcome::Completed ==> alpha == min_alpha || alpha < beta,
            n_makemove == n_unmakemove,
            nodes_at_entry <= display_information.nodes,
            nodes_at_entry + n_unmakemove <= i64::MAX
                ==> display_information.nodes == nodes_at_entry + n_unmakemove,
        decreases movements.len() - i,
    {
        let movement_hash: u64 = movements[i];

        let makemove_cutoff = t.makemove_callback(movement_hash, &mut alpha);
        proof {
            n_makemove = n_makemove + 1;
        }
        if makemove_cutoff {
            // Tactical cutoff discovered while making the move: skip the
            // evaluation and the comparison, undo, and stop this node.
            outcome = SearchOutcome::LocalCutoff;
        } else {
            let mut child_aborted = false;
            let mut child_evaluation: i16 = 0;
            if cur_depth - 1 == 0 {
                // The next ply is the last: evaluate the position directly.
                child_evaluation = t.visit_leaf_callback(display_information);
                proof {
                    n_visit_leaf = n_visit_leaf + 1;
                }
            } else {
                // Recurse with the window swapped and negated, then flip
                // the sign: a good outcome for the opponent is a bad one
                // for the mover.
                let child = search_frame(t, max_depth, cur_depth - 1, -beta, -alpha,
                    display_information);
                proof {
                    n_pick_movements = n_pick_movements + child.tally@.pick_movements;
                    n_makemove = n_makemove + child.tally@.makemove;
                    n_unmakemove = n_unmakemove + child.tally@.unmakemove;
                    n_visit_leaf = n_visit_leaf + child.tally@.visit_leaf;
                    n_compare_best = n_compare_best + child.tally@.compare_best;
                }
                if child.outcome == SearchOutcome::AbortAll {
                    child_aborted = true;
                } else {
                    child_evaluation = -child.evaluation;
                }
            }
            if child_aborted {
                outcome = SearchOutcome::AbortAll;
            } else {
                let (beta_cutoff, quittance2) = t.compare_best_callback(
                    &mut best_movement_hash,
                    &mut alpha,
                    beta,
                    movement_hash,
                    child_evaluation,
                );
                proof {
                    n_compare_best = n_compare_best + 1;
                }
                if quittance2 {
                    outcome = SearchOutcome::AbortAll;
                } else if beta_cutoff {
                    outcome = SearchOutcome::LocalCutoff;
                }
            }
        }

        // Undo the move — always, whichever branch was taken above — and
        // count the explored child.
        t.unmakemove_callback();
        proof {
            n_unmakemove = n_unmakemove + 1;
        }
        if display_information.nodes < i64::MAX {
            display_information.nodes = display_information.nodes + 1;
        }
        i = i + 1;
    }

    let tally = Ghost(
        CallbackTally {
            pick_movements: n_pick_movements,
            makemove: n_makemove,
            unmakemove: n_unmakemove,
            visit_leaf: n_visit_leaf,
            compare_best: n_compare_best,
        },
    );
    if outcome == SearchOutcome::AbortAll {
        // Cancellation discards the frame's progress: the sentinel with the
        // incoming floor, exactly as if generation had declined up front.
        FrameReturn { best_movement_hash: RESIGN_HASH, evaluation: min_alpha, outcome, tally }
    } else {
        FrameReturn { best_movement_hash, evaluation: alpha, outcome, tally }
    }
}

/// The single entry point: search to `cur_depth` plies below the current
/// position and return the move the caller should play with its evaluation.
///
/// `max_depth` and `cur_depth` are the same bounded-depth counter at the
/// root (conventionally equal); `cur_depth` falls by one per recursion level
/// and reaching zero triggers leaf evaluation. `min_alpha` is the caller's
/// floor and `beta` its ceiling; both must stay at or above [`SCORE_FLOOR`]
/// so that negating them across a ply boundary is safe.
///
/// A result of ([`RESIGN_HASH`], `min_alpha`) means "no move available":
/// either no candidate existed, or the search was aborted before any was
/// adopted. Callers must read it as resignation, not as an error.
pub fn search<T: CallbackCatalog>(
    t: &mut T,
    max_depth: i16,
    cur_depth: i16,
    min_alpha: i16,
    beta: i16,
    display_information: &mut DisplayInformation,
) -> (r: (u64, i16))
    requires
        0 <= cur_depth,
        SCORE_FLOOR <= min_alpha,
        SCORE_FLOOR <= beta,
    ensures
        SCORE_FLOOR <= r.1,
        cur_depth > 0 ==> min_alpha <= r.1,
        cur_depth == 0 ==> r.0 == RESIGN_HASH,
        old(display_information).nodes <= final(display_information).nodes,
{
    let frame = search_frame(t, max_depth, cur_depth, min_alpha, beta, display_information);
    (frame.best_movement_hash, frame.evaluation)
}

/// A catalog of inert defaults: no candidates, zero evaluation, no cutoffs
/// beyond the obligatory one when the window has closed. A search running
/// over it resigns everywhere immediately, which makes it a safe stand-in
/// while a caller wires up its real operations one by one.
pub struct InertCatalog;

impl CallbackCatalog for InertCatalog {
    fn visit_leaf_callback(&mut self, _display_information: &DisplayInformation) -> (evaluation: i16) {
        0
    }

    fn makemove_callback(&mut self, _movement_hash: u64, _alpha: &mut i16) -> (cutoff: bool) {
        false
    }

    fn unmakemove_callback(&mut self) {
    }

    fn pick_movements_callback(&mut self, _max_depth: i16, _cur_depth: i16) -> (r: (Vec<u64>, bool)) {
        (Vec::new(), false)
    }

    fn compare_best_callback(
        &mut self,
        _best_movement_hash: &mut u64,
        alpha: &mut i16,
        beta: i16,
        _movement_hash: u64,
        _evaluation: i16,
    ) -> (r: (bool, bool)) {
        (*alpha >= beta, false)
    }
}

} // verus!
