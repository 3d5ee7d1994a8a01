//! The phase state machine sequencing the game.
//!
//! Exactly one `GamePhase` is active at a time. A `Transition` is a one-shot
//! request carrying its `(from, to)` pair as data; the pair is validated
//! against the transition table when the request is built, so every
//! `Transition` value in existence names one of the nine allowed edges —
//! `lemma_transition_valid` states that law. Each request is raised by one
//! input-driven producer (or by the player's death) and consumed by the
//! simulation context, which performs the exit and entry work.

use vstd::prelude::*;
use crate::input::InputSnapshot;

verus! {

/// The mutually exclusive high-level modes of the game.
#[derive(Clone, Copy, Debug, PartialEq, Eq, Structural)]
pub enum GamePhase {
    MainMenu,
    Guide,
    Running,
    Paused,
    LoseScreen,
}

/// The transition table: the nine edges the phase machine may take.
pub open spec fn valid_transition(from: GamePhase, to: GamePhase) -> bool {
    ||| (from is MainMenu && to is Running)
    ||| (from is MainMenu && to is Guide)
    ||| (from is Guide && to is MainMenu)
    ||| (from is Running && to is Paused)
    ||| (from is Running && to is LoseScreen)
    ||| (from is Paused && to is Running)
    ||| (from is Paused && to is MainMenu)
    ||| (from is LoseScreen && to is Running)
    ||| (from is LoseScreen && to is MainMenu)
}

/// A one-shot phase-change request. Values only exist for pairs in the
/// transition table.
#[derive(Clone, Copy, Debug)]
pub struct Transition {
    from: GamePhase,
    to: GamePhase,
}

impl Transition {
    /// Well-formed: the pair is an edge of the transition table. `new` is
    /// the only constructor and establishes this, so every `Transition` a
    /// caller can hold is well-formed.
    pub closed spec fn wf(self) -> bool {
        valid_transition(self.from, self.to)
    }

    /// The phase the request leaves.
    pub closed spec fn spec_from(self) -> GamePhase {
        self.from
    }

    /// The phase the request enters.
    pub closed spec fn spec_to(self) -> GamePhase {
        self.to
    }

    /// Builds a request, validating the pair against the transition table.
    pub fn new(from: GamePhase, to: GamePhase) -> (t: Option<Transition>)
        ensures
            t is Some <==> valid_transition(from, to),
            t matches Some(tr) ==> tr.spec_from() == from && tr.spec_to() == to && tr.wf(),
    {
        let allowed = match (from, to) {
            (GamePhase::MainMenu, GamePhase::Running) => true,
            (GamePhase::MainMenu, GamePhase::Guide) => true,
            (GamePhase::Guide, GamePhase::MainMenu) => true,
            (GamePhase::Running, GamePhase::Paused) => true,
            (GamePhase::Running, GamePhase::LoseScreen) => true,
            (GamePhase::Paused, GamePhase::Running) => true,
            (GamePhase::Paused, GamePhase::MainMenu) => true,
            (GamePhase::LoseScreen, GamePhase::Running) => true,
            (GamePhase::LoseScreen, GamePhase::MainMenu) => true,
            _ => false,
        };
        if allowed {
            Some(Transition { from, to })
        } else {
            None
        }
    }

    pub fn from_phase(&self) -> (p: GamePhase)
        ensures
            p == self.spec_from(),
    {
        self.from
    }

    pub fn to_phase(&self) -> (p: GamePhase)
        ensures
            p == self.spec_to(),
    {
        self.to
    }
}

/// Whether `t` holds a request for exactly the edge `from → to`.
pub open spec fn is_transition(t: Option<Transition>, from: GamePhase, to: GamePhase) -> bool {
    t matches Some(tr) && tr.spec_from() == from && tr.spec_to() == to
}

/// Law: every well-formed transition request — and `new`, the only
/// constructor, builds no other — names an edge of the transition table,
/// so from any phase only the nine enumerated transitions are reachable.
pub proof fn lemma_transition_valid(t: Transition)
    requires
        t.wf(),
    ensures
        valid_transition(t.spec_from(), t.spec_to()),
{
}

/// The request main-menu input raises: the guide key opens the guide,
/// otherwise the confirm key starts a run.
pub fn handle_menu_input(input: &InputSnapshot) -> (t: Option<Transition>)
    ensures
        t is Some <==> input.guide_key || input.confirm,
        t matches Some(tr) ==> tr.wf(),
        input.guide_key ==> (t matches Some(tr)
            && tr.spec_from() is MainMenu && tr.spec_to() is Guide),
        !input.guide_key && input.confirm ==> (t matches Some(tr)
            && tr.spec_from() is MainMenu && tr.spec_to() is Running),
{
    if input.guide_key {
        Transition::new(GamePhase::MainMenu, GamePhase::Guide)
    } else if input.confirm {
        Transition::new(GamePhase::MainMenu, GamePhase::Running)
    } else {
        None
    }
}

/// The request pause input raises: the home key returns to the menu,
/// otherwise the resume key resumes the run.
pub fn handle_paused_input(input: &InputSnapshot) -> (t: Option<Transition>)
    ensures
        t is Some <==> input.home || input.resume,
        t matches Some(tr) ==> tr.wf(),
        input.home ==> (t matches Some(tr)
            && tr.spec_from() is Paused && tr.spec_to() is MainMenu),
        !input.home && input.resume ==> (t matches Some(tr)
            && tr.spec_from() is Paused && tr.spec_to() is Running),
{
    if input.home {
        Transition::new(GamePhase::Paused, GamePhase::MainMenu)
    } else if input.resume {
        Transition::new(GamePhase::Paused, GamePhase::Running)
    } else {
        None
    }
}

/// The request guide input raises: escape returns to the menu.
pub fn handle_guide_input(input: &InputSnapshot) -> (t: Option<Transition>)
    ensures
        t is Some <==> input.escape,
        t matches Some(tr) ==> tr.wf(),
        input.escape ==> (t matches Some(tr)
            && tr.spec_from() is Guide && tr.spec_to() is MainMenu),
{
    if input.escape {
        Transition::new(GamePhase::Guide, GamePhase::MainMenu)
    } else {
        None
    }
}

/// The request lose-screen input raises: escape returns to the menu,
/// otherwise confirm starts a fresh run.
pub fn handle_lose_screen_input(input: &InputSnapshot) -> (t: Option<Transition>)
    ensures
        t is Some <==> input.escape || input.confirm,
        t matches Some(tr) ==> tr.wf(),
        input.escape ==> (t matches Some(tr)
            && tr.spec_from() is LoseScreen && tr.spec_to() is MainMenu),
        !input.escape && input.confirm ==> (t matches Some(tr)
            && tr.spec_from() is LoseScreen && tr.spec_to() is Running),
{
    if input.escape {
        Transition::new(GamePhase::LoseScreen, GamePhase::MainMenu)
    } else if input.confirm {
        Transition::new(GamePhase::LoseScreen, GamePhase::Running)
    } else {
        None
    }
}

} // verus!
