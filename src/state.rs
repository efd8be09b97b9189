use vstd::prelude::*;

verus! {

/// Stages of kernel execution, in the only order in which they may follow each other.
#[derive(Debug, Clone, Copy, PartialEq, Eq, Structural)]
pub enum State {
    Init,
    SingleCoreMain,
    MultiCoreMain,
}

/// Maintains the kernel state and its transitions.
pub struct StateManager {
    raw: u8,
}

pub const INIT: u8 = 0;
pub const SINGLE_CORE_MAIN: u8 = 1;
pub const MULTI_CORE_MAIN: u8 = 2;

/// The phase that a stored raw value stands for.
pub open spec fn state_of(raw: u8) -> State {
    if raw == INIT {
        State::Init
    } else if raw == SINGLE_CORE_MAIN {
        State::SingleCoreMain
    } else {
        State::MultiCoreMain
    }
}

/// The phases during which at most one core runs kernel code.
pub open spec fn single_core_phase(s: State) -> bool {
    s == State::Init || s == State::SingleCoreMain
}

/// Whether the transition to SingleCoreMain may be taken from phase `s`: only from Init.
pub open spec fn may_enter_single_core_main(s: State) -> bool {
    s == State::Init
}

/// The transition to SingleCoreMain, taken from Init, leaves the kernel single-core and out of
/// the init phase, so a second transition is not allowed.
pub proof fn lemma_transition_once(before: State, after: State)
    requires
        may_enter_single_core_main(before),
        after == State::SingleCoreMain,
    ensures
        single_core_phase(after),
        after != State::Init,
        !may_enter_single_core_main(after),
{
}

impl StateManager {
    pub closed spec fn wf(&self) -> bool {
        self.raw <= MULTI_CORE_MAIN
    }

    pub closed spec fn view(&self) -> State {
        state_of(self.raw)
    }

    /// Create a new instance, in the init phase.
    pub fn new() -> (r: StateManager)
        ensures
            r.wf(),
            r.view() == State::Init,
    {
        StateManager { raw: INIT }
    }

    /// Return the current state.
    pub fn state(&self) -> (r: State)
        requires
            self.wf(),
        ensures
            r == self.view(),
    {
        if self.raw == INIT {
            State::Init
        } else if self.raw == SINGLE_CORE_MAIN {
            State::SingleCoreMain
        } else {
            State::MultiCoreMain
        }
    }

    /// Return if the kernel is in the init state.
    pub fn is_init(&self) -> (r: bool)
        requires
            self.wf(),
        ensures
            r == (self.view() == State::Init),
    {
        match self.state() {
            State::Init => true,
            _ => false,
        }
    }

    /// Return if the kernel is in a single core state.
    pub fn is_single_core(&self) -> (r: bool)
        requires
            self.wf(),
        ensures
            r == single_core_phase(self.view()),
    {
        match self.state() {
            State::Init | State::SingleCoreMain => true,
            State::MultiCoreMain => false,
        }
    }

    /// Transition from Init to SingleCoreMain. Taking it from any other phase is a programming
    /// error, which callers must rule out.
    pub fn transition_to_single_core_main(&mut self)
        requires
            old(self).wf(),
            may_enter_single_core_main(old(self).view()),
        ensures
            final(self).wf(),
            final(self).view() == State::SingleCoreMain,
    {
        self.raw = SINGLE_CORE_MAIN;
    }
}

} // verus!
