//! The application state stack.
//!
//! The application holds a stack of states, never empty: entering pushes a
//! new top state, exiting pops it and reveals the previous top as resumed,
//! and `set` replaces the top. Each operation reports the transition
//! callbacks it fires, in order, so a caller can run the matching
//! enter/exit/pause/resume steps.

use vstd::prelude::*;

verus! {

/// One application-level state.
#[derive(Debug, Clone, Copy, PartialEq, Eq, Hash, Structural)]
pub enum AppState {
    MainMenu,
    OverWorld,
    Combat,
    Fadeout,
}

/// A transition callback fired by a stack operation, in the order reported.
#[derive(Debug, Clone, Copy, PartialEq, Eq, Structural)]
pub enum Transition {
    /// The state became newly current via push or set.
    Enter(AppState),
    /// The state was popped or replaced.
    Exit(AppState),
    /// Another state was pushed above this one; it stays on the stack.
    Pause(AppState),
    /// The state above this one was popped; it is current again.
    Resume(AppState),
}

/// Error reported by a stack operation that would empty the stack.
#[derive(Debug, Clone, Copy, PartialEq, Eq, Structural)]
pub enum StateStackError {
    /// A pop was asked of a stack holding only its initial state.
    WouldEmptyStack,
}

/// The stack of application states. The last element is the current state.
#[derive(Debug)]
pub struct StateStack {
    states: Vec<AppState>,
}

impl View for StateStack {
    type V = Seq<AppState>;

    closed spec fn view(&self) -> Seq<AppState> {
        self.states@
    }
}

impl StateStack {
    /// The stack is never empty during normal operation.
    pub open spec fn wf(self) -> bool {
        self@.len() >= 1
    }

    /// A stack holding only the given initial state.
    pub fn new(initial: AppState) -> (s: Self)
        ensures
            s.wf(),
            s@ == seq![initial],
    {
        let mut states: Vec<AppState> = Vec::new();
        states.push(initial);
        proof {
            assert(states@ =~= seq![initial]);
        }
        StateStack { states }
    }

    /// The current state: the top of the stack.
    pub fn current(&self) -> (s: AppState)
        requires
            self.wf(),
        ensures
            s == self@.last(),
    {
        self.states[self.states.len() - 1]
    }

    /// How many states the stack holds.
    pub fn len(&self) -> (n: usize)
        ensures
            n == self@.len(),
    {
        self.states.len()
    }

    /// Pushes a new current state: the old top is paused, the new one
    /// entered.
    pub fn push(&mut self, state: AppState) -> (t: Vec<Transition>)
        requires
            old(self).wf(),
            old(self)@.len() < usize::MAX,
        ensures
            final(self).wf(),
            final(self)@ == old(self)@.push(state),
            t@ == seq![Transition::Pause(old(self)@.last()), Transition::Enter(state)],
    {
        let paused = self.current();
        self.states.push(state);
        let mut t: Vec<Transition> = Vec::new();
        t.push(Transition::Pause(paused));
        t.push(Transition::Enter(state));
        proof {
            assert(t@ =~= seq![Transition::Pause(old(self)@.last()), Transition::Enter(state)]);
        }
        t
    }

    /// Pops the current state: the old top exits, the state below resumes.
    /// Popping the sole remaining state is refused and reported; the stack
    /// is left unchanged.
    pub fn pop(&mut self) -> (r: Result<Vec<Transition>, StateStackError>)
        requires
            old(self).wf(),
        ensures
            final(self).wf(),
            match r {
                Ok(t) => {
                    &&& old(self)@.len() >= 2
                    &&& final(self)@ == old(self)@.drop_last()
                    &&& t@ == seq![
                        Transition::Exit(old(self)@.last()),
                        Transition::Resume(old(self)@[old(self)@.len() - 2]),
                    ]
                },
                Err(e) => {
                    &&& old(self)@.len() == 1
                    &&& *final(self) == *old(self)
                    &&& e == StateStackError::WouldEmptyStack
                },
            },
    {
        if self.states.len() <= 1 {
            return Err(StateStackError::WouldEmptyStack);
        }
        let exited = self.states.pop().unwrap();
        let resumed = self.current();
        let mut t: Vec<Transition> = Vec::new();
        t.push(Transition::Exit(exited));
        t.push(Transition::Resume(resumed));
        proof {
            assert(t@ =~= seq![
                Transition::Exit(old(self)@.last()),
                Transition::Resume(old(self)@[old(self)@.len() - 2]),
            ]);
        }
        Ok(t)
    }

    /// Replaces the current state: the old top exits, the new state enters.
    pub fn set(&mut self, state: AppState) -> (t: Vec<Transition>)
        requires
            old(self).wf(),
        ensures
            final(self).wf(),
            final(self)@ == old(self)@.update(old(self)@.len() - 1, state),
            t@ == seq![Transition::Exit(old(self)@.last()), Transition::Enter(state)],
    {
        let exited = self.states.pop().unwrap();
        self.states.push(state);
        let mut t: Vec<Transition> = Vec::new();
        t.push(Transition::Exit(exited));
        t.push(Transition::Enter(state));
        proof {
            assert(self.states@ =~= old(self)@.update(old(self)@.len() - 1, state));
            assert(t@ =~= seq![Transition::Exit(old(self)@.last()), Transition::Enter(state)]);
        }
        t
    }
}

/// One stack operation, for stating laws over whole operation sequences.
#[derive(Debug, Clone, Copy, PartialEq, Eq, Structural)]
pub enum StackOp {
    Push(AppState),
    Pop,
    Replace(AppState),
}

/// What one operation does to the stack contents. A pop of a sole remaining
/// state is refused by `StateStack::pop` and leaves the stack unchanged.
pub open spec fn apply_op(stack: Seq<AppState>, op: StackOp) -> Seq<AppState> {
    match op {
        StackOp::Push(s) => stack.push(s),
        StackOp::Pop => if stack.len() >= 2 {
            stack.drop_last()
        } else {
            stack
        },
        StackOp::Replace(s) => stack.update(stack.len() - 1, s),
    }
}

/// What a whole sequence of operations does to the stack contents, applied
/// left to right.
pub open spec fn apply_ops(stack: Seq<AppState>, ops: Seq<StackOp>) -> Seq<AppState>
    decreases ops.len(),
{
    if ops.len() == 0 {
        stack
    } else {
        apply_ops(apply_op(stack, ops[0]), ops.skip(1))
    }
}

/// A push followed by a pop restores the stack exactly: an interlude such
/// as a combat encounter, entered by a push and left by a pop, returns the
/// application to the state configuration it paused.
pub proof fn lemma_push_pop_round_trip(stack: Seq<AppState>, s: AppState)
    requires
        stack.len() >= 1,
    ensures
        apply_op(apply_op(stack, StackOp::Push(s)), StackOp::Pop) == stack,
{
    assert(stack.push(s).drop_last() =~= stack);
}

/// After any sequence of push, pop and set operations, where a pop of the
/// sole remaining state is refused, a stack that starts non-empty stays
/// non-empty.
pub proof fn lemma_stack_never_empty(stack: Seq<AppState>, ops: Seq<StackOp>)
    requires
        stack.len() >= 1,
    ensures
        apply_ops(stack, ops).len() >= 1,
    decreases ops.len(),
{
    if ops.len() > 0 {
        lemma_stack_never_empty(apply_op(stack, ops[0]), ops.skip(1));
    }
}

} // verus!
