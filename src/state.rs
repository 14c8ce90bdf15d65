use vstd::prelude::*;

verus! {

/// Where a chat currently stands in the dialogue.
#[derive(Clone, Debug, PartialEq, Eq)]
pub enum State {
    /// Idle: no exercise chosen yet.
    Start,
    /// Inside the exercise with the given identifier (free-form text).
    Exercise { exercise_id: String },
}

/// The mathematical form of a [`State`].
pub enum StateView {
    Idle,
    InExercise { exercise_id: Seq<char> },
}

impl View for State {
    type V = StateView;

    open spec fn view(&self) -> StateView {
        match self {
            State::Start => StateView::Idle,
            State::Exercise { exercise_id } => StateView::InExercise { exercise_id: exercise_id@ },
        }
    }
}

impl State {
    /// The state of a chat that has not been heard from before.
    pub fn initial() -> (r: State)
        ensures
            r is Start,
    {
        State::Start
    }

    /// A copy of this state, field for field.
    pub fn duplicate(&self) -> (r: State)
        ensures
            r == *self,
            r@ == self@,
    {
        match self {
            State::Start => State::Start,
            State::Exercise { exercise_id } => State::Exercise { exercise_id: exercise_id.clone() },
        }
    }
}

impl Default for State {
    fn default() -> (r: State)
        ensures
            r is Start,
    {
        State::Start
    }
}

} // verus!
