use vstd::prelude::*;
use vstd::string::StringExecFns;

use crate::command::{args, is_command, Command, ExerciseCommand};
use crate::state::{State, StateView};

verus! {

/// The reply of an idle chat to help requests and to text it does not understand.
pub open spec fn help_text() -> Seq<char> {
    "Help message"@
}

/// The reply inside an exercise to text that is not an exercise command.
pub open spec fn exercise_help_text() -> Seq<char> {
    "Exercise help message"@
}

/// The reply to a task request within an exercise.
pub open spec fn task_text(exercise_id: Seq<char>, task_id: Seq<char>) -> Seq<char> {
    "Ex id: "@ + exercise_id + ", task id: "@ + task_id
}

/// The reply to a theory request within an exercise.
pub open spec fn theory_text(exercise_id: Seq<char>) -> Seq<char> {
    "Theory requested for exercise: "@ + exercise_id
}

/// The next state of a chat and the reply it gets, given its state and the text
/// it sent to the bot called `bot`.
pub open spec fn next_of(state: StateView, t: Seq<char>, bot: Seq<char>) -> (
    StateView,
    Option<Seq<char>>,
) {
    match state {
        StateView::Idle => {
            if is_command(t, bot, "/exercise"@) {
                (StateView::InExercise { exercise_id: args(t) }, None)
            } else {
                (StateView::Idle, Some(help_text()))
            }
        },
        StateView::InExercise { exercise_id } => {
            if is_command(t, bot, "/task"@) {
                (state, Some(task_text(exercise_id, args(t))))
            } else if is_command(t, bot, "/theory"@) {
                (state, Some(theory_text(exercise_id)))
            } else if is_command(t, bot, "/exit"@) {
                (StateView::Idle, None)
            } else {
                (state, Some(exercise_help_text()))
            }
        },
    }
}

/// What handling one text leads to: the chat's next state and the message to send back.
pub struct Transition {
    pub next: State,
    pub reply: Option<String>,
}

impl View for Transition {
    type V = (StateView, Option<Seq<char>>);

    open spec fn view(&self) -> (StateView, Option<Seq<char>>) {
        (
            self.next@,
            match self.reply {
                Some(m) => Some(m@),
                None => None,
            },
        )
    }
}

/// An idle chat sent text that is not an idle command: it gets the help message and stays idle.
pub fn help() -> (r: Transition)
    ensures
        r@ == (StateView::Idle, Some(help_text())),
{
    Transition { next: State::Start, reply: Some("Help message".to_owned()) }
}

/// An idle chat sent an idle command.
pub fn start_received_command(cmd: Command) -> (r: Transition)
    ensures
        match cmd {
            Command::Exercise { id } => r@ == (StateView::InExercise { exercise_id: id@ }, None::<
                Seq<char>,
            >),
            Command::Help => r@ == (StateView::Idle, Some(help_text())),
        },
{
    match cmd {
        Command::Exercise { id } => Transition { next: State::Exercise { exercise_id: id }, reply: None },
        Command::Help => help(),
    }
}

/// A chat inside an exercise sent text that is not an exercise command: it gets the
/// exercise help message and stays where it is.
pub fn exercise_help(exercise_id: String) -> (r: Transition)
    ensures
        r@ == (StateView::InExercise { exercise_id: exercise_id@ }, Some(exercise_help_text())),
{
    Transition {
        next: State::Exercise { exercise_id },
        reply: Some("Exercise help message".to_owned()),
    }
}

/// A chat inside the exercise `exercise_id` sent an exercise command.
pub fn exercise_received_command(exercise_id: String, cmd: ExerciseCommand) -> (r: Transition)
    ensures
        match cmd {
            ExerciseCommand::Task { id } => r@ == (
                StateView::InExercise { exercise_id: exercise_id@ },
                Some(task_text(exercise_id@, id@)),
            ),
            ExerciseCommand::Theory => r@ == (
                StateView::InExercise { exercise_id: exercise_id@ },
                Some(theory_text(exercise_id@)),
            ),
            ExerciseCommand::Exit => r@ == (StateView::Idle, None::<Seq<char>>),
        },
{
    match cmd {
        ExerciseCommand::Task { id } => {
            let mut m = "Ex id: ".to_owned();
            m.append(exercise_id.as_str());
            m.append(", task id: ");
            m.append(id.as_str());
            Transition { next: State::Exercise { exercise_id }, reply: Some(m) }
        },
        ExerciseCommand::Theory => {
            let mut m = "Theory requested for exercise: ".to_owned();
            m.append(exercise_id.as_str());
            Transition { next: State::Exercise { exercise_id }, reply: Some(m) }
        },
        ExerciseCommand::Exit => Transition { next: State::Start, reply: None },
    }
}

/// Routes the text `text`, sent by a chat in state `state` to the bot called `bot_name`:
/// the text is parsed against the commands of that state only, and what does not
/// parse goes to that state's help.
pub fn handle(state: &State, text: &str, bot_name: &str) -> (r: Transition)
    ensures
        r@ == next_of(state@, text@, bot_name@),
{
    match state {
        State::Start => match Command::parse(text, bot_name) {
            Ok(cmd) => start_received_command(cmd),
            Err(_) => help(),
        },
        State::Exercise { exercise_id } => match ExerciseCommand::parse(text, bot_name) {
            Ok(cmd) => exercise_received_command(exercise_id.clone(), cmd),
            Err(_) => exercise_help(exercise_id.clone()),
        },
    }
}

} // verus!
