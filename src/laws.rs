//! What holds of the dialogue for every chat, exercise and text.
use vstd::prelude::*;

use crate::command::{is_command, lemma_bare_keyword, lemma_keyword_with_args, lemma_keywords_distinct};
use crate::router::{exercise_help_text, help_text, next_of, task_text, theory_text};
use crate::state::StateView;
use crate::store::{after_message, state_in};
use crate::text::contains;

verus! {

/// A chat that has no entry in the record, because it never wrote, is idle.
pub proof fn law_unknown_chat_is_idle(m: Map<i64, StateView>, chat: i64)
    requires
        !m.contains_key(chat),
    ensures
        state_in(m, chat) == StateView::Idle,
{
}

/// An idle chat that sends `/exercise x` enters the exercise `x` and gets no reply.
pub proof fn law_exercise_enters(x: Seq<char>, bot: Seq<char>)
    ensures
        next_of(StateView::Idle, "/exercise "@ + x, bot) == (
            StateView::InExercise { exercise_id: x },
            None::<Seq<char>>,
        ),
{
    reveal_strlit("/exercise");
    reveal_strlit("/exercise ");
    assert("/exercise "@ =~= "/exercise"@ + seq![' ']);
    lemma_keyword_with_args("/exercise"@, x, bot);
}

/// An idle chat that sends `/help` gets the help message and stays idle.
pub proof fn law_help_keeps_idle(bot: Seq<char>)
    ensures
        next_of(StateView::Idle, "/help"@, bot) == (StateView::Idle, Some(help_text())),
{
    reveal_strlit("/help");
    reveal_strlit("/exercise");
    lemma_bare_keyword("/help"@, bot);
    assert(!is_command("/help"@, bot, "/exercise"@)) by {
        assert("/help"@.len() != "/exercise"@.len());
    }
}

/// An idle chat that sends anything but an `/exercise` command gets exactly one
/// message, the help message, and stays idle.
pub proof fn law_idle_fallback(t: Seq<char>, bot: Seq<char>)
    requires
        !is_command(t, bot, "/exercise"@),
    ensures
        next_of(StateView::Idle, t, bot) == (StateView::Idle, Some(help_text())),
{
}

/// Inside exercise `x`, `/task y` is answered with one message that holds both `x`
/// and `y`, and the chat stays in the exercise.
pub proof fn law_task_reply(x: Seq<char>, y: Seq<char>, bot: Seq<char>)
    ensures
        next_of(StateView::InExercise { exercise_id: x }, "/task "@ + y, bot) == (
            StateView::InExercise { exercise_id: x },
            Some(task_text(x, y)),
        ),
        contains(task_text(x, y), x),
        contains(task_text(x, y), y),
{
    reveal_strlit("/task");
    reveal_strlit("/task ");
    reveal_strlit("Ex id: ");
    reveal_strlit(", task id: ");
    assert("/task "@ =~= "/task"@ + seq![' ']);
    lemma_keyword_with_args("/task"@, y, bot);
    let m = task_text(x, y);
    let i = "Ex id: "@.len() as int;
    assert(m.subrange(i, i + x.len()) =~= x);
    let j = i + x.len() + ", task id: "@.len();
    assert(m.subrange(j, j + y.len()) =~= y);
}

/// Inside exercise `x`, `/theory` is answered with one message that holds `x`, and
/// the chat stays in the exercise.
pub proof fn law_theory_reply(x: Seq<char>, bot: Seq<char>)
    ensures
        next_of(StateView::InExercise { exercise_id: x }, "/theory"@, bot) == (
            StateView::InExercise { exercise_id: x },
            Some(theory_text(x)),
        ),
        contains(theory_text(x), x),
{
    reveal_strlit("/theory");
    reveal_strlit("/task");
    reveal_strlit("Theory requested for exercise: ");
    lemma_bare_keyword("/theory"@, bot);
    lemma_keywords_distinct("/theory"@);
    assert(!is_command("/theory"@, bot, "/task"@)) by {
        assert("/theory"@.len() != "/task"@.len());
    }
    let m = theory_text(x);
    let i = "Theory requested for exercise: "@.len() as int;
    assert(m.subrange(i, i + x.len()) =~= x);
}

/// Inside an exercise, `/exit` makes the chat idle, with no reply.
pub proof fn law_exit_leaves(x: Seq<char>, bot: Seq<char>)
    ensures
        next_of(StateView::InExercise { exercise_id: x }, "/exit"@, bot) == (
            StateView::Idle,
            None::<Seq<char>>,
        ),
{
    reveal_strlit("/exit");
    reveal_strlit("/task");
    reveal_strlit("/theory");
    lemma_bare_keyword("/exit"@, bot);
    lemma_keywords_distinct("/exit"@);
    assert(!is_command("/exit"@, bot, "/theory"@)) by {
        assert("/exit"@.len() != "/theory"@.len());
    }
    assert(!is_command("/exit"@, bot, "/task"@)) by {
        assert(crate::text::ascii_lower("/exit"@[1]) != crate::text::ascii_lower("/task"@[1]));
    }
}

/// Inside exercise `x`, text that is no exercise command gets exactly one message,
/// the exercise help message, and the chat stays in exercise `x`.
pub proof fn law_exercise_fallback(x: Seq<char>, t: Seq<char>, bot: Seq<char>)
    requires
        !is_command(t, bot, "/task"@),
        !is_command(t, bot, "/theory"@),
        !is_command(t, bot, "/exit"@),
    ensures
        next_of(StateView::InExercise { exercise_id: x }, t, bot) == (
            StateView::InExercise { exercise_id: x },
            Some(exercise_help_text()),
        ),
{
}

/// A message from chat `a` leaves the recorded state of every other chat as it was.
pub proof fn law_chats_are_separate(
    m: Map<i64, StateView>,
    a: i64,
    b: i64,
    t: Seq<char>,
    bot: Seq<char>,
)
    requires
        a != b,
    ensures
        state_in(after_message(m, a, t, bot), b) == state_in(m, b),
{
}

/// `/exit` sent again once a chat has left its exercise is no command of the idle
/// chat: it gets the help message, and the chat stays idle.
pub proof fn law_exit_twice(x: Seq<char>, bot: Seq<char>)
    ensures
        next_of(next_of(StateView::InExercise { exercise_id: x }, "/exit"@, bot).0, "/exit"@, bot)
            == (StateView::Idle, Some(help_text())),
{
    law_exit_leaves(x, bot);
    reveal_strlit("/exit");
    reveal_strlit("/exercise");
    assert(!is_command("/exit"@, bot, "/exercise"@)) by {
        assert("/exit"@.len() != "/exercise"@.len());
    }
}

} // verus!
