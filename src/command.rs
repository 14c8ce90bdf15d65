use vstd::prelude::*;

use crate::text::{
    first_index, is_first, lemma_first_unique,
    after, ascii_lower, lemma_eq_ignore_ascii_case_trans, before, chars_of, eq_ignore_ascii_case, find_first, same_ignoring_ascii_case, slice,
    string_of,
};

verus! {

// A command is written `/word[@botname][ args]`: the command word runs up to
// the first space, an optional `@` inside it names the bot the command is
// meant for, and everything after the first space is the argument text.

/// The part of the text before the first space: the command word and its mention.
pub open spec fn head(t: Seq<char>) -> Seq<char> {
    before(t, ' ')
}

/// The argument text: all that follows the first space, empty where there is none.
pub open spec fn args(t: Seq<char>) -> Seq<char> {
    match after(t, ' ') {
        Some(a) => a,
        None => Seq::empty(),
    }
}

/// The command word, with its leading slash.
pub open spec fn word(t: Seq<char>) -> Seq<char> {
    before(head(t), '@')
}

/// The bot named after `@` in the command word, if any.
pub open spec fn mention(t: Seq<char>) -> Option<Seq<char>> {
    match after(head(t), '@') {
        Some(rest) => Some(before(rest, '@')),
        None => None,
    }
}

/// The text names no bot, or names `bot` (ASCII case ignored).
pub open spec fn addressed_to(t: Seq<char>, bot: Seq<char>) -> bool {
    match mention(t) {
        Some(n) => eq_ignore_ascii_case(n, bot),
        None => true,
    }
}

/// The text is addressed to `bot` and its command word is `keyword` (ASCII case ignored).
pub open spec fn is_command(t: Seq<char>, bot: Seq<char>, keyword: Seq<char>) -> bool {
    addressed_to(t, bot) && eq_ignore_ascii_case(word(t), keyword)
}

/// Why a text is not a command of the expected set.
#[derive(Clone, Debug, PartialEq, Eq)]
pub enum ParseError {
    /// The command names another bot; the name is given.
    WrongBotName(String),
    /// The command word is none of the set; the word is given.
    UnknownCommand(String),
}

/// The error owed for a text addressed to `bot` whose word is none of the set.
pub open spec fn unknown_command(e: ParseError, t: Seq<char>) -> bool {
    e is UnknownCommand && e->UnknownCommand_0@ == word(t)
}

/// The error owed for a text that names a bot other than `bot`.
pub open spec fn wrong_bot(e: ParseError, t: Seq<char>) -> bool {
    e is WrongBotName && mention(t) is Some && e->WrongBotName_0@ == mention(t)->0
}

/// No text matches two keywords of one command set.
pub proof fn lemma_keywords_distinct(w: Seq<char>)
    ensures
        !(eq_ignore_ascii_case(w, "/exercise"@) && eq_ignore_ascii_case(w, "/help"@)),
        !(eq_ignore_ascii_case(w, "/task"@) && eq_ignore_ascii_case(w, "/theory"@)),
        !(eq_ignore_ascii_case(w, "/task"@) && eq_ignore_ascii_case(w, "/exit"@)),
        !(eq_ignore_ascii_case(w, "/theory"@) && eq_ignore_ascii_case(w, "/exit"@)),
{
    reveal_strlit("/exercise");
    reveal_strlit("/help");
    reveal_strlit("/task");
    reveal_strlit("/theory");
    reveal_strlit("/exit");
    if eq_ignore_ascii_case(w, "/task"@) && eq_ignore_ascii_case(w, "/exit"@) {
        lemma_eq_ignore_ascii_case_trans("/task"@, "/exit"@, w);
        assert(ascii_lower("/task"@[1]) != ascii_lower("/exit"@[1]));
    }
    if eq_ignore_ascii_case(w, "/exercise"@) && eq_ignore_ascii_case(w, "/help"@) {
        lemma_eq_ignore_ascii_case_trans("/exercise"@, "/help"@, w);
    }
    if eq_ignore_ascii_case(w, "/task"@) && eq_ignore_ascii_case(w, "/theory"@) {
        lemma_eq_ignore_ascii_case_trans("/task"@, "/theory"@, w);
    }
    if eq_ignore_ascii_case(w, "/theory"@) && eq_ignore_ascii_case(w, "/exit"@) {
        lemma_eq_ignore_ascii_case_trans("/theory"@, "/exit"@, w);
    }
}

/// A keyword with no space and no `@`, followed by a space and argument text `x`,
/// is read as that keyword, addressed to any bot, with argument text `x`.
pub proof fn lemma_keyword_with_args(kw: Seq<char>, x: Seq<char>, bot: Seq<char>)
    requires
        forall|i: int| 0 <= i < kw.len() ==> kw[i] != ' ' && kw[i] != '@',
    ensures
        head(kw + seq![' '] + x) == kw,
        word(kw + seq![' '] + x) == kw,
        args(kw + seq![' '] + x) == x,
        mention(kw + seq![' '] + x) is None,
        addressed_to(kw + seq![' '] + x, bot),
{
    let t = kw + seq![' '] + x;
    assert(is_first(t, ' ', kw.len() as int));
    lemma_first_unique(t, ' ', kw.len() as int);
    assert(t.take(kw.len() as int) =~= kw);
    assert(t.skip(kw.len() + 1 as int) =~= x);
    lemma_no_mention(kw);
}

/// A keyword with no space and no `@`, on its own, is read as that keyword,
/// addressed to any bot, with empty argument text.
pub proof fn lemma_bare_keyword(kw: Seq<char>, bot: Seq<char>)
    requires
        forall|i: int| 0 <= i < kw.len() ==> kw[i] != ' ' && kw[i] != '@',
    ensures
        head(kw) == kw,
        word(kw) == kw,
        args(kw) == Seq::<char>::empty(),
        mention(kw) is None,
        addressed_to(kw, bot),
{
    assert(!exists|i: int| is_first(kw, ' ', i));
    lemma_no_mention(kw);
}

proof fn lemma_no_mention(kw: Seq<char>)
    requires
        forall|i: int| 0 <= i < kw.len() ==> kw[i] != '@',
    ensures
        first_index(kw, '@') is None,
{
    assert(!exists|i: int| is_first(kw, '@', i));
}

/// Splits a text into its command word and argument text, after checking the mention.
fn split_command(s: &str, bot_name: &str) -> (r: Result<(Vec<char>, Vec<char>), ParseError>)
    ensures
        match r {
            Ok((w, a)) => addressed_to(s@, bot_name@) && w@ == word(s@) && a@ == args(s@),
            Err(e) => !addressed_to(s@, bot_name@) && wrong_bot(e, s@),
        },
{
    let t = chars_of(s);
    let (lead, rest) = match find_first(&t, ' ') {
        Some(i) => (slice(&t, 0, i), slice(&t, i + 1, t.len())),
        None => (slice(&t, 0, t.len()), Vec::new()),
    };
    assert(lead@ =~= head(s@));
    assert(rest@ =~= args(s@));
    let w = match find_first(&lead, '@') {
        None => slice(&lead, 0, lead.len()),
        Some(j) => {
            let tail = slice(&lead, j + 1, lead.len());
            let name = match find_first(&tail, '@') {
                Some(k) => slice(&tail, 0, k),
                None => slice(&tail, 0, tail.len()),
            };
            assert(tail@ =~= after(lead@, '@')->0);
            assert(name@ =~= mention(s@)->0);
            let bot = chars_of(bot_name);
            if !same_ignoring_ascii_case(&name, &bot) {
                return Err(ParseError::WrongBotName(string_of(&name)));
            }
            slice(&lead, 0, j)
        },
    };
    assert(w@ =~= word(s@));
    Ok((w, rest))
}

/// The commands understood while a chat is idle.
#[derive(Clone, Debug, PartialEq, Eq)]
pub enum Command {
    /// `/exercise <id>`: choose an exercise by its identifier.
    Exercise { id: String },
    /// `/help`.
    Help,
}

/// The commands understood while a chat is inside an exercise.
#[derive(Clone, Debug, PartialEq, Eq)]
pub enum ExerciseCommand {
    /// `/task <id>`: ask for a task of the current exercise.
    Task { id: String },
    /// `/theory`: ask for the theory of the current exercise.
    Theory,
    /// `/exit`: leave the exercise.
    Exit,
}

impl Command {
    /// Parses `s` as one of the idle commands, for the bot called `bot_name`.
    ///
    /// The argument text of `/exercise` is taken whole as the identifier;
    /// `/help` ignores its argument text.
    pub fn parse(s: &str, bot_name: &str) -> (r: Result<Command, ParseError>)
        ensures
            !addressed_to(s@, bot_name@) ==> r is Err && wrong_bot(r->Err_0, s@),
            is_command(s@, bot_name@, "/exercise"@) ==> r is Ok && r->Ok_0 is Exercise
                && r->Ok_0->id@ == args(s@),
            is_command(s@, bot_name@, "/help"@) ==> r is Ok && r->Ok_0 is Help,
            addressed_to(s@, bot_name@) && !is_command(s@, bot_name@, "/exercise"@)
                && !is_command(s@, bot_name@, "/help"@) ==> r is Err && unknown_command(
                r->Err_0,
                s@,
            ),
    {
        let (w, a) = match split_command(s, bot_name) {
            Ok(parts) => parts,
            Err(e) => return Err(e),
        };
        proof {
            lemma_keywords_distinct(w@);
        }
        if same_ignoring_ascii_case(&w, &chars_of("/exercise")) {
            Ok(Command::Exercise { id: string_of(&a) })
        } else if same_ignoring_ascii_case(&w, &chars_of("/help")) {
            Ok(Command::Help)
        } else {
            Err(ParseError::UnknownCommand(string_of(&w)))
        }
    }
}

impl ExerciseCommand {
    /// Parses `s` as one of the exercise commands, for the bot called `bot_name`.
    ///
    /// The argument text of `/task` is taken whole as the identifier;
    /// `/theory` and `/exit` ignore their argument text.
    pub fn parse(s: &str, bot_name: &str) -> (r: Result<ExerciseCommand, ParseError>)
        ensures
            !addressed_to(s@, bot_name@) ==> r is Err && wrong_bot(r->Err_0, s@),
            is_command(s@, bot_name@, "/task"@) ==> r is Ok && r->Ok_0 is Task && r->Ok_0->id@
                == args(s@),
            is_command(s@, bot_name@, "/theory"@) ==> r is Ok && r->Ok_0 is Theory,
            is_command(s@, bot_name@, "/exit"@) ==> r is Ok && r->Ok_0 is Exit,
            addressed_to(s@, bot_name@) && !is_command(s@, bot_name@, "/task"@) && !is_command(
                s@,
                bot_name@,
                "/theory"@,
            ) && !is_command(s@, bot_name@, "/exit"@) ==> r is Err && unknown_command(
                r->Err_0,
                s@,
            ),
    {
        let (w, a) = match split_command(s, bot_name) {
            Ok(parts) => parts,
            Err(e) => return Err(e),
        };
        proof {
            lemma_keywords_distinct(w@);
        }
        if same_ignoring_ascii_case(&w, &chars_of("/task")) {
            Ok(ExerciseCommand::Task { id: string_of(&a) })
        } else if same_ignoring_ascii_case(&w, &chars_of("/theory")) {
            Ok(ExerciseCommand::Theory)
        } else if same_ignoring_ascii_case(&w, &chars_of("/exit")) {
            Ok(ExerciseCommand::Exit)
        } else {
            Err(ParseError::UnknownCommand(string_of(&w)))
        }
    }
}

} // verus!
