use tg_frontend::command::{Command, ExerciseCommand, ParseError};
use tg_frontend::router::{
    exercise_help, exercise_received_command, handle, help, start_received_command,
};
use tg_frontend::state::State;
use tg_frontend::store::DialogueStore;

const BOT: &str = "ExerciseBot";

fn in_exercise(id: &str) -> State {
    State::Exercise { exercise_id: id.to_string() }
}

#[test]
fn fresh_chat_is_idle() {
    let store = DialogueStore::new();
    assert_eq!(store.get(42), State::Start);
    assert_eq!(State::default(), State::Start);
    assert_eq!(State::initial(), State::Start);
}

#[test]
fn exercise_command_enters_exercise_silently() {
    let t = handle(&State::Start, "/exercise X", BOT);
    assert_eq!(t.next, in_exercise("X"));
    assert_eq!(t.reply, None);
}

#[test]
fn help_command_keeps_idle_with_one_message() {
    let t = handle(&State::Start, "/help", BOT);
    assert_eq!(t.next, State::Start);
    assert_eq!(t.reply.as_deref(), Some("Help message"));
}

#[test]
fn unrecognized_text_when_idle_gets_help() {
    for text in ["hello there", "", "/unknown", "/theory", "exercise X"] {
        let t = handle(&State::Start, text, BOT);
        assert_eq!(t.next, State::Start);
        assert_eq!(t.reply.as_deref(), Some("Help message"));
    }
}

#[test]
fn task_reply_names_exercise_and_task() {
    let t = handle(&in_exercise("X"), "/task Y", BOT);
    assert_eq!(t.next, in_exercise("X"));
    let m = t.reply.unwrap();
    assert_eq!(m, "Ex id: X, task id: Y");
    assert!(m.contains('X') && m.contains('Y'));
}

#[test]
fn theory_reply_names_exercise() {
    let t = handle(&in_exercise("X"), "/theory", BOT);
    assert_eq!(t.next, in_exercise("X"));
    assert_eq!(t.reply.as_deref(), Some("Theory requested for exercise: X"));
}

#[test]
fn exit_returns_to_idle_silently() {
    let t = handle(&in_exercise("X"), "/exit", BOT);
    assert_eq!(t.next, State::Start);
    assert_eq!(t.reply, None);
}

#[test]
fn unrecognized_text_in_exercise_gets_exercise_help() {
    for text in ["what now?", "/exercise Z", "/help", ""] {
        let t = handle(&in_exercise("X"), text, BOT);
        assert_eq!(t.next, in_exercise("X"));
        assert_eq!(t.reply.as_deref(), Some("Exercise help message"));
    }
}

#[test]
fn chats_do_not_share_state() {
    let mut store = DialogueStore::new();
    assert_eq!(store.dispatch(1, "/exercise algebra", BOT), None);
    assert_eq!(store.get(1), in_exercise("algebra"));
    assert_eq!(store.get(2), State::Start);
    assert_eq!(store.dispatch(2, "/exercise geometry", BOT), None);
    assert_eq!(store.dispatch(1, "/exit", BOT), None);
    assert_eq!(store.get(1), State::Start);
    assert_eq!(store.get(2), in_exercise("geometry"));
}

#[test]
fn exit_while_idle_is_unrecognized() {
    let mut store = DialogueStore::new();
    store.dispatch(5, "/exercise X", BOT);
    assert_eq!(store.dispatch(5, "/exit", BOT), None);
    assert_eq!(store.dispatch(5, "/exit", BOT).as_deref(), Some("Help message"));
    assert_eq!(store.get(5), State::Start);
}

#[test]
fn end_to_end_session() {
    let mut store = DialogueStore::new();
    let inputs = ["/exercise algebra", "/task 1", "/theory", "/exit", "/task 1"];
    let expected = [
        None,
        Some("Ex id: algebra, task id: 1"),
        Some("Theory requested for exercise: algebra"),
        None,
        Some("Help message"),
    ];
    for (text, want) in inputs.iter().zip(expected.iter()) {
        let got = store.dispatch(7, text, BOT);
        assert_eq!(got.as_deref(), *want);
    }
    assert_eq!(store.get(7), State::Start);
}

#[test]
fn set_overwrites_state() {
    let mut store = DialogueStore::new();
    store.set(3, in_exercise("a"));
    store.set(3, in_exercise("b"));
    assert_eq!(store.get(3), in_exercise("b"));
    store.set(3, State::Start);
    assert_eq!(store.get(3), State::Start);
}

#[test]
fn parse_exercise_takes_whole_argument_text() {
    assert_eq!(
        Command::parse("/exercise linear algebra", BOT),
        Ok(Command::Exercise { id: "linear algebra".to_string() })
    );
    assert_eq!(Command::parse("/exercise", BOT), Ok(Command::Exercise { id: String::new() }));
    assert_eq!(Command::parse("/help me", BOT), Ok(Command::Help));
}

#[test]
fn parse_ignores_ascii_case_of_command_word() {
    assert_eq!(Command::parse("/HELP", BOT), Ok(Command::Help));
    assert_eq!(
        ExerciseCommand::parse("/Task 3", BOT),
        Ok(ExerciseCommand::Task { id: "3".to_string() })
    );
    assert_eq!(ExerciseCommand::parse("/EXIT", BOT), Ok(ExerciseCommand::Exit));
}

#[test]
fn parse_checks_bot_mention() {
    assert_eq!(Command::parse("/help@exercisebot", BOT), Ok(Command::Help));
    assert_eq!(
        Command::parse("/help@OtherBot", BOT),
        Err(ParseError::WrongBotName("OtherBot".to_string()))
    );
    assert_eq!(
        ExerciseCommand::parse("/theory@Other@x", BOT),
        Err(ParseError::WrongBotName("Other".to_string()))
    );
    let t = handle(&State::Start, "/exercise@OtherBot X", BOT);
    assert_eq!(t.next, State::Start);
    assert_eq!(t.reply.as_deref(), Some("Help message"));
}

#[test]
fn parse_reports_unknown_command() {
    assert_eq!(
        Command::parse("/task 1", BOT),
        Err(ParseError::UnknownCommand("/task".to_string()))
    );
    assert_eq!(
        ExerciseCommand::parse("hello world", BOT),
        Err(ParseError::UnknownCommand("hello".to_string()))
    );
    assert_eq!(ExerciseCommand::parse("/theory extra", BOT), Ok(ExerciseCommand::Theory));
}

#[test]
fn handlers_match_the_transition_table() {
    let h = help();
    assert_eq!(h.next, State::Start);
    assert_eq!(h.reply.as_deref(), Some("Help message"));
    let s = start_received_command(Command::Exercise { id: "e1".to_string() });
    assert_eq!(s.next, in_exercise("e1"));
    assert_eq!(s.reply, None);
    let s = start_received_command(Command::Help);
    assert_eq!(s.next, State::Start);
    assert_eq!(s.reply.as_deref(), Some("Help message"));
    let e = exercise_help("e1".to_string());
    assert_eq!(e.next, in_exercise("e1"));
    assert_eq!(e.reply.as_deref(), Some("Exercise help message"));
    let e = exercise_received_command("e1".to_string(), ExerciseCommand::Task { id: "t2".to_string() });
    assert_eq!(e.next, in_exercise("e1"));
    assert_eq!(e.reply.as_deref(), Some("Ex id: e1, task id: t2"));
    let e = exercise_received_command("e1".to_string(), ExerciseCommand::Exit);
    assert_eq!(e.next, State::Start);
    assert_eq!(e.reply, None);
}

#[test]
fn duplicate_copies_state() {
    let s = in_exercise("ünïcode id");
    assert_eq!(s.duplicate(), s);
    let t = handle(&s, "/task ß", BOT);
    assert_eq!(t.reply.as_deref(), Some("Ex id: ünïcode id, task id: ß"));
}
