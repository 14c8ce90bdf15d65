use std::collections::HashMap;

use vstd::prelude::*;

use crate::router::{handle, next_of};
use crate::state::{State, StateView};

verus! {

broadcast use vstd::std_specs::hash::group_hash_axioms;

/// The state recorded for `chat` in `m`; a chat with no entry is idle.
pub open spec fn state_in(m: Map<i64, StateView>, chat: i64) -> StateView {
    if m.contains_key(chat) {
        m[chat]
    } else {
        StateView::Idle
    }
}

/// The record after `chat` sent `t` to the bot called `bot`.
pub open spec fn after_message(m: Map<i64, StateView>, chat: i64, t: Seq<char>, bot: Seq<char>) -> Map<
    i64,
    StateView,
> {
    m.insert(chat, next_of(state_in(m, chat), t, bot).0)
}

/// The dialogue state of every chat the bot has heard from, by chat identifier.
pub struct DialogueStore {
    states: HashMap<i64, State>,
}

impl View for DialogueStore {
    type V = Map<i64, StateView>;

    closed spec fn view(&self) -> Map<i64, StateView> {
        Map::new(|k: i64| self.states@.contains_key(k), |k: i64| self.states@[k]@)
    }
}

impl DialogueStore {
    /// A store that has heard from no chat.
    pub fn new() -> (r: DialogueStore)
        ensures
            r@ == Map::<i64, StateView>::empty(),
    {
        let r = DialogueStore { states: HashMap::new() };
        assert(r@ =~= Map::<i64, StateView>::empty());
        r
    }

    /// The state of `chat`: the one last set, or idle where none was.
    pub fn get(&self, chat: i64) -> (r: State)
        ensures
            r@ == state_in(self@, chat),
    {
        match self.states.get(&chat) {
            Some(s) => s.duplicate(),
            None => State::initial(),
        }
    }

    /// Records `state` as the state of `chat`, in place of any earlier one.
    pub fn set(&mut self, chat: i64, state: State)
        ensures
            final(self)@ == old(self)@.insert(chat, state@),
    {
        let ghost st = state@;
        self.states.insert(chat, state);
        assert(self@ =~= old(self)@.insert(chat, st));
    }

    /// Handles the text `text` that `chat` sent to the bot called `bot_name`: the chat's
    /// state moves on, and the message to send back, if any, is returned.
    pub fn dispatch(&mut self, chat: i64, text: &str, bot_name: &str) -> (reply: Option<String>)
        ensures
            final(self)@ == after_message(old(self)@, chat, text@, bot_name@),
            match reply {
                Some(m) => next_of(state_in(old(self)@, chat), text@, bot_name@).1 == Some(m@),
                None => next_of(state_in(old(self)@, chat), text@, bot_name@).1 is None,
            },
    {
        let current = self.get(chat);
        let t = handle(&current, text, bot_name);
        self.set(chat, t.next);
        t.reply
    }
}

} // verus!
