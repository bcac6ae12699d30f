//! The per-message decisions of the responder: whether to answer, whether
//! there is capacity, what to ask the engine, and the persona command.

use crate::sampling::{admits, should_process, Directed};
use crate::job::{Job, Limiter, CAPACITY};
use crate::persona::PersonaBook;
use crate::prompt::{assemble, chronological, prompt_text, HistoryEntry, Speaker};
use vstd::prelude::*;

verus! {

/// How many recent messages of a channel a prompt is built from.
pub const HISTORY_WINDOW: u8 = 5;

/// The state that the responder keeps across messages: the personas, the
/// admission controller and, once the platform has told it, its own identity.
pub struct Handler {
    personas: PersonaBook,
    limiter: Limiter,
    me: Option<Speaker>,
}

impl Handler {
    /// The number of generation jobs that may be outstanding at once.
    pub closed spec fn capacity(&self) -> nat {
        self.limiter.capacity()
    }

    /// The persona book.
    pub closed spec fn book(&self) -> PersonaBook {
        self.personas
    }

    /// The responder's own identity, once known.
    pub closed spec fn identity(&self) -> Option<Speaker> {
        self.me
    }

    /// A handler with no persona set and no identity yet.
    pub fn new(default_persona: String) -> (r: Handler)
        ensures
            r.book().personas().dom() =~= Set::empty(),
            r.book().default_text() == default_persona@,
            r.identity() is None,
            r.capacity() == CAPACITY,
    {
        Handler { personas: PersonaBook::new(default_persona), limiter: Limiter::new(), me: None }
    }

    /// Records the responder's own identity; only the first one counts.
    pub fn set_identity(&mut self, me: Speaker)
        ensures
            final(self).book() == old(self).book(),
            final(self).identity() == (match old(self).identity() {
                Some(m) => Some(m),
                None => Some(me),
            }),
    {
        if self.me.is_none() {
            self.me = Some(me);
        }
    }

    /// The admission controller.
    pub fn limiter(&self) -> (r: &Limiter)
        ensures
            r.capacity() == self.capacity(),
    {
        &self.limiter
    }

    /// Whether a message is worth asking the platform about at all: not from
    /// a bot, and the responder knows who it is.
    pub fn needs_mention_check(&self, from_bot: bool) -> (r: bool)
        ensures
            r == (!from_bot && self.identity() is Some),
    {
        !from_bot && self.me.is_some()
    }

    /// The sampling filter and then the admission controller. A job comes back
    /// only for a message that the sampling filter let through and while a permit was
    /// free.
    pub fn accept(&self, from_bot: bool, directed: Directed) -> (r: Option<Job>)
        ensures
            r is Some ==> r->0.wf() && !r->0.is_settled() && r->0.holds_permit(),
            r is Some ==> self.identity() is Some && exists|skip: bool|
                admits(from_bot, directed, skip),
            from_bot || directed is None || self.identity() is None ==> r is None,
    {
        if self.me.is_none() {
            return None;
        }
        if !should_process(from_bot, directed) {
            return None;
        }
        self.limiter.try_admit()
    }

    /// The prompt for a channel, from its history as the platform gave it,
    /// newest first. `None` while the responder does not know who it is.
    pub fn prompt(&self, channel: u64, newest_first: Vec<HistoryEntry>) -> (r: Option<String>)
        ensures
            match self.identity() {
                Some(me) => r is Some && r->0@ == prompt_text(
                    self.book().effective(channel),
                    newest_first@.reverse(),
                    me,
                ),
                None => r is None,
            },
    {
        match &self.me {
            Some(me) => {
                let persona = self.personas.persona_for(channel);
                let history = chronological(newest_first);
                Some(assemble(persona.as_str(), &history, me))
            },
            None => None,
        }
    }

    /// The persona command for a channel, with its optional argument.
    pub fn persona_command(&mut self, channel: u64, argument: Option<String>) -> (r: String)
        ensures
            final(self).identity() == old(self).identity(),
            final(self).book().default_text() == old(self).book().default_text(),
            match argument {
                Some(t) => final(self).book().personas() == old(self).book().personas().insert(
                    channel,
                    t@,
                ) && r@ == crate::persona::done_text(),
                None => final(self).book().personas() == old(self).book().personas() && r@ == old(
                    self,
                ).book().effective(channel),
            },
    {
        self.personas.command(channel, argument)
    }
}

} // verus!
