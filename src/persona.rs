//! Per-channel personas with a configured default.

use dashmap::DashMap;
use vstd::prelude::*;

verus! {

#[verifier::external_type_specification]
#[verifier::external_body]
#[verifier::reject_recursive_types(K)]
#[verifier::reject_recursive_types(V)]
#[verifier::reject_recursive_types(S)]
pub struct ExDashMap<K, V, S>(DashMap<K, V, S>);

/// A concurrent map from channel to persona text.
pub type PersonaMap = DashMap<u64, String>;

/// What a channel-to-persona map holds.
pub uninterp spec fn persona_entries(m: PersonaMap) -> Map<u64, Seq<char>>;

/// Relies on DashMap::new: a map with no entries.
#[verifier::external_body]
fn empty_entries() -> (r: PersonaMap)
    ensures
        persona_entries(r).dom() =~= Set::empty(),
{
    DashMap::new()
}

/// Relies on DashMap::insert: the key maps to the new value, the other
/// entries stay.
#[verifier::external_body]
fn insert_entry(m: &mut PersonaMap, k: u64, v: String)
    ensures
        persona_entries(*final(m)) == persona_entries(*old(m)).insert(k, v@),
{
    m.insert(k, v);
}

/// Relies on DashMap::get: the value stored under the key, if any, here
/// cloned out of the guard.
#[verifier::external_body]
fn lookup_entry(m: &PersonaMap, k: u64) -> (r: Option<String>)
    ensures
        match r {
            Some(v) => persona_entries(*m).contains_key(k) && persona_entries(*m)[k] == v@,
            None => !persona_entries(*m).contains_key(k),
        },
{
    m.get(&k).map(|e| e.value().clone())
}

/// The acknowledgement of a persona change.
pub open spec fn done_text() -> Seq<char> {
    "done"@
}

/// The personas set per channel, and the persona of every other channel.
pub struct PersonaBook {
    entries: PersonaMap,
    default_persona: String,
}

impl PersonaBook {
    /// The personas set so far, by channel.
    pub closed spec fn personas(&self) -> Map<u64, Seq<char>> {
        persona_entries(self.entries)
    }

    /// The persona of a channel where none was set.
    pub closed spec fn default_text(&self) -> Seq<char> {
        self.default_persona@
    }

    /// The persona that applies to a channel: the one set last, else the
    /// default.
    pub open spec fn effective(&self, channel: u64) -> Seq<char> {
        if self.personas().contains_key(channel) {
            self.personas()[channel]
        } else {
            self.default_text()
        }
    }

    /// A book with no persona set.
    pub fn new(default_persona: String) -> (r: PersonaBook)
        ensures
            r.personas() == Map::<u64, Seq<char>>::empty(),
            r.default_text() == default_persona@,
    {
        PersonaBook { entries: empty_entries(), default_persona }
    }

    /// Sets the persona of a channel, replacing any earlier one.
    pub fn set(&mut self, channel: u64, text: String)
        ensures
            final(self).personas() == old(self).personas().insert(channel, text@),
            final(self).default_text() == old(self).default_text(),
    {
        insert_entry(&mut self.entries, channel, text);
    }

    /// The persona that applies to a channel.
    pub fn persona_for(&self, channel: u64) -> (r: String)
        ensures
            r@ == self.effective(channel),
    {
        match lookup_entry(&self.entries, channel) {
            Some(p) => p,
            None => self.default_persona.clone(),
        }
    }

    /// The persona command: with an argument it sets the channel's persona and
    /// acknowledges, without one it answers with the persona that applies.
    pub fn command(&mut self, channel: u64, argument: Option<String>) -> (r: String)
        ensures
            final(self).default_text() == old(self).default_text(),
            match argument {
                Some(t) => final(self).personas() == old(self).personas().insert(channel, t@)
                    && r@ == done_text(),
                None => final(self).personas() == old(self).personas() && r@ == old(
                    self,
                ).effective(channel),
            },
    {
        match argument {
            Some(t) => {
                self.set(channel, t);
                let r = String::from_str("done");
                r
            },
            None => self.persona_for(channel),
        }
    }
}

/// Setting a channel's persona and then asking for it without an argument
/// gives back exactly the text that was set; a channel where nothing was set
/// gives the default.
pub proof fn set_then_query(before: PersonaBook, after: PersonaBook, channel: u64, text: Seq<char>)
    requires
        after.personas() == before.personas().insert(channel, text),
        after.default_text() == before.default_text(),
    ensures
        after.effective(channel) == text,
        forall|other: u64|
            other != channel && !before.personas().contains_key(other) ==> after.effective(other)
                == before.default_text(),
{
}

} // verus!
