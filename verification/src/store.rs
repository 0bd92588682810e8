//! Credential store: the single owner of the session token.
//!
//! Exactly one token (or none) exists per installation. The store models
//! the durable value as it stands after the last write; the application
//! shell loads the persisted value at startup, hands it to `new`, and
//! mirrors every `save` back to storage with an atomic replace.

use vstd::prelude::*;

verus! {

/// Owns the session token. `None` means "logged out".
pub struct CredentialStore {
    token: Option<String>,
}

impl View for CredentialStore {
    type V = Option<Seq<char>>;

    closed spec fn view(&self) -> Option<Seq<char>> {
        match self.token {
            Some(t) => Some(t@),
            None => None,
        }
    }
}

impl CredentialStore {
    /// Starts the store from the value the durable storage held, if any.
    pub fn new(initial: Option<String>) -> (s: CredentialStore)
        ensures
            s@ == (match initial {
                Some(t) => Some(t@),
                None => None::<Seq<char>>,
            }),
    {
        CredentialStore { token: initial }
    }

    /// Returns the current token; `None` when logged out.
    pub fn load(&self) -> (r: Option<String>)
        ensures
            (match r {
                Some(t) => self@ == Some(t@),
                None => self@ is None,
            }),
    {
        match &self.token {
            Some(t) => Some(t.clone()),
            None => None,
        }
    }

    /// Replaces the stored token; `None` clears it. The last write wins:
    /// every later `load` returns exactly this value.
    pub fn save(&mut self, token: Option<String>)
        ensures
            final(self)@ == (match token {
                Some(t) => Some(t@),
                None => None::<Seq<char>>,
            }),
    {
        self.token = token;
    }
}

/// The store value after a sequence of saves, starting from `initial`;
/// each save leaves behind exactly the value written, as the contract of
/// `save` states.
pub open spec fn after_saves(
    initial: Option<Seq<char>>,
    writes: Seq<Option<Seq<char>>>,
) -> Option<Seq<char>>
    decreases writes.len(),
{
    if writes.len() == 0 {
        initial
    } else {
        after_saves(writes[0], writes.drop_first())
    }
}

/// Whatever the store held before, after any saves it holds exactly the
/// last value saved — so `load` returns exactly the last `save`-d value,
/// including an absent one.
pub proof fn law_last_save_wins(initial: Option<Seq<char>>, writes: Seq<Option<Seq<char>>>)
    requires
        writes.len() > 0,
    ensures
        after_saves(initial, writes) == writes.last(),
    decreases writes.len(),
{
    if writes.len() == 1 {
        assert(writes.drop_first().len() == 0);
        assert(after_saves(initial, writes) == after_saves(writes[0], writes.drop_first()));
        assert(after_saves(writes[0], writes.drop_first()) == writes[0]);
        assert(writes.last() == writes[0]);
    } else {
        law_last_save_wins(writes[0], writes.drop_first());
        assert(writes.drop_first().last() == writes.last());
    }
}

} // verus!
