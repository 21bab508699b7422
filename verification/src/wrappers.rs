//! A wrapper that lets any value be kept in the bot's shared data.
use vstd::prelude::*;

verus! {

/// Holds a value of the shared data (the trakt client, the cache database, the SQL
/// connection); the value is reached through `Deref`.
pub struct Wrapper<T>(T);

impl<T> Wrapper<T> {
    /// The wrapped value.
    pub closed spec fn content(self) -> T {
        self.0
    }

    /// Wraps a value.
    pub fn new(content: T) -> (w: Self)
        ensures
            w.content() == content,
    {
        Wrapper(content)
    }
}

impl<T> std::ops::Deref for Wrapper<T> {
    type Target = T;

    fn deref(&self) -> (r: &T)
        ensures
            *r == self.content(),
    {
        &self.0
    }
}

} // verus!
