//! The process-wide store for the most recent captured screenshot.

use vstd::prelude::*;

verus! {

/// Holds at most one captured screenshot, as its data-URL string.
///
/// The UI shell keeps a single value of this type behind its own lock and
/// hands it to every entry point, so all of them observe the same "last
/// screenshot". A reader sees either no screenshot at all or one complete
/// stored value: `store` replaces the whole value in one assignment.
pub struct ScreenshotState {
    current: Option<String>,
}

impl View for ScreenshotState {
    type V = Option<Seq<char>>;

    closed spec fn view(&self) -> Option<Seq<char>> {
        match self.current {
            Some(s) => Some(s@),
            None => None,
        }
    }
}

/// What one completed write leaves in the store, whatever it held before.
pub open spec fn store_step(held: Option<Seq<char>>, written: Seq<char>) -> Option<Seq<char>> {
    Some(written)
}

/// What the store holds after a sequence of completed writes, in order.
pub open spec fn stored_after(init: Option<Seq<char>>, writes: Seq<Seq<char>>) -> Option<Seq<char>>
    decreases writes.len(),
{
    if writes.len() == 0 {
        init
    } else {
        store_step(stored_after(init, writes.drop_last()), writes.last())
    }
}

impl ScreenshotState {
    /// Creates a new empty screenshot state: no capture has happened yet.
    pub fn new() -> (s: Self)
        ensures
            s@ is None,
    {
        ScreenshotState { current: None }
    }

    /// Replaces the held screenshot with a complete new value.
    pub fn store(&mut self, data_url: String)
        ensures
            final(self)@ == Some(data_url@),
            final(self)@ == store_step(old(self)@, data_url@),
    {
        self.current = Some(data_url);
    }

    /// Returns a copy of the current screenshot, or nothing before any capture.
    pub fn get(&self) -> (r: Option<String>)
        ensures
            r is Some <==> self@ is Some,
            r matches Some(s) ==> self@ == Some(s@),
    {
        match &self.current {
            Some(s) => Some(s.clone()),
            None => None,
        }
    }
}

impl Default for ScreenshotState {
    /// An empty state, the same as `new`.
    fn default() -> (s: Self)
        ensures
            s@ is None,
    {
        ScreenshotState::new()
    }
}

/// Returns the currently stored screenshot, or nothing when no capture has
/// happened yet.
pub fn get_current_screenshot(state: &ScreenshotState) -> (r: Option<String>)
    ensures
        r is Some <==> state@ is Some,
        r matches Some(s) ==> state@ == Some(s@),
{
    state.get()
}

/// Law: before any capture the store is empty, and after any run of
/// completed captures it holds exactly the most recent one, however many
/// there were.
pub proof fn lemma_store_keeps_latest(init: Option<Seq<char>>, writes: Seq<Seq<char>>)
    ensures
        writes.len() == 0 ==> stored_after(init, writes) == init,
        writes.len() > 0 ==> stored_after(init, writes) == Some(writes.last()),
{
}

/// Law: when two captures land in either order, the store ends up holding
/// whichever landed last, entire — never a mixture of the two.
pub proof fn lemma_last_writer_wins(init: Option<Seq<char>>, first: Seq<char>, second: Seq<char>)
    ensures
        stored_after(init, seq![first, second]) == Some(second),
        stored_after(init, seq![second, first]) == Some(first),
{
    assert(seq![first, second].last() == second);
    assert(seq![second, first].last() == first);
}

} // verus!
