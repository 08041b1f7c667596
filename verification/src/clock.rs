//! The wall clock, and the log of the times read from it.

use vstd::prelude::*;

verus! {

/// The current time in RFC 3339 form: calls `chrono::Utc::now` and then
/// `DateTime::to_rfc3339` on the time it gives. Claimed: the text is not empty
/// (chrono always writes at least the date, the time and the offset). Which time it
/// shows depends on the clock and is left unsaid.
#[verifier::external_body]
fn current_timestamp() -> (res: String)
    ensures
        res@.len() > 0,
{
    chrono::Utc::now().to_rfc3339()
}

/// The wall clock. It keeps, as a ghost, every time read from it, so that a value
/// can be traced back to the reading it came from.
pub struct Clock {
    readings: Ghost<Seq<Seq<char>>>,
}

impl Clock {
    /// The times read so far, oldest first.
    pub closed spec fn readings(&self) -> Seq<Seq<char>> {
        self.readings@
    }

    /// A clock from which nothing has been read yet.
    pub fn new() -> (clock: Clock)
        ensures
            clock.readings() == Seq::<Seq<char>>::empty(),
    {
        Clock { readings: Ghost(Seq::empty()) }
    }

    /// Reads the current time, in RFC 3339 form; the reading is added to the log.
    pub fn now(&mut self) -> (stamp: String)
        ensures
            final(self).readings() == old(self).readings().push(stamp@),
            stamp@.len() > 0,
    {
        let stamp = current_timestamp();
        self.readings = Ghost(self.readings@.push(stamp@));
        stamp
    }
}

} // verus!
