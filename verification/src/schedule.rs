use vstd::prelude::*;

verus! {

/// Day of the week. Topics are scheduled on an unordered set of weekdays.
#[derive(Clone, Copy, PartialEq, Eq, Structural, Debug)]
pub enum Weekday {
    Mon,
    Tue,
    Wed,
    Thu,
    Fri,
    Sat,
    Sun,
}

/// One configured digest topic: the free-text topic to search for, the
/// subject line and recipient of the digest email, and the weekdays on
/// which the topic is due. Loaded once at startup and read-only afterwards.
pub struct CustomEmail {
    pub topic: String,
    pub subject: String,
    pub schedule: Vec<Weekday>,
    pub send_to: String,
}

/// A topic is due on `today` exactly when `today` is a member of its
/// configured schedule; membership is positional-order-independent.
pub open spec fn spec_is_due(schedule: Seq<Weekday>, today: Weekday) -> bool {
    schedule.contains(today)
}

/// Schedule evaluation: returns true iff `today` is in the topic's schedule.
pub fn is_due(email: &CustomEmail, today: Weekday) -> (due: bool)
    ensures
        due == spec_is_due(email.schedule@, today),
{
    let mut i: usize = 0;
    while i < email.schedule.len()
        invariant
            i <= email.schedule.len(),
            forall|j: int| 0 <= j < i ==> email.schedule@[j] != today,
        decreases email.schedule.len() - i,
    {
        if email.schedule[i] == today {
            return true;
        }
        i += 1;
    }
    false
}

} // verus!
