//! The workflow stages of a task, in their fixed cyclic order.

use vstd::prelude::*;

verus! {

/// The stage of the workflow that a task is in. The five stages form a cycle:
/// after `Blocked` comes `Todo` again.
#[derive(Clone, Copy, Debug, PartialEq, Eq, Hash, Structural)]
pub enum KanbanStatus {
    Todo,
    Partial,
    Doing,
    Done,
    Blocked,
}

impl KanbanStatus {
    /// The place of this status in the fixed order, from 0 for `Todo` to 4
    /// for `Blocked`.
    pub open spec fn index(self) -> int {
        match self {
            KanbanStatus::Todo => 0,
            KanbanStatus::Partial => 1,
            KanbanStatus::Doing => 2,
            KanbanStatus::Done => 3,
            KanbanStatus::Blocked => 4,
        }
    }

    /// The status at place `i` of the fixed order; `Blocked` for every `i`
    /// past the end.
    pub open spec fn at(i: int) -> KanbanStatus {
        if i == 0 {
            KanbanStatus::Todo
        } else if i == 1 {
            KanbanStatus::Partial
        } else if i == 2 {
            KanbanStatus::Doing
        } else if i == 3 {
            KanbanStatus::Done
        } else {
            KanbanStatus::Blocked
        }
    }

    /// The status one step further round the cycle.
    pub open spec fn spec_next(self) -> KanbanStatus {
        Self::at((self.index() + 1) % 5)
    }

    /// The status one step back round the cycle.
    pub open spec fn spec_prev(self) -> KanbanStatus {
        Self::at((self.index() + 4) % 5)
    }

    /// The name of the status as it is shown above its column.
    pub open spec fn spec_name(self) -> Seq<char> {
        match self {
            KanbanStatus::Todo => "Todo"@,
            KanbanStatus::Partial => "Partial"@,
            KanbanStatus::Doing => "Doing"@,
            KanbanStatus::Done => "Done"@,
            KanbanStatus::Blocked => "Blocked"@,
        }
    }

    /// The five statuses in the order of the workflow, which is the order of
    /// the board's columns from left to right.
    pub fn all() -> (r: [KanbanStatus; 5])
        ensures
            forall|i: int| 0 <= i < 5 ==> #[trigger] r[i] == KanbanStatus::at(i),
    {
        [
            KanbanStatus::Todo,
            KanbanStatus::Partial,
            KanbanStatus::Doing,
            KanbanStatus::Done,
            KanbanStatus::Blocked,
        ]
    }

    /// The status that follows this one; `Todo` follows `Blocked`.
    pub fn next(&self) -> (r: KanbanStatus)
        ensures
            r == self.spec_next(),
    {
        match self {
            KanbanStatus::Todo => KanbanStatus::Partial,
            KanbanStatus::Partial => KanbanStatus::Doing,
            KanbanStatus::Doing => KanbanStatus::Done,
            KanbanStatus::Done => KanbanStatus::Blocked,
            KanbanStatus::Blocked => KanbanStatus::Todo,
        }
    }

    /// The status that precedes this one; `Blocked` precedes `Todo`.
    pub fn prev(&self) -> (r: KanbanStatus)
        ensures
            r == self.spec_prev(),
    {
        match self {
            KanbanStatus::Todo => KanbanStatus::Blocked,
            KanbanStatus::Partial => KanbanStatus::Todo,
            KanbanStatus::Doing => KanbanStatus::Partial,
            KanbanStatus::Done => KanbanStatus::Doing,
            KanbanStatus::Blocked => KanbanStatus::Done,
        }
    }

    /// The name of the status, for display.
    pub fn to_string(&self) -> (r: String)
        ensures
            r@ == self.spec_name(),
    {
        match self {
            KanbanStatus::Todo => "Todo".to_owned(),
            KanbanStatus::Partial => "Partial".to_owned(),
            KanbanStatus::Doing => "Doing".to_owned(),
            KanbanStatus::Done => "Done".to_owned(),
            KanbanStatus::Blocked => "Blocked".to_owned(),
        }
    }
}

impl Default for KanbanStatus {
    /// A task starts in `Todo`.
    fn default() -> (r: KanbanStatus)
        ensures
            r == KanbanStatus::Todo,
    {
        KanbanStatus::Todo
    }
}

/// `index` and `at` are inverse to each other on the five places.
pub proof fn lemma_status_index(s: KanbanStatus)
    ensures
        0 <= s.index() < 5,
        KanbanStatus::at(s.index()) == s,
{
}

/// Stepping forward and then back, or back and then forward, gives the
/// status one started from.
pub proof fn lemma_status_next_prev(s: KanbanStatus)
    ensures
        s.spec_next().spec_prev() == s,
        s.spec_prev().spec_next() == s,
{
}

/// The cycle has length five: five steps forward, or five steps back, lead
/// round to the start, and no fewer do.
pub proof fn lemma_status_cycle(s: KanbanStatus)
    ensures
        s.spec_next().spec_next().spec_next().spec_next().spec_next() == s,
        s.spec_prev().spec_prev().spec_prev().spec_prev().spec_prev() == s,
        s.spec_next() != s,
        s.spec_next().spec_next() != s,
        s.spec_next().spec_next().spec_next() != s,
        s.spec_next().spec_next().spec_next().spec_next() != s,
{
}

} // verus!
