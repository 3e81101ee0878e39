//! The histories of the sessions that the live monitor shows.

use crate::text::same_text;
use vstd::prelude::*;

verus! {

/// Recent tokens of a session, sample by sample.
#[derive(Debug)]
struct SessionHistory {
    session_id: String,
    samples: Vec<u64>,
}

/// Recent tokens, sample by sample, of each session by its name.
#[derive(Debug)]
pub struct SessionHistories {
    entries: Vec<SessionHistory>,
}

/// The session `session_id` has the entry at `i`.
spec fn has_entry(entries: Seq<SessionHistory>, session_id: Seq<char>, i: int) -> bool {
    0 <= i < entries.len() && entries[i].session_id@ == session_id
}

/// The samples of each session that has an entry.
spec fn samples_by_session(entries: Seq<SessionHistory>) -> Map<Seq<char>, Seq<u64>> {
    Map::new(
        |session_id: Seq<char>| exists|i: int| has_entry(entries, session_id, i),
        |session_id: Seq<char>| entries[choose|i: int| has_entry(entries, session_id, i)].samples@,
    )
}

/// No session has two entries.
spec fn each_session_once(entries: Seq<SessionHistory>) -> bool {
    forall|i: int, j: int|
        0 <= i < j < entries.len() ==> #[trigger] entries[i].session_id@
            != #[trigger] entries[j].session_id@
}

proof fn an_entry_holds_the_samples(entries: Seq<SessionHistory>, i: int)
    requires
        each_session_once(entries),
        0 <= i < entries.len(),
    ensures
        samples_by_session(entries).contains_key(entries[i].session_id@),
        samples_by_session(entries)[entries[i].session_id@] == entries[i].samples@,
{
    let session_id = entries[i].session_id@;
    assert(has_entry(entries, session_id, i));
    let j = choose|j: int| has_entry(entries, session_id, j);
    assert(has_entry(entries, session_id, j));
    assert(i == j);
}

proof fn a_changed_entry_is_inserted(
    before: Seq<SessionHistory>,
    after: Seq<SessionHistory>,
    i: int,
)
    requires
        each_session_once(before),
        0 <= i <= before.len(),
        after == (if i < before.len() {
            before.update(i, after[i])
        } else {
            before.push(after[i])
        }),
        i < before.len() ==> before[i].session_id@ == after[i].session_id@,
        i == before.len() ==> forall|j: int|
            0 <= j < i ==> (#[trigger] before[j]).session_id@ != after[i].session_id@,
    ensures
        each_session_once(after),
        samples_by_session(after) == samples_by_session(before).insert(
            after[i].session_id@,
            after[i].samples@,
        ),
{
    assert(after.len() >= before.len());
    assert forall|j: int| 0 <= j < before.len() && j != i implies after[j] == before[j] by {}
    assert forall|j: int, k: int| 0 <= j < k < after.len() implies #[trigger] after[j].session_id@
        != #[trigger] after[k].session_id@ by {
        if k < before.len() {
            assert(before[j].session_id@ != before[k].session_id@);
        }
    }
    let left = samples_by_session(after);
    let right = samples_by_session(before).insert(after[i].session_id@, after[i].samples@);
    an_entry_holds_the_samples(after, i);
    assert forall|session_id: Seq<char>| left.contains_key(session_id) implies #[trigger]
        right.contains_key(session_id) && left[session_id] == right[session_id] by {
        let j = choose|j: int| has_entry(after, session_id, j);
        assert(has_entry(after, session_id, j));
        an_entry_holds_the_samples(after, j);
        if j != i {
            an_entry_holds_the_samples(before, j);
            assert(session_id != after[i].session_id@);
        }
    }
    assert forall|session_id: Seq<char>| right.contains_key(session_id) implies #[trigger]
        left.contains_key(session_id) by {
        if session_id != after[i].session_id@ {
            let j = choose|j: int| has_entry(before, session_id, j);
            assert(has_entry(before, session_id, j));
            assert(j != i);
            an_entry_holds_the_samples(after, j);
        }
    }
    assert(left =~= right);
}

impl View for SessionHistories {
    type V = Map<Seq<char>, Seq<u64>>;

    closed spec fn view(&self) -> Map<Seq<char>, Seq<u64>> {
        samples_by_session(self.entries@)
    }
}

impl SessionHistories {
    #[verifier::type_invariant]
    spec fn sound(self) -> bool {
        each_session_once(self.entries@)
    }

    /// No session has a history.
    pub fn new() -> (histories: Self)
        ensures
            histories@ == Map::<Seq<char>, Seq<u64>>::empty(),
    {
        let histories = SessionHistories { entries: Vec::new() };
        assert(histories@ =~= Map::<Seq<char>, Seq<u64>>::empty());
        histories
    }

    /// These histories, but for that of the session `session_id`, which has `samples`.
    pub fn with(self, session_id: &str, samples: Vec<u64>) -> (histories: Self)
        ensures
            histories@ == self@.insert(session_id@, samples@),
    {
        proof {
            use_type_invariant(&self);
        }
        let mut entries = self.entries;
        let ghost old_entries = entries@;
        let entry = SessionHistory { session_id: session_id.to_string(), samples };
        let mut i: usize = 0;
        while i < entries.len() && !same_text(entries[i].session_id.as_str(), session_id)
            invariant
                i <= entries@.len(),
                forall|j: int| 0 <= j < i ==> (#[trigger] entries@[j]).session_id@ != session_id@,
            decreases entries@.len() - i,
        {
            i = i + 1;
        }
        if i < entries.len() {
            entries.set(i, entry);
        } else {
            entries.push(entry);
        }
        proof {
            a_changed_entry_is_inserted(old_entries, entries@, i as int);
        }
        SessionHistories { entries }
    }

    /// The samples of the session `session_id`, if it has a history.
    pub fn samples(&self, session_id: &str) -> (samples: Option<&Vec<u64>>)
        ensures
            (match samples {
                Some(samples) => self@.contains_key(session_id@) && self@[session_id@] == samples@,
                None => !self@.contains_key(session_id@),
            }),
    {
        proof {
            use_type_invariant(self);
        }
        let mut i: usize = 0;
        while i < self.entries.len()
            invariant
                i <= self.entries@.len(),
                each_session_once(self.entries@),
                forall|j: int|
                    0 <= j < i ==> (#[trigger] self.entries@[j]).session_id@ != session_id@,
            decreases self.entries@.len() - i,
        {
            if same_text(self.entries[i].session_id.as_str(), session_id) {
                proof {
                    an_entry_holds_the_samples(self.entries@, i as int);
                }
                return Some(&self.entries[i].samples);
            }
            i = i + 1;
        }
        None
    }
}

} // verus!
