//! The voting engine: time-boxed rounds of two kinds, each kind numbered by
//! its own counter.
//!
//! A round is created in progress and without votes, and is kept as created:
//! nothing here casts a vote or changes the status of a round.

use crate::counter::SequenceCounter;
use crate::types::{BlockNumber, Error, Vote, VoteKind, VoteStatus};
use vstd::prelude::*;

verus! {

/// A list that can be the rounds of one kind: each ends after it starts.
pub open spec fn valid_rounds(rounds: Seq<Vote>) -> bool {
    forall|i: int| 0 <= i < rounds.len() ==> (#[trigger] rounds[i]).start < rounds[i].end
}

/// The rounds of one kind by id, and the id assigned last.
#[verifier::ext_equal]
pub struct RoundsView {
    pub entries: Map<u64, Vote>,
    pub count: nat,
}

impl RoundsView {
    pub open spec fn empty() -> RoundsView {
        RoundsView { entries: Map::empty(), count: 0 }
    }

    /// The log that holds the listed rounds, the first under id 1.
    pub open spec fn of_list(rounds: Seq<Vote>) -> RoundsView {
        RoundsView {
            entries: Map::new(|id: u64| 1 <= id <= rounds.len(), |id: u64| rounds[id - 1]),
            count: rounds.len(),
        }
    }

    /// The ids in use are exactly 1 up to the count, and every round ends
    /// after it starts.
    pub open spec fn wf(self) -> bool {
        &&& self.count <= u64::MAX
        &&& forall|id: u64| #[trigger] self.entries.contains_key(id) <==> 1 <= id <= self.count
        &&& forall|id: u64| #[trigger]
            self.entries.contains_key(id) ==> self.entries[id].start < self.entries[id].end
    }

    /// The outcome of opening a round at `now` for `window` units: its id,
    /// or the reason for the refusal.
    pub open spec fn open_result(self, now: BlockNumber, window: u32) -> Result<u64, Error> {
        if window == 0 {
            Err(Error::VotingWindowNotValid)
        } else if self.count >= u64::MAX {
            Err(Error::Overflow)
        } else if now + window > u64::MAX {
            Err(Error::Overflow)
        } else {
            Ok((self.count + 1) as u64)
        }
    }

    /// The rounds after an attempt to open one on `document_id`.
    pub open spec fn open(self, document_id: u64, now: BlockNumber, window: u32) -> RoundsView {
        match self.open_result(now, window) {
            Ok(id) => RoundsView {
                entries: self.entries.insert(id, Vote::opened(document_id, now, window)),
                count: self.count + 1,
            },
            Err(_) => self,
        }
    }
}

/// The rounds of one kind, in the order of their ids.
#[derive(Clone, Debug, PartialEq, Eq)]
pub struct RoundLog {
    rounds: Vec<Vote>,
    counter: SequenceCounter,
}

impl View for RoundLog {
    type V = RoundsView;

    closed spec fn view(&self) -> RoundsView {
        RoundsView {
            entries: Map::new(|id: u64| 1 <= id <= self.rounds.len(), |id: u64| self.rounds[id - 1]),
            count: self.counter.value(),
        }
    }
}

impl RoundLog {
    /// What the fields must satisfy beyond what the view shows.
    pub closed spec fn inv(&self) -> bool {
        &&& self.counter.wf()
        &&& self.counter.limit() == u64::MAX
        &&& self.counter.value() == self.rounds.len()
    }

    pub open spec fn wf(&self) -> bool {
        self.inv() && self@.wf()
    }

    /// A log without rounds.
    pub fn new() -> (l: RoundLog)
        ensures
            l.wf(),
            l@ == RoundsView::empty(),
    {
        RoundLog { rounds: Vec::new(), counter: SequenceCounter::wide() }
    }

    /// The log that holds the listed rounds, if each ends after it starts.
    pub fn restore(rounds: Vec<Vote>) -> (l: Option<RoundLog>)
        ensures
            l is Some <==> valid_rounds(rounds@),
            l matches Some(l) ==> l.wf() && l@ == RoundsView::of_list(rounds@),
    {
        let n = rounds.len();
        let mut i: usize = 0;
        while i < n
            invariant
                i <= n == rounds.len(),
                forall|j: int| 0 <= j < i ==> (#[trigger] rounds[j]).start < rounds[j].end,
            decreases n - i,
        {
            if rounds[i].start >= rounds[i].end {
                return None;
            }
            i = i + 1;
        }
        let counter = match SequenceCounter::resume(n as u64, 0xffff_ffff_ffff_ffff) {
            Some(counter) => counter,
            None => {
                return None;
            },
        };
        Some(RoundLog { rounds, counter })
    }

    /// All rounds, in the order of their ids.
    pub fn list(&self) -> (v: Vec<Vote>)
        requires
            self.wf(),
        ensures
            valid_rounds(v@),
            RoundsView::of_list(v@) == self@,
    {
        let mut v: Vec<Vote> = Vec::new();
        let mut i: usize = 0;
        while i < self.rounds.len()
            invariant
                i <= self.rounds.len(),
                v@ == self.rounds@.subrange(0, i as int),
            decreases self.rounds.len() - i,
        {
            v.push(self.rounds[i]);
            i = i + 1;
        }
        proof {
            assert forall|j: int| 0 <= j < v@.len() implies (#[trigger] v@[j]).start
                < v@[j].end by {
                let id = (j + 1) as u64;
                assert(self@.entries.contains_key(id));
            }
        }
        v
    }

    /// The id assigned last, which is the number of rounds.
    pub fn count(&self) -> (n: u64)
        ensures
            n == self@.count,
    {
        self.counter.current()
    }

    /// The round kept under `id`.
    pub fn get(&self, id: u64) -> (v: Option<Vote>)
        requires
            self.wf(),
        ensures
            v == (if self@.entries.contains_key(id) {
                Some(self@.entries[id])
            } else {
                None
            }),
    {
        if 1 <= id && id <= self.counter.current() {
            Some(self.rounds[(id - 1) as usize])
        } else {
            None
        }
    }

    /// Opens a round on `document_id` that starts at `now` and ends `window`
    /// units later, with no votes cast and status `InProgress`.
    ///
    /// Fails with `VotingWindowNotValid` if `window` is 0, and with
    /// `Overflow` if all ids are spent or the end would not fit in 64 bits.
    pub fn open(&mut self, document_id: u64, now: BlockNumber, window: u32) -> (r: Result<
        u64,
        Error,
    >)
        requires
            old(self).wf(),
        ensures
            final(self).wf(),
            r == old(self)@.open_result(now, window),
            final(self)@ == old(self)@.open(document_id, now, window),
    {
        if window == 0 {
            return Err(Error::VotingWindowNotValid);
        }
        if let Err(e) = self.counter.peek() {
            return Err(e);
        }
        let end = match now.checked_add(window as u64) {
            Some(end) => end,
            None => {
                return Err(Error::Overflow);
            },
        };
        let id = match self.counter.next() {
            Ok(id) => id,
            Err(e) => {
                return Err(e);
            },
        };
        let ghost before = self.rounds@;
        let vote = Vote {
            document_id,
            yes_votes: 0,
            no_votes: 0,
            start: now,
            end,
            status: VoteStatus::InProgress,
        };
        self.rounds.push(vote);
        proof {
            let expected = old(self)@.open(document_id, now, window);
            assert forall|i: int| 0 <= i < before.len() implies self.rounds@[i] == before[i] by {}
            assert(self@.entries =~= expected.entries);
        }
        Ok(id)
    }
}

/// What a [`VotingEngine`] holds: the rounds of each kind.
#[verifier::ext_equal]
pub struct VotingView {
    pub qualification: RoundsView,
    pub verification: RoundsView,
}

impl VotingView {
    pub open spec fn empty() -> VotingView {
        VotingView { qualification: RoundsView::empty(), verification: RoundsView::empty() }
    }

    pub open spec fn rounds(self, kind: VoteKind) -> RoundsView {
        match kind {
            VoteKind::Qualification => self.qualification,
            VoteKind::Verification => self.verification,
        }
    }

    pub open spec fn wf(self) -> bool {
        self.qualification.wf() && self.verification.wf()
    }

    /// The engine after an attempt to open a round of `kind`.
    pub open spec fn open(
        self,
        kind: VoteKind,
        document_id: u64,
        now: BlockNumber,
        window: u32,
    ) -> VotingView {
        match kind {
            VoteKind::Qualification => VotingView {
                qualification: self.qualification.open(document_id, now, window),
                ..self
            },
            VoteKind::Verification => VotingView {
                verification: self.verification.open(document_id, now, window),
                ..self
            },
        }
    }
}

/// The rounds of both kinds.
#[derive(Clone, Debug, PartialEq, Eq)]
pub struct VotingEngine {
    qualification: RoundLog,
    verification: RoundLog,
}

impl View for VotingEngine {
    type V = VotingView;

    closed spec fn view(&self) -> VotingView {
        VotingView { qualification: self.qualification@, verification: self.verification@ }
    }
}

impl VotingEngine {
    /// What the fields must satisfy beyond what the view shows.
    pub closed spec fn inv(&self) -> bool {
        self.qualification.inv() && self.verification.inv()
    }

    pub open spec fn wf(&self) -> bool {
        self.inv() && self@.wf()
    }

    /// An engine without rounds.
    pub fn new() -> (e: VotingEngine)
        ensures
            e.wf(),
            e@ == VotingView::empty(),
    {
        VotingEngine { qualification: RoundLog::new(), verification: RoundLog::new() }
    }

    /// The engine that holds the listed rounds of each kind, if every round
    /// ends after it starts.
    pub fn restore(qualification: Vec<Vote>, verification: Vec<Vote>) -> (e: Option<
        VotingEngine,
    >)
        ensures
            e is Some <==> valid_rounds(qualification@) && valid_rounds(verification@),
            e matches Some(e) ==> e.wf() && e@ == (VotingView {
                qualification: RoundsView::of_list(qualification@),
                verification: RoundsView::of_list(verification@),
            }),
    {
        let qualification = match RoundLog::restore(qualification) {
            Some(log) => log,
            None => {
                return None;
            },
        };
        let verification = match RoundLog::restore(verification) {
            Some(log) => log,
            None => {
                return None;
            },
        };
        Some(VotingEngine { qualification, verification })
    }

    /// All rounds of `kind`, in the order of their ids.
    pub fn list(&self, kind: VoteKind) -> (v: Vec<Vote>)
        requires
            self.wf(),
        ensures
            valid_rounds(v@),
            RoundsView::of_list(v@) == self@.rounds(kind),
    {
        match kind {
            VoteKind::Qualification => self.qualification.list(),
            VoteKind::Verification => self.verification.list(),
        }
    }

    /// The number of rounds of `kind` opened so far.
    pub fn count(&self, kind: VoteKind) -> (n: u64)
        ensures
            n == self@.rounds(kind).count,
    {
        match kind {
            VoteKind::Qualification => self.qualification.count(),
            VoteKind::Verification => self.verification.count(),
        }
    }

    /// The round of `kind` kept under `id`.
    pub fn get(&self, kind: VoteKind, id: u64) -> (v: Option<Vote>)
        requires
            self.wf(),
        ensures
            v == (if self@.rounds(kind).entries.contains_key(id) {
                Some(self@.rounds(kind).entries[id])
            } else {
                None
            }),
    {
        match kind {
            VoteKind::Qualification => self.qualification.get(id),
            VoteKind::Verification => self.verification.get(id),
        }
    }

    /// Opens a round of `kind` on `document_id`; see [`RoundLog::open`].
    pub fn open_round(
        &mut self,
        kind: VoteKind,
        document_id: u64,
        now: BlockNumber,
        window: u32,
    ) -> (r: Result<u64, Error>)
        requires
            old(self).wf(),
        ensures
            final(self).wf(),
            r == old(self)@.rounds(kind).open_result(now, window),
            final(self)@ == old(self)@.open(kind, document_id, now, window),
    {
        match kind {
            VoteKind::Qualification => self.qualification.open(document_id, now, window),
            VoteKind::Verification => self.verification.open(document_id, now, window),
        }
    }
}

} // verus!
