//! The vanity-key search: shared coordination state and the search driver.
//!
//! The coordination state is a one-way `found` flag, a lost-update-free
//! attempt counter, and a write-once match result. Workers race: each draws
//! fresh keypairs and tests their addresses; the first match flips the flag
//! and records the result; later workers observe the flag and stop without
//! touching the recorded result.

use vstd::prelude::*;

use crate::keys::{base58_of, Candidate};
use crate::matching::{address_matches, lemma_empty_prefix_matches, spec_address_matches};

verus! {

/// The mathematical image of a recorded match.
pub struct MatchModel {
    pub key_bytes: Seq<u8>,
    pub address: Seq<u8>,
    pub attempt: int,
}

/// The mathematical image of the shared search state.
pub struct SessionModel {
    pub prefix: Seq<u8>,
    pub found: bool,
    pub attempts: int,
    pub result: Option<MatchModel>,
}

/// The winning candidate together with the attempt number at which it was
/// drawn.
pub struct MatchResult {
    pub candidate: Candidate,
    pub attempt: u64,
}

/// The image of a candidate recorded at a given attempt.
pub open spec fn match_model(c: Candidate, attempt: u64) -> MatchModel {
    MatchModel { key_bytes: c.key_bytes@, address: c.address@, attempt: attempt as int }
}

impl View for MatchResult {
    type V = MatchModel;

    open spec fn view(&self) -> MatchModel {
        match_model(self.candidate, self.attempt)
    }
}

/// A session is well formed when the flag stands exactly while a result is
/// recorded, and the recorded result is a well-formed match of the target:
/// a full keypair whose address is the base58 rendering of its public key,
/// matches the prefix, and was found at a positive attempt number no larger
/// than the total.
pub open spec fn session_wf(s: SessionModel) -> bool {
    &&& s.found <==> s.result is Some
    &&& s.attempts >= 0
    &&& s.found ==> s.attempts >= 1
    &&& s.result matches Some(m) ==> {
        &&& m.key_bytes.len() == 64
        &&& m.address == base58_of(m.key_bytes.subrange(32, 64))
        &&& spec_address_matches(m.address, s.prefix)
        &&& 1 <= m.attempt <= s.attempts
    }
}

/// One attempt is booked: the counter grows by exactly one and nothing else
/// moves.
pub open spec fn bump_step(s: SessionModel) -> SessionModel {
    SessionModel { attempts: s.attempts + 1, ..s }
}

/// A match is offered for recording: only a session that holds no result yet
/// accepts it; a session whose flag already stands is left untouched.
pub open spec fn record_step(s: SessionModel, m: MatchModel) -> SessionModel {
    if s.found {
        s
    } else {
        SessionModel { found: true, result: Some(m), ..s }
    }
}

/// The shared search state: target prefix, completion flag, attempt counter
/// and the recorded result.
pub struct SearchSession {
    prefix: Vec<u8>,
    found: bool,
    attempts: u64,
    result: Option<MatchResult>,
}

impl View for SearchSession {
    type V = SessionModel;

    closed spec fn view(&self) -> SessionModel {
        SessionModel {
            prefix: self.prefix@,
            found: self.found,
            attempts: self.attempts as int,
            result: match self.result {
                Some(m) => Some(m@),
                None => None,
            },
        }
    }
}

impl SearchSession {
    pub open spec fn wf(&self) -> bool {
        session_wf(self@)
    }

    /// A fresh session: flag down, counter at zero, no result.
    pub fn new(prefix: Vec<u8>) -> (s: Self)
        ensures
            s.wf(),
            s@.prefix == prefix@,
            !s@.found,
            s@.attempts == 0,
            s@.result is None,
    {
        SearchSession { prefix, found: false, attempts: 0, result: None }
    }

    /// Observe the completion flag.
    pub fn is_found(&self) -> (b: bool)
        ensures
            b == self@.found,
    {
        self.found
    }

    /// The attempts booked so far.
    pub fn attempts_so_far(&self) -> (n: u64)
        ensures
            n == self@.attempts,
    {
        self.attempts
    }

    /// The target prefix of this session.
    pub fn prefix(&self) -> (p: &Vec<u8>)
        ensures
            p@ == self@.prefix,
    {
        &self.prefix
    }

    /// Book one attempt and return its number. No increment is ever lost:
    /// the counter grows by exactly one.
    pub fn next_attempt(&mut self) -> (n: u64)
        requires
            old(self).wf(),
            old(self)@.attempts < u64::MAX,
        ensures
            final(self).wf(),
            final(self)@ == bump_step(old(self)@),
            n == final(self)@.attempts,
    {
        self.attempts = self.attempts + 1;
        self.attempts
    }

    /// Offer a matching candidate for recording. Exactly the first offer
    /// after the flag went down wins; a losing offer changes nothing, so the
    /// recorded result is never overwritten.
    pub fn try_record(&mut self, candidate: Candidate, attempt: u64) -> (won: bool)
        requires
            old(self).wf(),
            candidate.wf(),
            spec_address_matches(candidate.address@, old(self)@.prefix),
            1 <= attempt <= old(self)@.attempts,
        ensures
            final(self).wf(),
            won == !old(self)@.found,
            final(self)@ == record_step(old(self)@, match_model(candidate, attempt)),
    {
        if self.found {
            false
        } else {
            self.found = true;
            self.result = Some(MatchResult { candidate, attempt });
            true
        }
    }

    /// Hand the recorded result out, consuming the session.
    pub fn into_result(self) -> (r: Option<MatchResult>)
        requires
            self.wf(),
        ensures
            r is Some <==> self@.found,
            r matches Some(m) ==> self@.result == Some(m@),
    {
        self.result
    }
}

/// Once a result is recorded, every later recording step leaves the session
/// unchanged: at most one match result is ever recorded, and the first
/// winner's result stands for good.
pub proof fn lemma_at_most_one_record(s: SessionModel, m1: MatchModel, m2: MatchModel)
    ensures
        record_step(record_step(s, m1), m2) == record_step(s, m1),
{
}

/// The completion flag moves one way: booking attempts never changes it, and
/// recording only raises it.
pub proof fn lemma_flag_one_way(s: SessionModel, m: MatchModel)
    ensures
        bump_step(s).found == s.found,
        record_step(s, m).found,
{
}

/// The total of a sequence of per-worker counters.
pub open spec fn sum_u64(s: Seq<u64>) -> int
    decreases s.len(),
{
    if s.len() == 0 {
        0
    } else {
        s[0] + sum_u64(s.drop_first())
    }
}

pub proof fn lemma_sum_nonneg(s: Seq<u64>)
    ensures
        sum_u64(s) >= 0,
    decreases s.len(),
{
    if s.len() > 0 {
        lemma_sum_nonneg(s.drop_first());
    }
}

pub proof fn lemma_sum_push(s: Seq<u64>, v: u64)
    ensures
        sum_u64(s.push(v)) == sum_u64(s) + v,
    decreases s.len(),
{
    assert(sum_u64(s.push(v)) == s.push(v)[0] + sum_u64(s.push(v).drop_first()));
    if s.len() == 0 {
        assert(s.push(v).drop_first() =~= Seq::<u64>::empty());
    } else {
        assert(s.push(v).drop_first() =~= s.drop_first().push(v));
        lemma_sum_push(s.drop_first(), v);
    }
}

pub proof fn lemma_sum_update(s: Seq<u64>, i: int, v: u64)
    requires
        0 <= i < s.len(),
    ensures
        sum_u64(s.update(i, v)) == sum_u64(s) - s[i] + v,
    decreases s.len(),
{
    if i == 0 {
        assert(s.update(0, v).drop_first() =~= s.drop_first());
    } else {
        assert(s.update(i, v).drop_first() =~= s.drop_first().update(i - 1, v));
        lemma_sum_update(s.drop_first(), i - 1, v);
    }
}

pub proof fn lemma_element_le_sum(s: Seq<u64>, i: int)
    requires
        0 <= i < s.len(),
    ensures
        s[i] <= sum_u64(s),
    decreases s.len(),
{
    if i == 0 {
        lemma_sum_nonneg(s.drop_first());
    } else {
        lemma_element_le_sum(s.drop_first(), i - 1);
        assert(s[i] == s.drop_first()[i - 1]);
    }
}

/// The mathematical image of a worker pool.
pub struct PoolModel {
    pub session: SessionModel,
    pub counts: Seq<u64>,
}

/// A fixed pool of workers sharing one session, with a per-worker attempt
/// counter kept beside the shared total.
pub struct WorkerPool {
    session: SearchSession,
    counts: Vec<u64>,
}

impl View for WorkerPool {
    type V = PoolModel;

    closed spec fn view(&self) -> PoolModel {
        PoolModel { session: self.session@, counts: self.counts@ }
    }
}

impl WorkerPool {
    /// The pool is well formed when its session is, there is at least one
    /// worker, and the shared counter equals the sum of the per-worker
    /// counters: no increment is lost.
    pub open spec fn wf(&self) -> bool {
        &&& session_wf(self@.session)
        &&& self@.counts.len() >= 1
        &&& self@.session.attempts == sum_u64(self@.counts)
    }

    /// A fresh pool of `workers` workers over a fresh session.
    pub fn new(prefix: Vec<u8>, workers: usize) -> (p: Self)
        requires
            workers >= 1,
        ensures
            p.wf(),
            p@.session.prefix == prefix@,
            !p@.session.found,
            p@.session.attempts == 0,
            p@.counts.len() == workers,
            forall|i: int| 0 <= i < workers ==> p@.counts[i] == 0,
    {
        let session = SearchSession::new(prefix);
        let mut counts: Vec<u64> = Vec::new();
        let mut i: usize = 0;
        while i < workers
            invariant
                0 <= i <= workers,
                counts@.len() == i,
                sum_u64(counts@) == 0,
                forall|j: int| 0 <= j < i ==> counts@[j] == 0,
            decreases workers - i,
        {
            proof {
                lemma_sum_push(counts@, 0);
            }
            counts.push(0);
            i = i + 1;
        }
        WorkerPool { session, counts }
    }

    /// Observe the completion flag.
    pub fn finished(&self) -> (b: bool)
        ensures
            b == self@.session.found,
    {
        self.session.is_found()
    }

    /// The attempts booked so far, over all workers.
    pub fn attempts_so_far(&self) -> (n: u64)
        ensures
            n == self@.session.attempts,
    {
        self.session.attempts_so_far()
    }

    /// The per-worker attempt counters.
    pub fn worker_attempts(&self) -> (c: &Vec<u64>)
        ensures
            c@ == self@.counts,
    {
        &self.counts
    }

    /// One iteration of worker `w`'s loop, with the drawn candidate handed
    /// in. A worker that observes the flag stops at once and changes
    /// nothing; otherwise it books one attempt on the shared counter and on
    /// its own, then records the candidate exactly when its address matches.
    pub fn step_with_candidate(&mut self, w: usize, candidate: Candidate) -> (done: bool)
        requires
            old(self).wf(),
            candidate.wf(),
            w < old(self)@.counts.len(),
            old(self)@.session.attempts < u64::MAX,
        ensures
            final(self).wf(),
            final(self)@.counts.len() == old(self)@.counts.len(),
            final(self)@.session.prefix == old(self)@.session.prefix,
            done == final(self)@.session.found,
            old(self)@.session.found ==> final(self)@ == old(self)@ && done,
            !old(self)@.session.found ==> {
                &&& final(self)@.session.attempts == old(self)@.session.attempts + 1
                &&& final(self)@.counts == old(self)@.counts.update(
                    w as int,
                    (old(self)@.counts[w as int] + 1) as u64,
                )
                &&& spec_address_matches(candidate.address@, old(self)@.session.prefix)
                    ==> final(self)@.session.found && final(self)@.session.result == Some(
                    match_model(candidate, (old(self)@.session.attempts + 1) as u64),
                )
                &&& !spec_address_matches(candidate.address@, old(self)@.session.prefix)
                    ==> !final(self)@.session.found && final(self)@.session.result is None
            },
    {
        if self.session.is_found() {
            return true;
        }
        let n = self.session.next_attempt();
        proof {
            lemma_element_le_sum(self.counts@, w as int);
            lemma_sum_update(self.counts@, w as int, (self.counts@[w as int] + 1) as u64);
        }
        let booked = self.counts[w];
        self.counts.set(w, booked + 1);
        let matched = address_matches(candidate.address.as_slice(), self.session.prefix().as_slice());
        if matched {
            self.session.try_record(candidate, n);
            true
        } else {
            false
        }
    }

    /// One iteration of worker `w`'s loop: observe the flag, and if it is
    /// down, draw one fresh keypair, book the attempt and test the address.
    /// An empty target prefix matches whatever was drawn, so such a step
    /// always leaves the flag up.
    pub fn step(&mut self, w: usize) -> (done: bool)
        requires
            old(self).wf(),
            w < old(self)@.counts.len(),
            old(self)@.session.attempts < u64::MAX,
        ensures
            final(self).wf(),
            final(self)@.counts.len() == old(self)@.counts.len(),
            final(self)@.session.prefix == old(self)@.session.prefix,
            done == final(self)@.session.found,
            old(self)@.session.found ==> final(self)@ == old(self)@ && done,
            !old(self)@.session.found ==> final(self)@.session.attempts == old(self)@.session.attempts + 1
                && final(self)@.counts == old(self)@.counts.update(
                w as int,
                (old(self)@.counts[w as int] + 1) as u64,
            ),
            old(self)@.session.prefix.len() == 0 ==> final(self)@.session.found,
    {
        if self.session.is_found() {
            return true;
        }
        let candidate = Candidate::generate();
        proof {
            if old(self)@.session.prefix.len() == 0 {
                assert(old(self)@.session.prefix =~= Seq::<u8>::empty());
                lemma_empty_prefix_matches(candidate.address@);
            }
        }
        self.step_with_candidate(w, candidate)
    }

    /// Hand the recorded result out, consuming the pool.
    pub fn into_result(self) -> (r: Option<MatchResult>)
        requires
            self.wf(),
        ensures
            r is Some <==> self@.session.found,
            r matches Some(m) ==> self@.session.result == Some(m@),
    {
        self.session.into_result()
    }
}

/// What a finished search reports: the winning match, or the spent budget.
pub enum SearchOutcome {
    /// A match was recorded.
    Found(MatchResult),
    /// The attempt budget was spent without a match; carries the number of
    /// attempts made.
    Exhausted(u64),
}

/// Search for a keypair whose address, case-normalized, starts with
/// `prefix`: `workers` workers take turns, each drawing one fresh keypair
/// per turn, until a match is recorded or `max_attempts` attempts have been
/// spent. A trivial target — the empty prefix — is owed a match outright,
/// whatever the randomness draws, as soon as one attempt is allowed.
pub fn find_vanity_key(prefix: Vec<u8>, workers: usize, max_attempts: u64) -> (r: SearchOutcome)
    requires
        workers >= 1,
    ensures
        match r {
            SearchOutcome::Found(m) => {
                &&& m.candidate.wf()
                &&& spec_address_matches(m.candidate.address@, prefix@)
                &&& 1 <= m.attempt <= max_attempts
            },
            SearchOutcome::Exhausted(n) => n == max_attempts,
        },
        prefix@.len() == 0 && max_attempts >= 1 ==> r is Found,
{
    let ghost target = prefix@;
    let mut pool = WorkerPool::new(prefix, workers);
    let mut w: usize = 0;
    loop
        invariant
            pool.wf(),
            pool@.session.prefix == target,
            pool@.counts.len() == workers,
            workers >= 1,
            w < workers,
            pool@.session.attempts <= max_attempts,
            target.len() == 0 && pool@.session.attempts >= 1 ==> pool@.session.found,
        ensures
            pool.wf(),
            pool@.session.prefix == target,
            pool@.session.attempts <= max_attempts,
            pool@.session.found || pool@.session.attempts == max_attempts,
            target.len() == 0 && pool@.session.attempts >= 1 ==> pool@.session.found,
        decreases
            max_attempts - pool@.session.attempts,
            if pool@.session.found { 0int } else { 1int },
    {
        if pool.finished() {
            break;
        }
        if pool.attempts_so_far() == max_attempts {
            break;
        }
        pool.step(w);
        w = if w + 1 < workers { w + 1 } else { 0 };
    }
    let attempts = pool.attempts_so_far();
    match pool.into_result() {
        Some(m) => SearchOutcome::Found(m),
        None => SearchOutcome::Exhausted(attempts),
    }
}

} // verus!
