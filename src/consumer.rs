use vstd::prelude::*;

verus! {

/// What the download scheduler waits for next.
#[derive(PartialEq, Eq, Structural, Clone, Copy, Debug)]
pub enum Wait {
    /// Whichever comes first: a new download from the queue, or the end of one in flight.
    QueueOrDownload,
    /// The queue is closed: only the end of a download in flight.
    DownloadOnly,
    /// The queue is closed and nothing is in flight: the scheduler is done.
    Finished,
}

/// The state of the download scheduler.
pub struct ConsumerView {
    /// Downloads started and not yet resolved.
    pub in_flight: nat,
    /// The queue was closed: no more downloads will arrive.
    pub closed: bool,
    /// The failure of the first download that failed, if any did.
    pub failure: Option<Seq<char>>,
}

/// The download scheduler: how many downloads are in flight, whether the
/// queue is closed, and the first failure seen.
pub struct Consumer {
    in_flight: usize,
    closed: bool,
    failure: Option<String>,
}

impl View for Consumer {
    type V = ConsumerView;

    closed spec fn view(&self) -> ConsumerView {
        ConsumerView {
            in_flight: self.in_flight as nat,
            closed: self.closed,
            failure: match self.failure {
                Some(e) => Some(e@),
                None => None,
            },
        }
    }
}

/// What the scheduler waits for in state `v`.
pub open spec fn wait_of(v: ConsumerView) -> Wait {
    if !v.closed {
        Wait::QueueOrDownload
    } else if v.in_flight > 0 {
        Wait::DownloadOnly
    } else {
        Wait::Finished
    }
}

/// The state after a download in flight resolved with `result`; the first failure is kept.
pub open spec fn completed(v: ConsumerView, result: Result<(), Seq<char>>) -> ConsumerView {
    ConsumerView {
        in_flight: (v.in_flight - 1) as nat,
        failure: if v.failure is Some {
            v.failure
        } else {
            match result {
                Ok(_) => None,
                Err(e) => Some(e),
            }
        },
        ..v
    }
}

/// The state after the downloads in flight resolved, one after another, with `results`.
pub open spec fn settle(v: ConsumerView, results: Seq<Result<(), Seq<char>>>) -> ConsumerView
    decreases results.len(),
{
    if results.len() == 0 {
        v
    } else {
        settle(completed(v, results[0]), results.drop_first())
    }
}

/// The first failure among `results`.
pub open spec fn first_failure(results: Seq<Result<(), Seq<char>>>) -> Option<Seq<char>>
    decreases results.len(),
{
    if results.len() == 0 {
        None
    } else {
        match results[0] {
            Err(e) => Some(e),
            Ok(_) => first_failure(results.drop_first()),
        }
    }
}

/// The overall result of a finished scheduler.
pub open spec fn outcome_of(v: ConsumerView) -> Result<(), Seq<char>> {
    match v.failure {
        Some(e) => Err(e),
        None => Ok(()),
    }
}

impl Consumer {
    /// A scheduler with nothing in flight and the queue open.
    pub fn new() -> (r: Consumer)
        ensures
            r@ == (ConsumerView { in_flight: 0, closed: false, failure: None }),
    {
        Consumer { in_flight: 0, closed: false, failure: None }
    }

    /// What to wait for next: the queue and the downloads while the queue is
    /// open, then the downloads alone until none is left.
    pub fn wait(&self) -> (r: Wait)
        ensures
            r == wait_of(self@),
    {
        if !self.closed {
            Wait::QueueOrDownload
        } else if self.in_flight > 0 {
            Wait::DownloadOnly
        } else {
            Wait::Finished
        }
    }

    /// The scheduler is done exactly when the queue is closed and nothing is in flight.
    pub fn is_finished(&self) -> (r: bool)
        ensures
            r == (self@.closed && self@.in_flight == 0),
    {
        self.closed && self.in_flight == 0
    }

    /// Number of downloads in flight.
    pub fn in_flight(&self) -> (r: usize)
        ensures
            r == self@.in_flight,
    {
        self.in_flight
    }

    /// A download was taken from the open queue and started.
    pub fn on_received(&mut self)
        requires
            !old(self)@.closed,
            old(self)@.in_flight < usize::MAX,
        ensures
            final(self)@ == (ConsumerView { in_flight: old(self)@.in_flight + 1, ..old(self)@ }),
    {
        self.in_flight = self.in_flight + 1;
    }

    /// The queue reported that it is closed.
    pub fn on_closed(&mut self)
        ensures
            final(self)@ == (ConsumerView { closed: true, ..old(self)@ }),
    {
        self.closed = true;
    }

    /// A download in flight resolved with `result`.
    pub fn on_completed(&mut self, result: Result<(), String>)
        requires
            old(self)@.in_flight > 0,
        ensures
            final(self)@ == completed(
                old(self)@,
                match result {
                    Ok(_) => Ok(()),
                    Err(e) => Err(e@),
                },
            ),
    {
        self.in_flight = self.in_flight - 1;
        if self.failure.is_none() {
            if let Err(e) = result {
                self.failure = Some(e);
            }
        }
    }

    /// The overall result: the first failure, if any download failed.
    pub fn outcome(&self) -> (r: Result<(), String>)
        ensures
            r is Ok <==> self@.failure is None,
            r matches Err(e) ==> outcome_of(self@) == Err::<(), Seq<char>>(e@),
    {
        match &self.failure {
            Some(e) => Err(e.clone()),
            None => Ok(()),
        }
    }
}

/// Once the queue is closed, the resolution of the last download in flight
/// finishes the scheduler, whatever its result.
pub proof fn lemma_last_completion_finishes(v: ConsumerView, result: Result<(), Seq<char>>)
    requires
        v.closed,
        v.in_flight == 1,
    ensures
        wait_of(v) == Wait::DownloadOnly,
        wait_of(completed(v, result)) == Wait::Finished,
{
}

/// When the downloads in flight resolve, the scheduler keeps the first
/// failure among them (or an earlier one), and a failure is never forgotten.
pub proof fn lemma_settle(v: ConsumerView, results: Seq<Result<(), Seq<char>>>)
    requires
        v.in_flight >= results.len(),
    ensures
        settle(v, results).in_flight == v.in_flight - results.len(),
        settle(v, results).closed == v.closed,
        settle(v, results).failure == if v.failure is Some {
            v.failure
        } else {
            first_failure(results)
        },
    decreases results.len(),
{
    if results.len() > 0 {
        lemma_settle(completed(v, results[0]), results.drop_first());
    }
}

/// With the queue closed and `results` resolving every download in flight,
/// the scheduler finishes; it reports failure exactly when one of them
/// failed, and then the first such failure.
pub proof fn lemma_run_outcome(v: ConsumerView, results: Seq<Result<(), Seq<char>>>)
    requires
        v.closed,
        v.failure is None,
        v.in_flight == results.len(),
    ensures
        wait_of(settle(v, results)) == Wait::Finished,
        outcome_of(settle(v, results)) is Err <==> exists|i: int|
            0 <= i < results.len() && #[trigger] results[i] is Err,
        outcome_of(settle(v, results)) is Err ==> outcome_of(settle(v, results)) == Err::<
            (),
            Seq<char>,
        >(first_failure(results)->0),
    decreases results.len(),
{
    lemma_settle(v, results);
    lemma_first_failure(results);
}

proof fn lemma_first_failure(results: Seq<Result<(), Seq<char>>>)
    ensures
        first_failure(results) is Some <==> exists|i: int|
            0 <= i < results.len() && #[trigger] results[i] is Err,
    decreases results.len(),
{
    if results.len() > 0 {
        let rest = results.drop_first();
        lemma_first_failure(rest);
        if first_failure(rest) is Some {
            let i = choose|i: int| 0 <= i < rest.len() && #[trigger] rest[i] is Err;
            assert(results[i + 1] is Err);
        }
        if results[0] is Ok {
            assert forall|i: int| 0 <= i < results.len() && #[trigger] results[i] is Err implies first_failure(rest) is Some by {
                assert(rest[i - 1] is Err);
            }
        }
    }
}

} // verus!
