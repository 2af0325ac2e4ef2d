//! The progress protocol between a run and whatever reports on it. A run
//! announces its total once, then one `Inc` per unit of work attempted, then
//! a single `Done`; the reporting side counts `Inc`s until it sees `Done`.
use vstd::prelude::*;

verus! {

/// A message from a run to the reporting side.
#[derive(Clone, Copy, Debug, PartialEq, Eq, Structural)]
pub enum Progress {
    /// The number of units the run will attempt; sent once, first.
    Total(usize),
    /// The unit with this index was attempted.
    Inc(u64),
    /// The run is over.
    Done,
}

/// `Inc(0)`, `Inc(1)`, ... for the first `n` units.
pub open spec fn units(n: nat) -> Seq<Progress> {
    Seq::new(n, |i: int| Progress::Inc(i as u64))
}

/// What a run over `total` units has sent once it attempted `attempted` of
/// them, and `Done` if it is over.
pub open spec fn stream(total: nat, attempted: nat, finished: bool) -> Seq<Progress> {
    seq![Progress::Total(total as usize)] + units(attempted) + if finished {
        seq![Progress::Done]
    } else {
        Seq::empty()
    }
}

/// The sending side of a run: it can only send what the protocol allows.
pub struct Tracker {
    total: usize,
    attempted: usize,
    finished: bool,
    sent: Ghost<Seq<Progress>>,
}

impl Tracker {
    pub closed spec fn spec_total(&self) -> nat {
        self.total as nat
    }

    pub closed spec fn spec_attempted(&self) -> nat {
        self.attempted as nat
    }

    pub closed spec fn spec_finished(&self) -> bool {
        self.finished
    }

    /// Everything sent so far, in order.
    pub closed spec fn spec_sent(&self) -> Seq<Progress> {
        self.sent@
    }

    pub closed spec fn wf(&self) -> bool {
        &&& self.attempted <= self.total
        &&& self.finished ==> self.attempted == self.total
        &&& self.sent@ == stream(self.total as nat, self.attempted as nat, self.finished)
    }

    /// No more units are attempted than there are.
    pub proof fn lemma_bounds(&self)
        requires
            self.wf(),
        ensures
            self.spec_attempted() <= self.spec_total() <= usize::MAX,
            self.spec_finished() ==> self.spec_attempted() == self.spec_total(),
    {
    }

    /// Starts a run over `total` units; the message is the announcement of
    /// the total.
    pub fn new(total: usize) -> (r: (Tracker, Progress))
        ensures
            r.0.wf(),
            r.0.spec_total() == total,
            r.0.spec_attempted() == 0,
            !r.0.spec_finished(),
            r.1 == Progress::Total(total),
            r.0.spec_sent() == seq![r.1],
    {
        let ghost first = seq![Progress::Total(total)];
        let t = Tracker { total, attempted: 0, finished: false, sent: Ghost(first) };
        assert(t.sent@ =~= stream(total as nat, 0, false));
        (t, Progress::Total(total))
    }

    pub fn total(&self) -> (r: usize)
        ensures
            r == self.spec_total(),
    {
        self.total
    }

    pub fn attempted(&self) -> (r: usize)
        ensures
            r == self.spec_attempted(),
    {
        self.attempted
    }

    pub fn is_finished(&self) -> (r: bool)
        ensures
            r == self.spec_finished(),
    {
        self.finished
    }

    /// Records that the next unit was attempted and gives the `Inc` to send;
    /// gives `None` and changes nothing once every unit was attempted.
    pub fn unit(&mut self) -> (r: Option<Progress>)
        requires
            old(self).wf(),
        ensures
            final(self).wf(),
            final(self).spec_total() == old(self).spec_total(),
            final(self).spec_finished() == old(self).spec_finished(),
            old(self).spec_attempted() < old(self).spec_total() ==> {
                &&& r == Some(Progress::Inc(old(self).spec_attempted() as u64))
                &&& final(self).spec_attempted() == old(self).spec_attempted() + 1
                &&& final(self).spec_sent() == old(self).spec_sent().push(r->Some_0)
            },
            old(self).spec_attempted() == old(self).spec_total() ==> r is None && *final(self)
                == *old(self),
    {
        if self.attempted < self.total {
            let i = self.attempted;
            let p = Progress::Inc(i as u64);
            self.attempted = i + 1;
            let ghost sent = self.sent@.push(p);
            self.sent = Ghost(sent);
            assert(self.sent@ =~= stream(self.total as nat, self.attempted as nat, false));
            Some(p)
        } else {
            None
        }
    }

    /// Ends the run once every unit was attempted and gives the `Done` to
    /// send; gives `None` and changes nothing before that, or if it already
    /// ended.
    pub fn finish(&mut self) -> (r: Option<Progress>)
        requires
            old(self).wf(),
        ensures
            final(self).wf(),
            final(self).spec_total() == old(self).spec_total(),
            final(self).spec_attempted() == old(self).spec_attempted(),
            old(self).spec_attempted() == old(self).spec_total() && !old(self).spec_finished() ==> {
                &&& r == Some(Progress::Done)
                &&& final(self).spec_finished()
                &&& final(self).spec_sent() == old(self).spec_sent().push(Progress::Done)
            },
            !(old(self).spec_attempted() == old(self).spec_total() && !old(self).spec_finished())
                ==> r is None && *final(self) == *old(self),
    {
        if self.attempted == self.total && !self.finished {
            self.finished = true;
            let ghost sent = self.sent@.push(Progress::Done);
            self.sent = Ghost(sent);
            assert(self.sent@ =~= stream(self.total as nat, self.attempted as nat, true));
            Some(Progress::Done)
        } else {
            None
        }
    }
}

/// What the reporting side knows: the total, if it came, how many units it
/// counted, and whether the run is over.
#[derive(Clone, Copy, Debug, PartialEq, Eq, Structural)]
pub struct Report {
    pub total: Option<usize>,
    pub counted: usize,
    pub done: bool,
}

/// The reporting side's step on one message.
pub open spec fn report_step(r: Report, p: Progress) -> Report {
    match p {
        Progress::Total(n) => Report { total: Some(n), ..r },
        Progress::Inc(_) => if r.counted < usize::MAX {
            Report { counted: (r.counted + 1) as usize, ..r }
        } else {
            r
        },
        Progress::Done => Report { done: true, ..r },
    }
}

/// The reporting side after a whole sequence of messages.
pub open spec fn report_after(r: Report, s: Seq<Progress>) -> Report
    decreases s.len(),
{
    if s.len() == 0 {
        r
    } else {
        report_step(report_after(r, s.drop_last()), s.last())
    }
}

pub open spec fn fresh_report() -> Report {
    Report { total: None, counted: 0, done: false }
}

impl Report {
    /// Nothing received yet.
    pub fn new() -> (r: Report)
        ensures
            r == fresh_report(),
    {
        Report { total: None, counted: 0, done: false }
    }

    /// Takes one message; the result says whether to stop listening.
    pub fn receive(&mut self, p: Progress) -> (stop: bool)
        ensures
            *final(self) == report_step(*old(self), p),
            stop == final(self).done,
    {
        match p {
            Progress::Total(n) => {
                self.total = Some(n);
            },
            Progress::Inc(_) => {
                if self.counted < usize::MAX {
                    self.counted = self.counted + 1;
                }
            },
            Progress::Done => {
                self.done = true;
            },
        }
        self.done
    }
}

/// A run over `n` units that finished sent its total first, then exactly
/// `n` `Inc`s, then exactly one `Done`, last. The reporting side, fed that,
/// learns the total before the first `Inc`, does not stop before the last
/// message, and ends having counted `n` units.
pub proof fn lemma_finished_run_reported(t: Tracker)
    requires
        t.wf(),
        t.spec_finished(),
    ensures
        t.spec_sent() == stream(t.spec_total(), t.spec_total(), true),
        t.spec_sent()[0] == Progress::Total(t.spec_total() as usize),
        t.spec_sent().last() == Progress::Done,
        t.spec_sent().len() == t.spec_total() + 2,
        forall|i: int|
            1 <= i <= t.spec_total() ==> t.spec_sent()[i] == Progress::Inc((i - 1) as u64),
        forall|i: int|
            0 <= i < t.spec_sent().len() - 1 ==> !report_after(
                fresh_report(),
                #[trigger] t.spec_sent().subrange(0, i + 1),
            ).done,
        forall|i: int|
            1 <= i < t.spec_sent().len() ==> report_after(
                fresh_report(),
                #[trigger] t.spec_sent().subrange(0, i),
            ).total == Some(t.spec_total() as usize),
        report_after(fresh_report(), t.spec_sent()) == (Report {
            total: Some(t.spec_total() as usize),
            counted: t.spec_total() as usize,
            done: true,
        }),
{
    let n = t.spec_total();
    let s = t.spec_sent();
    assert forall|i: int| 1 <= i <= n implies s[i] == Progress::Inc((i - 1) as u64) by {}
    assert forall|k: int| 1 <= k <= n + 1 implies report_after(fresh_report(), s.subrange(0, k)) == (Report {
        total: Some(n as usize),
        counted: (k - 1) as usize,
        done: false,
    }) by {
        lemma_prefix_report(s, n, k);
    }
    assert(s.subrange(0, n as int + 1).push(Progress::Done) == s);
    assert(s.subrange(0, s.len() - 1) == s.subrange(0, n as int + 1));
    assert forall|i: int| 0 <= i < s.len() - 1 implies !report_after(
        fresh_report(),
        #[trigger] s.subrange(0, i + 1),
    ).done by {}
    assert forall|i: int| 1 <= i < s.len() implies report_after(
        fresh_report(),
        #[trigger] s.subrange(0, i),
    ).total == Some(n as usize) by {}
    assert(s.subrange(0, s.len() as int) == s);
    assert(s.drop_last() == s.subrange(0, n as int + 1));
}

proof fn lemma_prefix_report(s: Seq<Progress>, n: nat, k: int)
    requires
        s == stream(n, n, true),
        n <= usize::MAX,
        1 <= k <= n + 1,
    ensures
        report_after(fresh_report(), s.subrange(0, k)) == (Report {
            total: Some(n as usize),
            counted: (k - 1) as usize,
            done: false,
        }),
    decreases k,
{
    let p = s.subrange(0, k);
    assert(p.drop_last() == s.subrange(0, k - 1));
    if k == 1 {
        assert(s.subrange(0, 0).len() == 0);
    } else {
        lemma_prefix_report(s, n, k - 1);
        assert(p.last() == Progress::Inc((k - 2) as u64));
    }
}

} // verus!
