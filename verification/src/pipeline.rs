//! The policy of a command batch: commands run in their order, every
//! command adds its message to the results, and the first failure ends the
//! batch. What ran before a failure is not undone.

use vstd::prelude::*;

verus! {

/// The view of what one command yields: its success message or its error message.
pub open spec fn outcome_view(outcome: Result<String, String>) -> Result<Seq<char>, Seq<char>> {
    match outcome {
        Ok(message) => Ok(message@),
        Err(message) => Err(message@),
    }
}

/// The views of a list of outcomes, in order.
pub open spec fn outcome_views(outcomes: Seq<Result<String, String>>) -> Seq<Result<Seq<char>, Seq<char>>> {
    Seq::new(outcomes.len(), |i: int| outcome_view(outcomes[i]))
}

/// The message that an outcome contributes to the results of its batch.
pub open spec fn message_of(outcome: Result<Seq<char>, Seq<char>>) -> Seq<char> {
    match outcome {
        Ok(message) => message,
        Err(message) => message,
    }
}

/// The state of a batch: the messages of the commands that ran, and whether
/// the last of them failed.
pub struct BatchView {
    pub results: Seq<Seq<char>>,
    pub failed: bool,
}

impl BatchView {
    /// A batch of which no command has run.
    pub open spec fn start() -> Self {
        BatchView { results: Seq::empty(), failed: false }
    }

    /// The batch after one more command came to `outcome`. A batch that has
    /// failed runs nothing more and stays as it is.
    pub open spec fn record(self, outcome: Result<Seq<char>, Seq<char>>) -> Self {
        if self.failed {
            self
        } else {
            BatchView { results: self.results.push(message_of(outcome)), failed: outcome is Err }
        }
    }

    /// What the caller of the batch gets: every message, as a success or as a failure.
    pub open spec fn verdict(self) -> Result<Seq<Seq<char>>, Seq<Seq<char>>> {
        if self.failed {
            Err(self.results)
        } else {
            Ok(self.results)
        }
    }
}

/// The batch whose commands would come to `outcomes`, one outcome for each
/// command in the order of the commands.
pub open spec fn run(outcomes: Seq<Result<Seq<char>, Seq<char>>>) -> BatchView
    decreases outcomes.len(),
{
    if outcomes.len() == 0 {
        BatchView::start()
    } else {
        run(outcomes.drop_last()).record(outcomes.last())
    }
}

/// Where every command succeeds, the batch succeeds with one message for
/// each command: the command's success message, in the order of the commands.
pub proof fn law_all_succeed(outcomes: Seq<Result<Seq<char>, Seq<char>>>)
    requires
        forall|i: int| 0 <= i < outcomes.len() ==> outcomes[i] is Ok,
    ensures
        run(outcomes).verdict() == Ok::<Seq<Seq<char>>, Seq<Seq<char>>>(run(outcomes).results),
        run(outcomes).results.len() == outcomes.len(),
        forall|i: int| 0 <= i < outcomes.len() ==> run(outcomes).results[i] == outcomes[i]->Ok_0,
    decreases outcomes.len(),
{
    if outcomes.len() > 0 {
        law_all_succeed(outcomes.drop_last());
    }
}

/// Where command `k`, counted from one, is the first to fail, the batch
/// fails with `k` messages: the success messages of the commands before it
/// and, last, its failure message. It is as if the batch had ended with
/// command `k`: the commands after it are not run.
pub proof fn law_first_failure(outcomes: Seq<Result<Seq<char>, Seq<char>>>, k: int)
    requires
        1 <= k <= outcomes.len(),
        outcomes[k - 1] is Err,
        forall|i: int| 0 <= i < k - 1 ==> outcomes[i] is Ok,
    ensures
        run(outcomes).verdict() == Err::<Seq<Seq<char>>, Seq<Seq<char>>>(run(outcomes).results),
        run(outcomes).results.len() == k,
        run(outcomes).results[k - 1] == outcomes[k - 1]->Err_0,
        forall|i: int| 0 <= i < k - 1 ==> run(outcomes).results[i] == outcomes[i]->Ok_0,
        run(outcomes) == run(outcomes.take(k)),
    decreases outcomes.len(),
{
    let front = outcomes.drop_last();
    if outcomes.len() == k {
        law_all_succeed(front);
        assert(outcomes.take(k) =~= outcomes);
    } else {
        law_first_failure(front, k);
        assert(front.take(k) =~= outcomes.take(k));
    }
}

/// The results of a batch while it runs.
#[derive(Debug)]
pub struct Batch {
    results: Vec<String>,
    failed: bool,
}

impl View for Batch {
    type V = BatchView;

    closed spec fn view(&self) -> BatchView {
        BatchView { results: self.results.deep_view(), failed: self.failed }
    }
}

impl Batch {
    /// A batch of which no command has run.
    pub fn new() -> (r: Self)
        ensures
            r@ == BatchView::start(),
    {
        let r = Batch { results: Vec::new(), failed: false };
        assert(r.results.deep_view() =~= Seq::<Seq<char>>::empty());
        r
    }

    /// Whether a command has failed.
    pub fn failed(&self) -> (r: bool)
        ensures
            r == self@.failed,
    {
        self.failed
    }

    /// The number of commands that have run.
    pub fn len(&self) -> (r: usize)
        ensures
            r == self@.results.len(),
    {
        self.results.len()
    }

    /// Takes in what the next command yielded.
    pub fn record(&mut self, outcome: Result<String, String>)
        ensures
            final(self)@ == old(self)@.record(outcome_view(outcome)),
    {
        if !self.failed {
            let ghost before = self.results.deep_view();
            match outcome {
                Ok(message) => {
                    self.results.push(message);
                    assert(self.results.deep_view() =~= before.push(message@));
                },
                Err(message) => {
                    self.results.push(message);
                    self.failed = true;
                    assert(self.results.deep_view() =~= before.push(message@));
                },
            }
        }
    }

    /// Every message so far, as a success or as a failure.
    pub fn verdict(&self) -> (r: Result<Vec<String>, Vec<String>>)
        ensures
            verdict_view(r) == self@.verdict(),
    {
        if self.failed {
            Err(crate::text::copy_strings(&self.results))
        } else {
            Ok(crate::text::copy_strings(&self.results))
        }
    }

    /// Ends the batch: every message, as a success or as a failure.
    pub fn finish(self) -> (r: Result<Vec<String>, Vec<String>>)
        ensures
            verdict_view(r) == self@.verdict(),
    {
        if self.failed {
            Err(self.results)
        } else {
            Ok(self.results)
        }
    }
}

/// The view of what a batch hands to its caller.
pub open spec fn verdict_view(verdict: Result<Vec<String>, Vec<String>>) -> Result<
    Seq<Seq<char>>,
    Seq<Seq<char>>,
> {
    match verdict {
        Ok(results) => Ok(results.deep_view()),
        Err(results) => Err(results.deep_view()),
    }
}

/// Folds the outcomes of the commands of a batch, given in the order of the
/// commands, into what the batch hands to its caller. Outcomes after the
/// first failure are those of commands that the batch would not have run:
/// they are ignored.
pub fn fold_outcomes(outcomes: &Vec<Result<String, String>>) -> (r: Result<Vec<String>, Vec<String>>)
    ensures
        verdict_view(r) == run(outcome_views(outcomes@)).verdict(),
{
    let ghost views = outcome_views(outcomes@);
    let mut batch = Batch::new();
    let mut i: usize = 0;
    assert(views.take(0) =~= Seq::empty());
    while i < outcomes.len()
        invariant
            i <= outcomes@.len(),
            views == outcome_views(outcomes@),
            batch@ == run(views.take(i as int)),
        decreases outcomes@.len() - i,
    {
        assert(views.take(i + 1).drop_last() =~= views.take(i as int));
        assert(views.take(i + 1).last() == outcome_view(outcomes@[i as int]));
        let outcome = match &outcomes[i] {
            Ok(message) => Ok(message.clone()),
            Err(message) => Err(message.clone()),
        };
        batch.record(outcome);
        i += 1;
    }
    assert(views.take(i as int) =~= views);
    batch.finish()
}

} // verus!
