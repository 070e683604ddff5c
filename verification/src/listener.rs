//! The listener: a loop that reads platform records, decodes each one and
//! forwards it, until a read fails.
//!
//! The blocking read and the sending are the caller's business. What the
//! listener decides is written here as a state machine: the caller performs a
//! read, reports its outcome with [`Listener::on_read`], and carries out the
//! action it gets back.

use vstd::prelude::*;
use crate::decode::{decode_event, event_of};
use crate::event::{EventModel, TerminalEvent};
use crate::raw::{RawEvent, RawEventModel};

verus! {

/// Where a listener is in its life. There is no way back from `Stopped`, and
/// no way from `Running` to `Stopped` but a failed read.
#[derive(Clone, Copy, Debug, PartialEq, Eq, Structural)]
pub enum ListenerState {
    Idle,
    Running,
    Stopped,
}

/// What one blocking read came back with.
#[derive(Debug, PartialEq, Eq)]
pub enum ReadOutcome {
    Record(RawEvent),
    Failure,
}

/// The mathematical value of a [`ReadOutcome`].
pub enum ReadModel {
    Record(RawEventModel),
    Failure,
}

impl View for ReadOutcome {
    type V = ReadModel;

    open spec fn view(&self) -> ReadModel {
        match *self {
            ReadOutcome::Record(record) => ReadModel::Record(record@),
            ReadOutcome::Failure => ReadModel::Failure,
        }
    }
}

impl Clone for ReadOutcome {
    fn clone(&self) -> (copy: Self)
        ensures
            copy == *self,
    {
        match self {
            ReadOutcome::Record(record) => ReadOutcome::Record(record.clone()),
            ReadOutcome::Failure => ReadOutcome::Failure,
        }
    }
}

/// What the caller has to do after reporting a read.
#[derive(Debug, PartialEq, Eq)]
pub enum ListenerAction {
    /// Send this event to the consumer.
    Forward(TerminalEvent),
    /// The listener has stopped: signal completion and acknowledge.
    Complete,
    /// The listener is not running: nothing is sent.
    Ignore,
}

/// The mathematical value of a [`ListenerAction`].
pub enum ActionModel {
    Forward(EventModel),
    Complete,
    Ignore,
}

impl View for ListenerAction {
    type V = ActionModel;

    open spec fn view(&self) -> ActionModel {
        match *self {
            ListenerAction::Forward(event) => ActionModel::Forward(event@),
            ListenerAction::Complete => ActionModel::Complete,
            ListenerAction::Ignore => ActionModel::Ignore,
        }
    }
}

/// The state a listener is in after it is told of one read.
pub open spec fn step_state(state: ListenerState, read: ReadModel) -> ListenerState {
    match (state, read) {
        (ListenerState::Running, ReadModel::Failure) => ListenerState::Stopped,
        _ => state,
    }
}

/// The action a listener asks for when it is told of one read.
pub open spec fn step_action(state: ListenerState, read: ReadModel) -> ActionModel {
    match (state, read) {
        (ListenerState::Running, ReadModel::Record(record)) => ActionModel::Forward(
            event_of(record),
        ),
        (ListenerState::Running, ReadModel::Failure) => ActionModel::Complete,
        _ => ActionModel::Ignore,
    }
}

/// The state a listener that starts in `state` is in after a run of reads.
pub open spec fn state_after(state: ListenerState, reads: Seq<ReadModel>) -> ListenerState
    decreases reads.len(),
{
    if reads.len() == 0 {
        state
    } else {
        step_state(state_after(state, reads.drop_last()), reads.last())
    }
}

/// The actions a listener that starts in `state` asks for over a run of
/// reads, one for each read and in the order of the reads.
pub open spec fn actions_of(state: ListenerState, reads: Seq<ReadModel>) -> Seq<ActionModel>
    decreases reads.len(),
{
    if reads.len() == 0 {
        Seq::empty()
    } else {
        actions_of(state, reads.drop_last()).push(
            step_action(state_after(state, reads.drop_last()), reads.last()),
        )
    }
}

/// The values of a run of read outcomes.
pub open spec fn reads_view(reads: Seq<ReadOutcome>) -> Seq<ReadModel> {
    Seq::new(reads.len(), |i: int| reads[i]@)
}

/// The values of a run of actions.
pub open spec fn actions_view(actions: Seq<ListenerAction>) -> Seq<ActionModel> {
    Seq::new(actions.len(), |i: int| actions[i]@)
}

/// The listener's state machine.
pub struct Listener {
    state: ListenerState,
}

impl View for Listener {
    type V = ListenerState;

    closed spec fn view(&self) -> ListenerState {
        self.state
    }
}

impl Listener {
    /// A listener that has not been started.
    pub fn new() -> (listener: Listener)
        ensures
            listener@ == ListenerState::Idle,
    {
        Listener { state: ListenerState::Idle }
    }

    /// Starts an idle listener. Returns whether it started: a listener that
    /// is running or has stopped is left as it is.
    pub fn start(&mut self) -> (started: bool)
        ensures
            started == (old(self)@ == ListenerState::Idle),
            started ==> final(self)@ == ListenerState::Running,
            !started ==> final(self)@ == old(self)@,
    {
        match self.state {
            ListenerState::Idle => {
                self.state = ListenerState::Running;
                true
            },
            _ => false,
        }
    }

    /// Where the listener is in its life.
    pub fn state(&self) -> (state: ListenerState)
        ensures
            state == self@,
    {
        self.state
    }

    /// Whether the caller should perform another read.
    pub fn is_running(&self) -> (running: bool)
        ensures
            running == (self@ == ListenerState::Running),
    {
        match self.state {
            ListenerState::Running => true,
            _ => false,
        }
    }

    /// Takes the outcome of one read and says what to do with it.
    ///
    /// A running listener forwards the decoded record and keeps running, or,
    /// on a failure, stops and asks for the completion signal. A listener that
    /// is not running ignores the outcome.
    pub fn on_read(&mut self, outcome: ReadOutcome) -> (action: ListenerAction)
        ensures
            action@ == step_action(old(self)@, outcome@),
            final(self)@ == step_state(old(self)@, outcome@),
    {
        match self.state {
            ListenerState::Running => match outcome {
                ReadOutcome::Record(record) => ListenerAction::Forward(decode_event(record)),
                ReadOutcome::Failure => {
                    self.state = ListenerState::Stopped;
                    ListenerAction::Complete
                },
            },
            _ => ListenerAction::Ignore,
        }
    }

    /// Takes the outcomes of a run of reads, in order, and returns the action
    /// for each.
    pub fn feed(&mut self, reads: &Vec<ReadOutcome>) -> (actions: Vec<ListenerAction>)
        ensures
            actions.len() == reads.len(),
            actions_view(actions@) == actions_of(old(self)@, reads_view(reads@)),
            final(self)@ == state_after(old(self)@, reads_view(reads@)),
    {
        let ghost start = self@;
        let ghost all = reads_view(reads@);
        let mut actions: Vec<ListenerAction> = Vec::new();
        let mut i: usize = 0;
        assert(all.take(0) =~= Seq::<ReadModel>::empty());
        assert(actions_view(actions@) =~= Seq::<ActionModel>::empty());
        while i < reads.len()
            invariant
                i <= reads.len(),
                actions.len() == i,
                all == reads_view(reads@),
                actions_view(actions@) == actions_of(start, all.take(i as int)),
                self@ == state_after(start, all.take(i as int)),
            decreases reads.len() - i,
        {
            let outcome = reads[i].clone();
            let ghost before = actions_view(actions@);
            let action = self.on_read(outcome);
            actions.push(action);
            proof {
                let prefix = all.take(i as int + 1);
                assert(prefix.drop_last() =~= all.take(i as int));
                assert(prefix.last() == reads[i as int]@);
                assert(actions_view(actions@) =~= before.push(action@));
            }
            i = i + 1;
        }
        assert(all.take(i as int) =~= all);
        actions
    }
}

/// A run of reads asks for one action per read, and the action for a read
/// depends only on the reads before it.
pub proof fn lemma_action_at(state: ListenerState, reads: Seq<ReadModel>, i: int)
    requires
        0 <= i < reads.len(),
    ensures
        actions_of(state, reads).len() == reads.len(),
        actions_of(state, reads)[i] == step_action(state_after(state, reads.take(i)), reads[i]),
    decreases reads.len(),
{
    let shorter = reads.drop_last();
    lemma_actions_len(state, shorter);
    if i == reads.len() - 1 {
        assert(reads.take(i) =~= shorter);
    } else {
        lemma_action_at(state, shorter, i);
        assert(shorter.take(i) =~= reads.take(i));
    }
}

/// A run of reads asks for exactly one action per read.
pub proof fn lemma_actions_len(state: ListenerState, reads: Seq<ReadModel>)
    ensures
        actions_of(state, reads).len() == reads.len(),
    decreases reads.len(),
{
    if reads.len() > 0 {
        lemma_actions_len(state, reads.drop_last());
    }
}

/// A running listener keeps running as long as every read succeeds.
pub proof fn lemma_runs_while_reads_succeed(reads: Seq<ReadModel>)
    requires
        forall|i: int| 0 <= i < reads.len() ==> #[trigger] reads[i] is Record,
    ensures
        state_after(ListenerState::Running, reads) == ListenerState::Running,
    decreases reads.len(),
{
    if reads.len() > 0 {
        let shorter = reads.drop_last();
        assert forall|i: int| 0 <= i < shorter.len() implies #[trigger] shorter[i] is Record by {
            assert(shorter[i] == reads[i]);
        }
        lemma_runs_while_reads_succeed(shorter);
    }
}

/// Once a read has failed, a listener that was running is stopped for good.
pub proof fn lemma_stopped_after_failure(reads: Seq<ReadModel>, k: int)
    requires
        0 <= k < reads.len(),
        reads[k] is Failure,
    ensures
        state_after(ListenerState::Running, reads) == ListenerState::Stopped,
    decreases reads.len(),
{
    let shorter = reads.drop_last();
    if k < reads.len() - 1 {
        lemma_stopped_after_failure(shorter, k);
    } else {
        lemma_never_idle_again(shorter);
    }
}

/// A listener that is running never goes back to idle.
pub proof fn lemma_never_idle_again(reads: Seq<ReadModel>)
    ensures
        state_after(ListenerState::Running, reads) != ListenerState::Idle,
    decreases reads.len(),
{
    if reads.len() > 0 {
        lemma_never_idle_again(reads.drop_last());
    }
}

/// Ordering. While the reads succeed, a running listener forwards exactly
/// one event for each record, in the order of the records, and each event is
/// the decoding of its record: nothing is merged, dropped or reordered. If
/// every read succeeds the listener is still running at the end.
pub proof fn lemma_forwards_in_order(reads: Seq<ReadModel>, n: int)
    requires
        0 <= n <= reads.len(),
        forall|i: int| 0 <= i < n ==> #[trigger] reads[i] is Record,
    ensures
        actions_of(ListenerState::Running, reads).len() == reads.len(),
        forall|i: int|
            0 <= i < n ==> #[trigger] actions_of(ListenerState::Running, reads)[i]
                == ActionModel::Forward(event_of(reads[i]->Record_0)),
        state_after(ListenerState::Running, reads.take(n)) == ListenerState::Running,
{
    let actions = actions_of(ListenerState::Running, reads);
    lemma_actions_len(ListenerState::Running, reads);
    assert forall|i: int| 0 <= i < n implies #[trigger] actions[i] == ActionModel::Forward(
        event_of(reads[i]->Record_0),
    ) by {
        lemma_action_at(ListenerState::Running, reads, i);
        let before = reads.take(i);
        assert forall|j: int| 0 <= j < before.len() implies #[trigger] before[j] is Record by {
            assert(before[j] == reads[j]);
        }
        lemma_runs_while_reads_succeed(before);
        assert(reads[i] is Record);
    }
    let prefix = reads.take(n);
    assert forall|j: int| 0 <= j < prefix.len() implies #[trigger] prefix[j] is Record by {
        assert(prefix[j] == reads[j]);
    }
    lemma_runs_while_reads_succeed(prefix);
}

/// Termination. When the first failed read is the one at `k`, a running
/// listener asks for the completion signal at that read and at no other, asks
/// for nothing at all after it, and ends stopped.
pub proof fn lemma_one_completion_then_silence(reads: Seq<ReadModel>, k: int)
    requires
        0 <= k < reads.len(),
        reads[k] is Failure,
        forall|i: int| 0 <= i < k ==> #[trigger] reads[i] is Record,
    ensures
        actions_of(ListenerState::Running, reads).len() == reads.len(),
        actions_of(ListenerState::Running, reads)[k] == ActionModel::Complete,
        forall|i: int|
            0 <= i < reads.len() && i != k ==> #[trigger] actions_of(
                ListenerState::Running,
                reads,
            )[i] != ActionModel::Complete,
        forall|i: int|
            k < i < reads.len() ==> #[trigger] actions_of(ListenerState::Running, reads)[i]
                == ActionModel::Ignore,
        state_after(ListenerState::Running, reads) == ListenerState::Stopped,
{
    let actions = actions_of(ListenerState::Running, reads);
    lemma_forwards_in_order(reads, k);
    lemma_action_at(ListenerState::Running, reads, k);
    assert forall|i: int| k < i < reads.len() implies #[trigger] actions[i]
        == ActionModel::Ignore by {
        lemma_action_at(ListenerState::Running, reads, i);
        let before = reads.take(i);
        assert(before[k] == reads[k]);
        lemma_stopped_after_failure(before, k);
    }
    lemma_stopped_after_failure(reads, k);
}

/// The events a run of actions sends to the consumer, in the order sent.
pub open spec fn forwarded(actions: Seq<ActionModel>) -> Seq<EventModel>
    decreases actions.len(),
{
    if actions.len() == 0 {
        Seq::empty()
    } else {
        match actions.last() {
            ActionModel::Forward(event) => forwarded(actions.drop_last()).push(event),
            _ => forwarded(actions.drop_last()),
        }
    }
}

/// How many completion signals a run of actions asks for.
pub open spec fn completions(actions: Seq<ActionModel>) -> nat
    decreases actions.len(),
{
    if actions.len() == 0 {
        0
    } else if actions.last() is Complete {
        completions(actions.drop_last()) + 1
    } else {
        completions(actions.drop_last())
    }
}

/// What the consumer sees of a running listener. When the first `n` reads
/// succeed and the next one, if there is one, fails, the consumer receives
/// exactly the decodings of those `n` records, in the order read, and nothing
/// else, whatever is read after the failure. There is one completion signal if
/// a read failed and none if none did.
pub proof fn lemma_delivery(reads: Seq<ReadModel>, n: int)
    requires
        0 <= n <= reads.len(),
        forall|i: int| 0 <= i < n ==> #[trigger] reads[i] is Record,
        n < reads.len() ==> reads[n] is Failure,
    ensures
        forwarded(actions_of(ListenerState::Running, reads)) == Seq::new(
            n as nat,
            |i: int| event_of(reads[i]->Record_0),
        ),
        completions(actions_of(ListenerState::Running, reads)) == if n < reads.len() {
            1nat
        } else {
            0nat
        },
    decreases reads.len(),
{
    let expected = Seq::new(n as nat, |i: int| event_of(reads[i]->Record_0));
    if reads.len() == 0 {
        assert(forwarded(actions_of(ListenerState::Running, reads)) =~= expected);
    } else {
        let shorter = reads.drop_last();
        let actions = actions_of(ListenerState::Running, reads);
        assert(actions.drop_last() =~= actions_of(ListenerState::Running, shorter));
        if n < reads.len() - 1 {
            assert(shorter[n] == reads[n]);
            assert forall|i: int| 0 <= i < n implies #[trigger] shorter[i] is Record by {
                assert(shorter[i] == reads[i]);
            }
            lemma_delivery(shorter, n);
            lemma_stopped_after_failure(shorter, n);
            assert(forwarded(actions) =~= expected);
        } else {
            assert forall|i: int| 0 <= i < shorter.len() implies #[trigger] shorter[i]
                is Record by {
                assert(shorter[i] == reads[i]);
            }
            lemma_delivery(shorter, shorter.len() as int);
            lemma_runs_while_reads_succeed(shorter);
            if n == reads.len() {
                assert(reads.last() == reads[n - 1]);
            } else {
                assert(reads.last() == reads[n]);
            }
            assert(forwarded(actions) =~= expected);
        }
    }
}

/// A listener that was never started asks for nothing, whatever is read.
pub proof fn lemma_idle_listener_is_silent(reads: Seq<ReadModel>, i: int)
    requires
        0 <= i < reads.len(),
    ensures
        actions_of(ListenerState::Idle, reads)[i] == ActionModel::Ignore,
        state_after(ListenerState::Idle, reads) == ListenerState::Idle,
{
    lemma_action_at(ListenerState::Idle, reads, i);
    lemma_idle_stays_idle(reads.take(i));
    lemma_idle_stays_idle(reads);
}

proof fn lemma_idle_stays_idle(reads: Seq<ReadModel>)
    ensures
        state_after(ListenerState::Idle, reads) == ListenerState::Idle,
    decreases reads.len(),
{
    if reads.len() > 0 {
        lemma_idle_stays_idle(reads.drop_last());
    }
}

} // verus!
