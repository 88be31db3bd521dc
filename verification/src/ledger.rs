//! The ledger's rules: how the counter advances, what the latest record is,
//! and an in-memory ledger that follows them.

use vstd::prelude::*;

use soroban_sdk::Address;

verus! {

/// One completed task: its identifier and who was paid for it.
#[derive(Clone, Debug, PartialEq, Eq)]
pub struct TaskInfo {
    pub task_id: u32,
    pub freelancer_address: Address,
}

impl TaskInfo {
    /// The record as the pair that storage holds: identifier, then address.
    pub open spec fn pair(self) -> (u32, Address) {
        (self.task_id, self.freelancer_address)
    }

    /// The record that a stored pair stands for.
    pub fn from_pair(pair: (u32, Address)) -> (task: TaskInfo)
        ensures
            task == (TaskInfo { task_id: pair.0, freelancer_address: pair.1 }),
            task.pair() == pair,
    {
        TaskInfo { task_id: pair.0, freelancer_address: pair.1 }
    }

    /// The pair under which the record is stored.
    pub fn into_pair(self) -> (pair: (u32, Address))
        ensures
            pair == self.pair(),
    {
        (self.task_id, self.freelancer_address)
    }
}

/// Why a completion could not be recorded.
#[derive(Clone, Copy, Debug, PartialEq, Eq, Structural)]
pub enum LedgerError {
    /// The counter already holds the largest value it can.
    CounterOverflow,
}

/// The counter's value for what storage holds: zero while nothing was written.
pub open spec fn total_of(stored: Option<u32>) -> u32 {
    match stored {
        Some(total) => total,
        None => 0,
    }
}

/// The counter's value for what storage holds under the counter's key.
pub fn total_or_default(stored: Option<u32>) -> (total: u32)
    ensures
        total == total_of(stored),
{
    match stored {
        Some(total) => total,
        None => 0,
    }
}

/// The counter's value after one more completion, or `CounterOverflow` when
/// the counter cannot advance.
pub fn next_total(stored: Option<u32>) -> (next: Result<u32, LedgerError>)
    ensures
        total_of(stored) < u32::MAX ==> next == Ok::<u32, LedgerError>(
            (total_of(stored) + 1) as u32,
        ),
        total_of(stored) == u32::MAX ==> next == Err::<u32, LedgerError>(
            LedgerError::CounterOverflow,
        ),
{
    let current: u32 = total_or_default(stored);
    if current < u32::MAX {
        Ok(current + 1)
    } else {
        Err(LedgerError::CounterOverflow)
    }
}

/// The identifier and the recipient of a stored record.
pub open spec fn pair_of(stored: Option<TaskInfo>) -> Option<(u32, Address)> {
    match stored {
        Some(info) => Some(info.pair()),
        None => None,
    }
}

/// The record that a stored pair stands for, where there is one.
pub open spec fn task_of(stored: Option<(u32, Address)>) -> Option<TaskInfo> {
    match stored {
        Some(pair) => Some(TaskInfo { task_id: pair.0, freelancer_address: pair.1 }),
        None => None,
    }
}

/// The last record for what storage holds under the record's key.
pub fn stored_task(stored: Option<(u32, Address)>) -> (task: Option<TaskInfo>)
    ensures
        task == task_of(stored),
        pair_of(task) == stored,
{
    match stored {
        Some(pair) => Some(TaskInfo::from_pair(pair)),
        None => None,
    }
}

/// What a reader is shown for what storage holds under the record's key.
pub fn last_task_pair(stored: Option<TaskInfo>) -> (pair: Option<(u32, Address)>)
    ensures
        pair == pair_of(stored),
{
    match stored {
        Some(info) => Some((info.task_id, info.freelancer_address)),
        None => None,
    }
}

/// The two values that a completion writes: the advanced counter and the
/// record of the task. The amount paid is accepted and not kept.
pub fn completion_writes(
    stored: Option<u32>,
    task_id: u32,
    freelancer_address: Address,
    _payment_amount: u32,
) -> (writes: Result<(u32, TaskInfo), LedgerError>)
    ensures
        total_of(stored) < u32::MAX ==> writes == Ok::<(u32, TaskInfo), LedgerError>(
            ((total_of(stored) + 1) as u32, (TaskInfo { task_id, freelancer_address })),
        ),
        total_of(stored) == u32::MAX ==> writes == Err::<(u32, TaskInfo), LedgerError>(
            LedgerError::CounterOverflow,
        ),
{
    match next_total(stored) {
        Ok(new_total) => Ok((new_total, TaskInfo { task_id, freelancer_address })),
        Err(error) => Err(error),
    }
}

/// A ledger held in memory: the number of completions recorded and the most
/// recent of them.
#[derive(Clone, Debug, PartialEq, Eq)]
pub struct TaskLedger {
    pub total_tasks: u32,
    pub last_task: Option<TaskInfo>,
}

impl TaskLedger {
    /// The ledger before anything was recorded.
    pub open spec fn fresh() -> TaskLedger {
        TaskLedger { total_tasks: 0, last_task: None }
    }

    /// Whether one more completion can be counted.
    pub open spec fn can_record(self) -> bool {
        self.total_tasks < u32::MAX
    }

    /// The ledger after one more completion is recorded.
    pub open spec fn recorded(self, task: TaskInfo) -> TaskLedger {
        TaskLedger { total_tasks: (self.total_tasks + 1) as u32, last_task: Some(task) }
    }

    /// The ledger after each completion of `tasks` is recorded in turn.
    pub open spec fn recorded_all(self, tasks: Seq<TaskInfo>) -> TaskLedger
        decreases tasks.len(),
    {
        if tasks.len() == 0 {
            self
        } else {
            self.recorded_all(tasks.drop_last()).recorded(tasks.last())
        }
    }

    /// An empty ledger.
    pub fn new() -> (ledger: TaskLedger)
        ensures
            ledger == TaskLedger::fresh(),
    {
        TaskLedger { total_tasks: 0, last_task: None }
    }

    /// Records one completion: the counter advances by one and the record
    /// replaces the one before it. Fails with `CounterOverflow`, and changes
    /// nothing, when the counter cannot advance. The amount paid is accepted
    /// and not kept.
    pub fn record_completion(
        &mut self,
        task_id: u32,
        recipient: Address,
        _amount: u32,
    ) -> (outcome: Result<(), LedgerError>)
        ensures
            old(self).can_record() ==> outcome == Ok::<(), LedgerError>(()) && *final(self)
                == old(self).recorded(TaskInfo { task_id, freelancer_address: recipient }),
            !old(self).can_record() ==> outcome == Err::<(), LedgerError>(
                LedgerError::CounterOverflow,
            ) && *final(self) == *old(self),
            final(self).total_tasks >= old(self).total_tasks,
    {
        match completion_writes(Some(self.total_tasks), task_id, recipient, _amount) {
            Ok((new_total, task)) => {
                self.total_tasks = new_total;
                self.last_task = Some(task);
                Ok(())
            },
            Err(error) => Err(error),
        }
    }

    /// The number of completions recorded.
    pub fn get_total_completed(&self) -> (total: u32)
        ensures
            total == self.total_tasks,
    {
        self.total_tasks
    }

    /// The identifier and the recipient of the most recent completion, or
    /// `None` while nothing was recorded.
    pub fn get_last_completed(&self) -> (last: Option<(u32, Address)>)
        ensures
            last == pair_of(self.last_task),
    {
        match &self.last_task {
            Some(info) => Some((info.task_id, info.freelancer_address.clone())),
            None => None,
        }
    }
}

/// A ledger that was never written to shows a count of zero and no record.
pub proof fn lemma_fresh_is_empty()
    ensures
        TaskLedger::fresh().total_tasks == 0,
        pair_of(TaskLedger::fresh().last_task) == None::<(u32, Address)>,
        total_of(None) == 0,
        pair_of(None) == None::<(u32, Address)>,
{
}

/// Recording any number of completions on a ledger with room for them
/// succeeds at every step and advances the counter by exactly that number,
/// whatever the tasks are and however often one of them repeats. The record
/// kept is that of the last task, or the earlier one when none was recorded.
pub proof fn lemma_recorded_all_counts(ledger: TaskLedger, tasks: Seq<TaskInfo>)
    requires
        ledger.total_tasks + tasks.len() <= u32::MAX,
    ensures
        ledger.recorded_all(tasks).total_tasks == ledger.total_tasks + tasks.len(),
        ledger.recorded_all(tasks).last_task == if tasks.len() == 0 {
            ledger.last_task
        } else {
            Some(tasks.last())
        },
        forall|n: int|
            0 <= n < tasks.len() ==> (#[trigger] ledger.recorded_all(tasks.take(n))).can_record(),
    decreases tasks.len(),
{
    if tasks.len() > 0 {
        let earlier = tasks.drop_last();
        lemma_recorded_all_counts(ledger, earlier);
        assert forall|n: int| 0 <= n < tasks.len() implies (#[trigger] ledger.recorded_all(
            tasks.take(n),
        )).can_record() by {
            if n < earlier.len() {
                assert(tasks.take(n) == earlier.take(n));
            } else {
                assert(tasks.take(n) == earlier);
            }
        }
    }
}

/// On a ledger that starts empty, the count is the number of completions
/// recorded.
pub proof fn lemma_count_is_number_recorded(tasks: Seq<TaskInfo>)
    requires
        tasks.len() <= u32::MAX,
    ensures
        TaskLedger::fresh().recorded_all(tasks).total_tasks == tasks.len(),
{
    lemma_recorded_all_counts(TaskLedger::fresh(), tasks);
}

/// Of two completions recorded one after the other, only the second is kept
/// as the record; both are counted.
pub proof fn lemma_last_write_wins(ledger: TaskLedger, first: TaskInfo, second: TaskInfo)
    requires
        ledger.total_tasks + 2 <= u32::MAX,
    ensures
        ledger.recorded(first).can_record(),
        ledger.recorded(first).recorded(second).last_task == Some(second),
        pair_of(ledger.recorded(first).recorded(second).last_task) == Some(
            (second.task_id, second.freelancer_address),
        ),
        ledger.recorded(first).recorded(second).total_tasks == ledger.total_tasks + 2,
{
}

/// Recording the same completion twice counts it twice: nothing is
/// deduplicated.
pub proof fn lemma_repeat_counts_twice(ledger: TaskLedger, task: TaskInfo)
    requires
        ledger.total_tasks + 2 <= u32::MAX,
    ensures
        ledger.recorded(task).recorded(task).total_tasks == ledger.total_tasks + 2,
        ledger.recorded(task).recorded(task) != ledger.recorded(task),
{
}

/// The stored counter follows the same rule as the in-memory ledger: what a
/// completion writes is the count and record of the ledger after it.
pub proof fn lemma_writes_match_ledger(ledger: TaskLedger, task: TaskInfo)
    requires
        ledger.can_record(),
    ensures
        ledger.recorded(task).total_tasks == total_of(Some(ledger.total_tasks)) + 1,
        ledger.recorded(task).total_tasks > ledger.total_tasks,
        pair_of(ledger.recorded(task).last_task) == Some((task.task_id, task.freelancer_address)),
{
}

} // verus!
