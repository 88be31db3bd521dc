//! The ledger as a contract over a key-value store: for each entry point, what
//! it does with the values that the store holds under the ledger's two keys.
//! Reading and writing the store is left to the caller.

use vstd::prelude::*;

use soroban_sdk::Address;

use crate::ledger::{
    completion_writes, last_task_pair, pair_of, stored_task, task_of, total_of, total_or_default,
    LedgerError,
};

verus! {

/// The storage key of the completion counter.
pub const TOTAL_TASKS: &'static str = "TOTAL_TASKS";

/// The storage key of the most recent completion's record.
pub const LAST_TASK: &'static str = "LAST_TASK";

/// The contract whose store holds the ledger: a `u32` under `TOTAL_TASKS` and
/// a pair of task identifier and address under `LAST_TASK`.
pub struct MicroTaskPaymentContract;

impl MicroTaskPaymentContract {
    /// Records that a task was completed and paid. `stored_total` is what the
    /// store holds under `TOTAL_TASKS`. Where the counter can advance, the
    /// result holds the two values to write: the advanced counter for
    /// `TOTAL_TASKS` and the task's pair for `LAST_TASK`. Where it cannot, the
    /// result is `CounterOverflow` and nothing is to be written. The amount
    /// paid is accepted and not kept.
    pub fn complete_task_and_pay(
        stored_total: Option<u32>,
        task_id: u32,
        freelancer_address: Address,
        payment_amount: u32,
    ) -> (writes: Result<(u32, (u32, Address)), LedgerError>)
        ensures
            total_of(stored_total) < u32::MAX ==> writes == Ok::<
                (u32, (u32, Address)),
                LedgerError,
            >(((total_of(stored_total) + 1) as u32, (task_id, freelancer_address))),
            total_of(stored_total) == u32::MAX ==> writes == Err::<
                (u32, (u32, Address)),
                LedgerError,
            >(LedgerError::CounterOverflow),
    {
        match completion_writes(stored_total, task_id, freelancer_address, payment_amount) {
            Ok((new_total, task)) => Ok((new_total, task.into_pair())),
            Err(error) => Err(error),
        }
    }

    /// The number of completions recorded, for what the store holds under
    /// `TOTAL_TASKS`: the stored counter, zero while none was written.
    pub fn get_total_paid_tasks(stored_total: Option<u32>) -> (total: u32)
        ensures
            total == total_of(stored_total),
    {
        total_or_default(stored_total)
    }

    /// The identifier and the recipient of the most recent completion, for
    /// what the store holds under `LAST_TASK`: `None` while none was recorded.
    pub fn get_last_paid_task_info(stored_last: Option<(u32, Address)>) -> (last: Option<
        (u32, Address),
    >)
        ensures
            last == pair_of(task_of(stored_last)),
            last == stored_last,
    {
        last_task_pair(stored_task(stored_last))
    }
}

} // verus!
