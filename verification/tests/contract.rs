use micro_task_payment::contract::{MicroTaskPaymentContract, LAST_TASK, TOTAL_TASKS};
use micro_task_payment::ledger::LedgerError;
use soroban_sdk::testutils::{Address as _, EnvTestConfig};
use soroban_sdk::{Address, Env};

fn address_env() -> Env {
    Env::new_with_config(EnvTestConfig { capture_snapshot_at_drop: false })
}

/// The two stored values, as a caller of the contract keeps them.
struct Stored {
    total: Option<u32>,
    last: Option<(u32, Address)>,
}

fn empty_store() -> Stored {
    Stored { total: None, last: None }
}

fn complete(
    store: &mut Stored,
    task_id: u32,
    payee: &Address,
    amount: u32,
) -> Result<(), LedgerError> {
    let (new_total, last_task) = MicroTaskPaymentContract::complete_task_and_pay(
        store.total,
        task_id,
        payee.clone(),
        amount,
    )?;
    store.total = Some(new_total);
    store.last = Some(last_task);
    Ok(())
}

fn total(store: &Stored) -> u32 {
    MicroTaskPaymentContract::get_total_paid_tasks(store.total)
}

fn last(store: &Stored) -> Option<(u32, Address)> {
    MicroTaskPaymentContract::get_last_paid_task_info(store.last.clone())
}

#[test]
fn storage_keys_have_fixed_names() {
    assert_eq!(TOTAL_TASKS, "TOTAL_TASKS");
    assert_eq!(LAST_TASK, "LAST_TASK");
}

#[test]
fn storage_keys_are_valid_symbols() {
    for key in [TOTAL_TASKS, LAST_TASK] {
        assert!(key.len() <= 32);
        assert!(key.chars().all(|c| c.is_ascii_alphanumeric() || c == '_'));
    }
}

#[test]
fn absent_total_is_zero_paid_tasks() {
    assert_eq!(MicroTaskPaymentContract::get_total_paid_tasks(None), 0);
}

#[test]
fn present_total_is_returned() {
    assert_eq!(MicroTaskPaymentContract::get_total_paid_tasks(Some(41)), 41);
    assert_eq!(MicroTaskPaymentContract::get_total_paid_tasks(Some(u32::MAX)), u32::MAX);
}

#[test]
fn absent_record_is_no_task_info() {
    assert_eq!(MicroTaskPaymentContract::get_last_paid_task_info(None), None);
}

#[test]
fn present_record_is_returned() {
    let env = address_env();
    let payee = Address::generate(&env);
    assert_eq!(
        MicroTaskPaymentContract::get_last_paid_task_info(Some((6, payee.clone()))),
        Some((6, payee))
    );
}

#[test]
fn completion_gives_both_writes() {
    let env = address_env();
    let payee = Address::generate(&env);
    assert_eq!(
        MicroTaskPaymentContract::complete_task_and_pay(None, 7, payee.clone(), 100),
        Ok((1, (7, payee.clone())))
    );
    assert_eq!(
        MicroTaskPaymentContract::complete_task_and_pay(Some(41), 13, payee.clone(), 0),
        Ok((42, (13, payee.clone())))
    );
    assert_eq!(
        MicroTaskPaymentContract::complete_task_and_pay(Some(u32::MAX - 1), 0, payee.clone(), 0),
        Ok((u32::MAX, (0, payee)))
    );
}

#[test]
fn completion_on_full_counter_is_an_error() {
    let env = address_env();
    let payee = Address::generate(&env);
    assert_eq!(
        MicroTaskPaymentContract::complete_task_and_pay(Some(u32::MAX), 78, payee, 5),
        Err(LedgerError::CounterOverflow)
    );
}

#[test]
fn fresh_contract_has_no_completions() {
    let store = empty_store();
    assert_eq!(total(&store), 0);
    assert_eq!(last(&store), None);
}

#[test]
fn single_completion_is_stored() {
    let env = address_env();
    let payee = Address::generate(&env);
    let mut store = empty_store();
    assert_eq!(complete(&mut store, 7, &payee, 100), Ok(()));
    assert_eq!(total(&store), 1);
    assert_eq!(last(&store), Some((7, payee)));
}

#[test]
fn stored_total_counts_every_completion() {
    let env = address_env();
    let first = Address::generate(&env);
    let second = Address::generate(&env);
    let mut store = empty_store();
    let task_ids: [u32; 5] = [9, 9, 0, u32::MAX, 2];
    let mut recorded: u32 = 0;
    for task_id in task_ids {
        let payee = if recorded % 2 == 0 { &first } else { &second };
        assert_eq!(complete(&mut store, task_id, payee, 1), Ok(()));
        recorded += 1;
        assert_eq!(total(&store), recorded);
    }
    assert_eq!(total(&store), 5);
    assert_eq!(last(&store), Some((2, first)));
}

#[test]
fn stored_record_is_the_latest() {
    let env = address_env();
    let first = Address::generate(&env);
    let second = Address::generate(&env);
    let mut store = empty_store();
    assert_eq!(complete(&mut store, 1, &first, 10), Ok(()));
    assert_eq!(complete(&mut store, 2, &second, 20), Ok(()));
    assert_eq!(last(&store), Some((2, second)));
    assert_ne!(last(&store), Some((1, first)));
}

#[test]
fn identical_completions_are_not_merged() {
    let env = address_env();
    let payee = Address::generate(&env);
    let mut store = empty_store();
    assert_eq!(complete(&mut store, 5, &payee, 40), Ok(()));
    assert_eq!(complete(&mut store, 5, &payee, 40), Ok(()));
    assert_eq!(total(&store), 2);
}

#[test]
fn amount_does_not_reach_storage() {
    let env = address_env();
    let payee = Address::generate(&env);
    assert_eq!(
        MicroTaskPaymentContract::complete_task_and_pay(Some(3), 8, payee.clone(), 1),
        MicroTaskPaymentContract::complete_task_and_pay(Some(3), 8, payee, u32::MAX)
    );
}

#[test]
fn full_counter_leaves_the_store_as_it_was() {
    let env = address_env();
    let earlier = Address::generate(&env);
    let later = Address::generate(&env);
    let mut store = Stored { total: Some(u32::MAX), last: Some((77, earlier.clone())) };
    assert_eq!(complete(&mut store, 78, &later, 5), Err(LedgerError::CounterOverflow));
    assert_eq!(total(&store), u32::MAX);
    assert_eq!(last(&store), Some((77, earlier)));
}
