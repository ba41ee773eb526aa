use invoice_vault::contract::{execute, instantiate, query, query_count};
use invoice_vault::error::ContractError;
use invoice_vault::msg::{ExecuteMsg, InstantiateMsg, QueryAnswer, QueryMsg};
use invoice_vault::state::{config_invoice_read, config_read, Invoice, Storage};

fn sample_invoice() -> Invoice {
    Invoice {
        invoice_number: "INV-001".to_string(),
        date: "2025-02-26".to_string(),
        client_name: "Client A".to_string(),
        description: "Service".to_string(),
        total_amount: "1000".to_string(),
        tax_amount: "100".to_string(),
        currency: "USD".to_string(),
        doc_hash: "hash123".to_string(),
        line_hash: "linehash123".to_string(),
        auditors: "Auditor A".to_string(),
        credibility: "High".to_string(),
        audit_state: "Pending".to_string(),
    }
}

fn count_of(storage: &Storage) -> i32 {
    match query(storage, &"earth".to_string(), QueryMsg::GetCount).unwrap() {
        QueryAnswer::Count(resp) => resp.count,
        _ => panic!("expected a count answer"),
    }
}

#[test]
fn proper_initialization() {
    let mut storage = Storage::new();

    instantiate(&mut storage, "creator".to_string(), InstantiateMsg { count: 17 }).unwrap();

    assert_eq!(17, count_of(&storage));
}

#[test]
fn increment() {
    let mut storage = Storage::new();

    instantiate(&mut storage, "creator".to_string(), InstantiateMsg { count: 17 }).unwrap();

    // Anyone can increment the counter
    execute(&mut storage, "anyone".to_string(), ExecuteMsg::Increment).unwrap();

    // Should increase counter by 1
    assert_eq!(18, count_of(&storage));
}

#[test]
fn reset() {
    let mut storage = Storage::new();

    instantiate(&mut storage, "creator".to_string(), InstantiateMsg { count: 17 }).unwrap();

    // Verify that only the creator can reset the counter
    let res = execute(&mut storage, "anyone".to_string(), ExecuteMsg::Reset { count: 5 });
    match res {
        Err(ContractError::Forbidden) => {}
        _ => panic!("Must return unauthorized error"),
    }

    // Only the original creator can reset the counter
    execute(&mut storage, "creator".to_string(), ExecuteMsg::Reset { count: 5 }).unwrap();

    // Verify that the counter has been reset to 5
    assert_eq!(5, count_of(&storage));
}

#[test]
fn add_invoice() {
    let mut storage = Storage::new();

    instantiate(&mut storage, "creator".to_string(), InstantiateMsg { count: 0 }).unwrap();

    let invoice = sample_invoice();
    execute(
        &mut storage,
        "creator".to_string(),
        ExecuteMsg::Add { invoice: invoice.clone() },
    )
    .unwrap();

    // Retrieve and verify the saved invoice
    let stored_invoice = config_invoice_read(&storage, 0).unwrap();
    assert_eq!(stored_invoice.invoice_number, "INV-001");
    assert_eq!(stored_invoice.date, "2025-02-26");
    assert_eq!(stored_invoice.client_name, "Client A");
    assert_eq!(stored_invoice.description, "Service");
    assert_eq!(stored_invoice.total_amount, "1000");
    assert_eq!(stored_invoice.tax_amount, "100");
    assert_eq!(stored_invoice.currency, "USD");
    assert_eq!(stored_invoice.doc_hash, "hash123");
    assert_eq!(stored_invoice.line_hash, "linehash123");
    assert_eq!(stored_invoice.auditors, "Auditor A");
    assert_eq!(stored_invoice.credibility, "High");
    assert_eq!(stored_invoice.audit_state, "Pending");

    // Verify that only "creator" can add an invoice
    let res = execute(
        &mut storage,
        "public".to_string(),
        ExecuteMsg::Add { invoice: invoice.clone() },
    );
    match res {
        Err(ContractError::Forbidden) => {}
        _ => panic!("Must return unauthorized error"),
    }

    // The stored record is still the one the owner supplied
    let stored_invoice = config_invoice_read(&storage, 0).unwrap();
    assert_eq!(stored_invoice.invoice_number, "INV-001");
}

#[test]
fn double_initialize_is_rejected() {
    let mut storage = Storage::new();

    instantiate(&mut storage, "creator".to_string(), InstantiateMsg { count: 1 }).unwrap();
    let res = instantiate(&mut storage, "intruder".to_string(), InstantiateMsg { count: 9 });

    assert_eq!(res, Err(ContractError::AlreadyInitialized));
    // Owner and counter are untouched
    assert_eq!(config_read(&storage).unwrap().owner, "creator");
    assert_eq!(1, count_of(&storage));
}

#[test]
fn operations_before_initialize_fail() {
    let mut storage = Storage::new();

    let res = execute(&mut storage, "anyone".to_string(), ExecuteMsg::Increment);
    assert_eq!(res, Err(ContractError::NotInitialized));

    let res = execute(&mut storage, "anyone".to_string(), ExecuteMsg::Reset { count: 3 });
    assert_eq!(res, Err(ContractError::NotInitialized));

    let res = execute(
        &mut storage,
        "anyone".to_string(),
        ExecuteMsg::Add { invoice: sample_invoice() },
    );
    assert_eq!(res, Err(ContractError::NotInitialized));

    let res = query_count(&storage);
    assert!(matches!(res, Err(ContractError::NotInitialized)));
}

#[test]
fn increment_accumulates_over_senders() {
    let mut storage = Storage::new();

    instantiate(&mut storage, "creator".to_string(), InstantiateMsg { count: 0 }).unwrap();
    for sender in ["alice", "bob", "carol"] {
        execute(&mut storage, sender.to_string(), ExecuteMsg::Increment).unwrap();
    }

    assert_eq!(3, count_of(&storage));
}

#[test]
fn owner_is_invariant_under_mutations() {
    let mut storage = Storage::new();

    instantiate(&mut storage, "creator".to_string(), InstantiateMsg { count: 0 }).unwrap();
    execute(&mut storage, "anyone".to_string(), ExecuteMsg::Increment).unwrap();
    execute(&mut storage, "creator".to_string(), ExecuteMsg::Reset { count: 40 }).unwrap();
    execute(
        &mut storage,
        "creator".to_string(),
        ExecuteMsg::Add { invoice: sample_invoice() },
    )
    .unwrap();
    let _ = execute(&mut storage, "thief".to_string(), ExecuteMsg::Reset { count: 0 });

    assert_eq!(config_read(&storage).unwrap().owner, "creator");
    assert_eq!(40, count_of(&storage));
}

#[test]
fn reset_by_owner_sets_exact_value() {
    let mut storage = Storage::new();

    instantiate(&mut storage, "creator".to_string(), InstantiateMsg { count: 123 }).unwrap();
    execute(&mut storage, "creator".to_string(), ExecuteMsg::Reset { count: -7 }).unwrap();

    assert_eq!(-7, count_of(&storage));
}
