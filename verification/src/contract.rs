//! The operation dispatcher and the authorization gate. Every operation takes
//! the explicit [`Storage`] state; mutations re-check the sender against the
//! stored owner before anything is written, and the privileged query first
//! verifies a permit, then runs the same owner gate on both the claimed
//! wallet and the recovered signer.

use crate::error::{collapse_permit_error, ContractError};
use crate::msg::{
    CountResponse, ExecuteMsg, InstantiateMsg, InvoiceListResponse, QueryAnswer, QueryMsg,
};
use crate::permit::{spec_allows_instance, spec_signer, verify, Permit};
use crate::state::{
    config, config_invoice, config_invoice_read, config_read, spec_store_slot, Invoice, State,
    Storage, StorageModel,
};
use vstd::prelude::*;

verus! {

/// The state and outcome after one mutation message: the mathematical
/// transition that [`execute`] is proved to implement. An uninitialized
/// store rejects every mutation; increment is open to every sender; reset
/// and add run the owner gate first and write nothing when it fails.
pub open spec fn spec_execute(
    s: StorageModel,
    sender: String,
    msg: ExecuteMsg,
) -> (StorageModel, Result<(), ContractError>) {
    if !s.initialized() {
        (s, Err(ContractError::NotInitialized))
    } else {
        let cfg = s.config->Some_0;
        match msg {
            ExecuteMsg::Increment => (
                StorageModel {
                    config: Some(State { count: (cfg.count + 1) as i32, owner: cfg.owner }),
                    ..s
                },
                Ok(()),
            ),
            ExecuteMsg::Reset { count } => if sender@ == cfg.owner@ {
                (
                    StorageModel { config: Some(State { count, owner: cfg.owner }), ..s },
                    Ok(()),
                )
            } else {
                (s, Err(ContractError::Forbidden))
            },
            ExecuteMsg::Add { invoice } => if sender@ == cfg.owner@ {
                (StorageModel { slots: spec_store_slot(s.slots, 0, invoice), ..s }, Ok(()))
            } else {
                (s, Err(ContractError::Forbidden))
            },
        }
    }
}

/// The state after a sequence of mutation steps, each a sender and a message.
pub open spec fn spec_execute_steps(
    s: StorageModel,
    steps: Seq<(String, ExecuteMsg)>,
) -> StorageModel
    decreases steps.len(),
{
    if steps.len() == 0 {
        s
    } else {
        spec_execute_steps(spec_execute(s, steps[0].0, steps[0].1).0, steps.drop_first())
    }
}

/// What a count query returns: the counter once initialized, the
/// initialization error before.
pub open spec fn count_post(s: StorageModel, r: Result<CountResponse, ContractError>) -> bool {
    match r {
        Ok(resp) => s.initialized() && resp.count as int == s.count(),
        Err(e) => e == ContractError::NotInitialized && !s.initialized(),
    }
}

/// What the privileged query returns. It succeeds, with exactly the one
/// stored record, if and only if the permit applies to this deployment
/// instance, is not revoked, carries a valid signature, and both the claimed
/// wallet and the recovered signer equal the owner; each failure names the
/// first check that failed, and the two owner checks collapse into one
/// `Forbidden` that does not say which of them failed.
pub open spec fn get_all_post(
    s: StorageModel,
    instance: Seq<char>,
    wallet: Seq<char>,
    permit: Permit,
    r: Result<InvoiceListResponse, ContractError>,
) -> bool {
    let permit_ok = spec_allows_instance(permit.params, instance)
        && !s.revoked_contains(permit.params.permit_name@) && spec_signer(permit) is Some;
    match r {
        Ok(resp) => permit_ok && s.initialized() && wallet == s.owner() && spec_signer(permit)
            == Some(s.owner()) && s.slot(0) is Some && resp.vect_invoice@.len() == 1
            && resp.vect_invoice@[0] == s.slot(0)->Some_0,
        Err(e) => match e {
            ContractError::PermitInvalid => !permit_ok,
            ContractError::NotInitialized => permit_ok && !s.initialized(),
            ContractError::Forbidden => permit_ok && s.initialized() && (wallet != s.owner()
                || spec_signer(permit) != Some(s.owner())),
            ContractError::NotFound => permit_ok && s.initialized() && wallet == s.owner()
                && spec_signer(permit) == Some(s.owner()) && s.slot(0) is None,
            _ => false,
        },
    }
}

/// Law: once initialized, the deployment stays initialized and its owner is
/// invariant under every sequence of mutation steps, whoever sends them and
/// whether or not they succeed. Queries take the state by shared reference,
/// so they cannot move it at all.
pub proof fn lemma_owner_invariant(s: StorageModel, steps: Seq<(String, ExecuteMsg)>)
    requires
        s.initialized(),
    ensures
        spec_execute_steps(s, steps).initialized(),
        spec_execute_steps(s, steps).owner() == s.owner(),
    decreases steps.len(),
{
    if steps.len() > 0 {
        let s1 = spec_execute(s, steps[0].0, steps[0].1).0;
        assert(s1.initialized() && s1.owner() == s.owner());
        lemma_owner_invariant(s1, steps.drop_first());
    }
}

/// Law: increments are counted exactly. A sequence of increment steps, by
/// any senders, raises the counter by exactly the number of steps.
pub proof fn lemma_increment_accumulates(s: StorageModel, steps: Seq<(String, ExecuteMsg)>)
    requires
        s.initialized(),
        forall|i: int| 0 <= i < steps.len() ==> (#[trigger] steps[i]).1 is Increment,
        s.count() + steps.len() <= i32::MAX,
    ensures
        spec_execute_steps(s, steps).initialized(),
        spec_execute_steps(s, steps).count() == s.count() + steps.len(),
    decreases steps.len(),
{
    if steps.len() > 0 {
        let s1 = spec_execute(s, steps[0].0, steps[0].1).0;
        assert(steps[0].1 is Increment);
        assert(s1.initialized() && s1.count() == s.count() + 1);
        assert(forall|i: int|
            0 <= i < steps.drop_first().len() ==> (#[trigger] steps.drop_first()[i]).1
                is Increment) by {
            assert(forall|i: int|
                0 <= i < steps.drop_first().len() ==> steps.drop_first()[i] == steps[i + 1]);
        }
        lemma_increment_accumulates(s1, steps.drop_first());
    }
}

/// Law: a record added by the owner is read back exactly. After an
/// owner-sent add, slot 0 holds the supplied record, field for field.
pub proof fn lemma_add_then_get(s: StorageModel, sender: String, invoice: Invoice)
    requires
        s.initialized(),
        sender@ == s.owner(),
    ensures
        spec_execute(s, sender, ExecuteMsg::Add { invoice }).0.slot(0) == Some(invoice),
{
    let slots = spec_store_slot(s.slots, 0, invoice);
    if 0 < s.slots.len() {
        assert(slots[0] == Some(invoice));
    } else {
        assert(slots.len() == s.slots.len() + 1);
        assert(slots[0] == Some(invoice));
    }
}

/// The authorization gate: one equality comparison between a candidate
/// identity and the owner, shared by the write path and the read path.
pub fn require_owner(candidate: &String, owner: &String) -> (r: Result<(), ContractError>)
    ensures
        candidate@ == owner@ ==> r == Ok::<(), ContractError>(()),
        candidate@ != owner@ ==> r == Err::<(), ContractError>(ContractError::Forbidden),
{
    if *candidate == *owner {
        Ok(())
    } else {
        Err(ContractError::Forbidden)
    }
}

/// Initializes the deployment: records the caller as the owner and sets the
/// counter. A second initialization is explicitly rejected and changes
/// nothing (this implementation's documented choice for the otherwise-open
/// case).
pub fn instantiate(storage: &mut Storage, sender: String, msg: InstantiateMsg) -> (r: Result<
    (),
    ContractError,
>)
    ensures
        match r {
            Ok(()) => !old(storage)@.initialized() && final(storage)@.config == Some(
                State { count: msg.count, owner: sender },
            ) && final(storage)@.slots == old(storage)@.slots && final(storage)@.revoked == old(storage)@.revoked,
            Err(e) => e == ContractError::AlreadyInitialized && old(storage)@.initialized()
                && final(storage)@ == old(storage)@,
        },
{
    if storage.config.is_some() {
        return Err(ContractError::AlreadyInitialized);
    }
    config(storage, State { count: msg.count, owner: sender });
    Ok(())
}

/// Routes one mutation message; proved equal to the [`spec_execute`]
/// transition.
pub fn execute(storage: &mut Storage, sender: String, msg: ExecuteMsg) -> (r: Result<
    (),
    ContractError,
>)
    requires
        msg is Increment && old(storage)@.initialized() ==> old(storage)@.count() < i32::MAX,
    ensures
        final(storage)@ == spec_execute(old(storage)@, sender, msg).0,
        r is Ok <==> spec_execute(old(storage)@, sender, msg).1 is Ok,
        r matches Err(e) ==> spec_execute(old(storage)@, sender, msg).1->Err_0 == e,
{
    let ghost s0 = storage@;
    let ghost gsender = sender;
    let r = match &msg {
        ExecuteMsg::Increment => try_increment(storage),
        ExecuteMsg::Reset { count } => try_reset(storage, sender, *count),
        ExecuteMsg::Add { invoice } => try_add(storage, sender, invoice.duplicate()),
    };
    proof {
        assert(storage@ =~= spec_execute(s0, gsender, msg).0);
    }
    r
}

/// Increases the counter by 1. No owner check: any caller may increment.
pub fn try_increment(storage: &mut Storage) -> (r: Result<(), ContractError>)
    requires
        old(storage)@.initialized() ==> old(storage)@.count() < i32::MAX,
    ensures
        match r {
            Ok(()) => old(storage)@.initialized() && final(storage)@.config == Some(
                State {
                    count: (old(storage)@.count() + 1) as i32,
                    owner: old(storage)@.config->Some_0.owner,
                },
            ) && final(storage)@.slots == old(storage)@.slots && final(storage)@.revoked == old(storage)@.revoked,
            Err(e) => e == ContractError::NotInitialized && !old(storage)@.initialized() && final(storage)@ == old(storage)@,
        },
{
    match &mut storage.config {
        Some(state) => {
            state.count = state.count + 1;
            Ok(())
        },
        None => Err(ContractError::NotInitialized),
    }
}

/// Sets the counter to `count`, for the owner alone; a non-owner gets
/// `Forbidden` and the counter is untouched.
pub fn try_reset(storage: &mut Storage, sender: String, count: i32) -> (r: Result<
    (),
    ContractError,
>)
    ensures
        match r {
            Ok(()) => old(storage)@.initialized() && sender@ == old(storage)@.owner() && final(storage)@.config == Some(State { count, owner: old(storage)@.config->Some_0.owner }) && final(storage)@.slots == old(storage)@.slots && final(storage)@.revoked == old(storage)@.revoked,
            Err(e) => final(storage)@ == old(storage)@ && match e {
                ContractError::NotInitialized => !old(storage)@.initialized(),
                ContractError::Forbidden => old(storage)@.initialized() && sender@ != old(storage)@.owner(),
                _ => false,
            },
        },
{
    match &mut storage.config {
        Some(state) => {
            match require_owner(&sender, &state.owner) {
                Ok(()) => {
                    state.count = count;
                    Ok(())
                },
                Err(e) => Err(e),
            }
        },
        None => Err(ContractError::NotInitialized),
    }
}

/// Stores `invoice` in slot 0, for the owner alone; a non-owner gets
/// `Forbidden` and the slot is untouched. An earlier record in the slot is
/// overwritten without an existence check.
pub fn try_add(storage: &mut Storage, sender: String, invoice: Invoice) -> (r: Result<
    (),
    ContractError,
>)
    ensures
        match r {
            Ok(()) => old(storage)@.initialized() && sender@ == old(storage)@.owner() && final(storage)@.slots == spec_store_slot(old(storage)@.slots, 0, invoice) && final(storage)@.config
                == old(storage)@.config && final(storage)@.revoked == old(storage)@.revoked,
            Err(e) => final(storage)@ == old(storage)@ && match e {
                ContractError::NotInitialized => !old(storage)@.initialized(),
                ContractError::Forbidden => old(storage)@.initialized() && sender@ != old(storage)@.owner(),
                _ => false,
            },
        },
{
    match config_read(storage) {
        Some(state) => {
            match require_owner(&sender, &state.owner) {
                Ok(()) => {
                    config_invoice(storage, 0, invoice);
                    Ok(())
                },
                Err(e) => Err(e),
            }
        },
        None => Err(ContractError::NotInitialized),
    }
}

/// Routes one query message. Queries take the state by shared reference and
/// can change nothing.
pub fn query(storage: &Storage, current_instance: &String, msg: QueryMsg) -> (r: Result<
    QueryAnswer,
    ContractError,
>)
    ensures
        match msg {
            QueryMsg::GetCount => match r {
                Ok(a) => a is Count && count_post(storage@, Ok(a->Count_0)),
                Err(e) => count_post(storage@, Err(e)),
            },
            QueryMsg::GetAll { wallet, permit, index } => match r {
                Ok(a) => a is All && get_all_post(
                    storage@,
                    current_instance@,
                    wallet@,
                    permit,
                    Ok(a->All_0),
                ),
                Err(e) => get_all_post(storage@, current_instance@, wallet@, permit, Err(e)),
            },
        },
{
    match msg {
        QueryMsg::GetCount => match query_count(storage) {
            Ok(resp) => Ok(QueryAnswer::Count(resp)),
            Err(e) => Err(e),
        },
        QueryMsg::GetAll { wallet, permit, index } => match get_all(
            storage,
            current_instance,
            &wallet,
            &permit,
            index,
        ) {
            Ok(resp) => Ok(QueryAnswer::All(resp)),
            Err(e) => Err(e),
        },
    }
}

/// Reads the counter; open to every caller.
pub fn query_count(storage: &Storage) -> (r: Result<CountResponse, ContractError>)
    ensures
        count_post(storage@, r),
{
    match config_read(storage) {
        Some(state) => Ok(CountResponse { count: state.count }),
        None => Err(ContractError::NotInitialized),
    }
}

/// The privileged read: verifies the permit against this deployment instance
/// and the revocation ledger, runs the owner gate on the claimed wallet and
/// on the recovered signer, and returns the stored records. The slot index
/// is accepted for the message surface but the store holds one slot today.
pub fn get_all(
    storage: &Storage,
    current_instance: &String,
    wallet: &String,
    permit: &Permit,
    _index: u8,
) -> (r: Result<InvoiceListResponse, ContractError>)
    ensures
        get_all_post(storage@, current_instance@, wallet@, *permit, r),
{
    let viewer = match verify(permit, current_instance, &storage.revoked_permits) {
        Ok(account) => account,
        Err(e) => {
            return Err(collapse_permit_error(e));
        },
    };
    let state = match config_read(storage) {
        Some(state) => state,
        None => {
            return Err(ContractError::NotInitialized);
        },
    };
    match require_owner(wallet, &state.owner) {
        Ok(()) => {},
        Err(e) => {
            return Err(e);
        },
    }
    match require_owner(&viewer, &state.owner) {
        Ok(()) => {},
        Err(e) => {
            return Err(e);
        },
    }
    match config_invoice_read(storage, 0) {
        Some(invoice) => {
            let mut records: Vec<Invoice> = Vec::new();
            records.push(invoice);
            Ok(InvoiceListResponse { vect_invoice: records })
        },
        None => Err(ContractError::NotFound),
    }
}

} // verus!

