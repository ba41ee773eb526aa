//! The message surface of the store: one initialize message, the closed set
//! of mutation messages, the two query messages, and the structured query
//! answers.

use crate::permit::Permit;
use crate::state::Invoice;
use vstd::prelude::*;

verus! {

/// Initializes the deployment with a starting counter value; the caller
/// becomes the owner.
#[derive(Clone, Debug)]
pub struct InstantiateMsg {
    pub count: i32,
}

/// The mutation messages.
#[derive(Clone, Debug)]
pub enum ExecuteMsg {
    /// Increase the counter by 1; any caller may send this.
    Increment,
    /// Set the counter to `count`; only the owner may send this.
    Reset { count: i32 },
    /// Store `invoice` in slot 0; only the owner may send this.
    Add { invoice: Invoice },
}

/// The query messages.
#[derive(Clone, Debug)]
pub enum QueryMsg {
    /// Return the current counter value; unauthenticated.
    GetCount,
    /// Return the stored records, gated by the wallet identity and a permit.
    GetAll { wallet: String, permit: Permit, index: u8 },
}

/// The answer to [`QueryMsg::GetCount`].
#[derive(Clone, Copy, Debug, PartialEq, Eq, Structural)]
pub struct CountResponse {
    pub count: i32,
}

/// The answer to [`QueryMsg::GetAll`]: the stored records.
#[derive(Clone, Debug)]
pub struct InvoiceListResponse {
    pub vect_invoice: Vec<Invoice>,
}

/// A structured query answer, one variant per query message.
#[derive(Clone, Debug)]
pub enum QueryAnswer {
    Count(CountResponse),
    All(InvoiceListResponse),
}

} // verus!
