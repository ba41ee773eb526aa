//! The persistent state of one deployment, modeled explicitly: the
//! configuration singleton, the record slots, and the revocation ledger.
//! Every operation takes the state as an argument and says in its contract
//! how the new state relates to the old one; nothing is ambient.

use vstd::prelude::*;

verus! {

/// The configuration singleton: the counter and the owner identity.
/// The owner is recorded at initialization and never changes afterwards.
#[derive(Clone, Debug)]
pub struct State {
    /// The current counter value.
    pub count: i32,
    /// The identity of the deployment's owner.
    pub owner: String,
}

/// One stored invoice record. Every field is an opaque string: this layer
/// enforces no numeric invariant on the monetary fields, it only stores and
/// returns them.
#[derive(Clone, Debug)]
pub struct Invoice {
    pub invoice_number: String,
    pub date: String,
    pub client_name: String,
    pub description: String,
    pub total_amount: String,
    pub tax_amount: String,
    pub currency: String,
    pub doc_hash: String,
    pub line_hash: String,
    pub auditors: String,
    pub credibility: String,
    pub audit_state: String,
}

/// The whole persistent state: the configuration singleton, the record slots
/// keyed by their index, and the set of revoked permit names.
#[derive(Clone, Debug)]
pub struct Storage {
    /// The configuration singleton; `None` before initialization.
    pub config: Option<State>,
    /// The record slots. Slot `i` holds `slots[i]`; an index at or past the
    /// end of the vector is an empty slot.
    pub slots: Vec<Option<Invoice>>,
    /// The names of the revoked permits.
    pub revoked_permits: Vec<String>,
}

/// The mathematical value of a [`Storage`]: the slots and the ledger as
/// sequences, the configuration as it stands.
#[verifier::ext_equal]
pub struct StorageModel {
    pub config: Option<State>,
    pub slots: Seq<Option<Invoice>>,
    pub revoked: Seq<String>,
}

impl View for Storage {
    type V = StorageModel;

    open spec fn view(&self) -> StorageModel {
        StorageModel {
            config: self.config,
            slots: self.slots@,
            revoked: self.revoked_permits@,
        }
    }
}

impl StorageModel {
    /// Initialization has run: the configuration singleton exists.
    pub open spec fn initialized(self) -> bool {
        self.config is Some
    }

    /// The owner identity, meaningful only once initialized.
    pub open spec fn owner(self) -> Seq<char> {
        self.config->Some_0.owner@
    }

    /// The counter value, meaningful only once initialized.
    pub open spec fn count(self) -> int {
        self.config->Some_0.count as int
    }

    /// The record stored at slot `i`, `None` where the slot is empty.
    pub open spec fn slot(self, i: int) -> Option<Invoice> {
        if 0 <= i < self.slots.len() {
            self.slots[i]
        } else {
            None
        }
    }

    /// The permit named `name` has been revoked.
    pub open spec fn revoked_contains(self, name: Seq<char>) -> bool {
        seq_contains_string(self.revoked, name)
    }
}

/// `needle` occurs in `items`, compared by character content.
pub open spec fn seq_contains_string(items: Seq<String>, needle: Seq<char>) -> bool {
    exists|i: int| 0 <= i < items.len() && items[i]@ == needle
}

/// Whether `needle` occurs in `items`.
pub fn contains_string(items: &Vec<String>, needle: &String) -> (r: bool)
    ensures
        r == seq_contains_string(items@, needle@),
{
    let mut k: usize = 0;
    while k < items.len()
        invariant
            0 <= k <= items@.len(),
            forall|j: int| 0 <= j < k ==> items@[j]@ != needle@,
        decreases items@.len() - k,
    {
        if items[k] == *needle {
            return true;
        }
        k = k + 1;
    }
    false
}

/// The slot sequence after storing `invoice` at slot `i`: an existing slot is
/// overwritten; a slot past the end is created, with empty slots in between.
pub open spec fn spec_store_slot(
    slots: Seq<Option<Invoice>>,
    i: int,
    invoice: Invoice,
) -> Seq<Option<Invoice>> {
    if i < slots.len() {
        slots.update(i, Some(invoice))
    } else {
        slots + Seq::new((i - slots.len()) as nat, |j: int| None) + seq![Some(invoice)]
    }
}

impl State {
    /// A field-for-field copy, equal to the original.
    pub fn duplicate(&self) -> (r: State)
        ensures
            r == *self,
    {
        State { count: self.count, owner: self.owner.clone() }
    }
}

impl Invoice {
    /// A field-for-field copy, equal to the original.
    pub fn duplicate(&self) -> (r: Invoice)
        ensures
            r == *self,
    {
        Invoice {
            invoice_number: self.invoice_number.clone(),
            date: self.date.clone(),
            client_name: self.client_name.clone(),
            description: self.description.clone(),
            total_amount: self.total_amount.clone(),
            tax_amount: self.tax_amount.clone(),
            currency: self.currency.clone(),
            doc_hash: self.doc_hash.clone(),
            line_hash: self.line_hash.clone(),
            auditors: self.auditors.clone(),
            credibility: self.credibility.clone(),
            audit_state: self.audit_state.clone(),
        }
    }
}

impl Storage {
    /// An empty store: uninitialized, no records, nothing revoked.
    pub fn new() -> (r: Storage)
        ensures
            !r@.initialized(),
            r@.slots == Seq::<Option<Invoice>>::empty(),
            r@.revoked == Seq::<String>::empty(),
    {
        Storage { config: None, slots: Vec::new(), revoked_permits: Vec::new() }
    }
}

/// Stores the configuration singleton, overwriting any earlier one.
pub fn config(storage: &mut Storage, state: State)
    ensures
        final(storage)@.config == Some(state),
        final(storage)@.slots == old(storage)@.slots,
        final(storage)@.revoked == old(storage)@.revoked,
{
    storage.config = Some(state);
}

/// Reads the configuration singleton; `None` before initialization.
pub fn config_read(storage: &Storage) -> (r: Option<State>)
    ensures
        r == storage@.config,
{
    match &storage.config {
        Some(state) => Some(state.duplicate()),
        None => None,
    }
}

/// Stores `invoice` at slot `index`, overwriting without an existence check.
pub fn config_invoice(storage: &mut Storage, index: u8, invoice: Invoice)
    ensures
        final(storage)@.slots == spec_store_slot(old(storage)@.slots, index as int, invoice),
        final(storage)@.config == old(storage)@.config,
        final(storage)@.revoked == old(storage)@.revoked,
{
    let i = index as usize;
    if i < storage.slots.len() {
        storage.slots.set(i, Some(invoice));
        assert(storage@.slots =~= spec_store_slot(old(storage)@.slots, index as int, invoice));
    } else {
        while storage.slots.len() < i
            invariant
                old(storage)@.slots.len() <= storage@.slots.len() <= i,
                storage@.slots.take(old(storage)@.slots.len() as int) == old(storage)@.slots,
                forall|j: int|
                    old(storage)@.slots.len() <= j < storage@.slots.len()
                        ==> storage@.slots[j] is None,
                storage@.config == old(storage)@.config,
                storage@.revoked == old(storage)@.revoked,
            decreases i - storage.slots.len(),
        {
            storage.slots.push(None);
        }
        storage.slots.push(Some(invoice));
        assert(storage@.slots =~= spec_store_slot(old(storage)@.slots, index as int, invoice));
    }
}

/// Reads the record at slot `index`; `None` where the slot is empty.
pub fn config_invoice_read(storage: &Storage, index: u8) -> (r: Option<Invoice>)
    ensures
        r == storage@.slot(index as int),
{
    let i = index as usize;
    if i < storage.slots.len() {
        match &storage.slots[i] {
            Some(invoice) => Some(invoice.duplicate()),
            None => None,
        }
    } else {
        None
    }
}

} // verus!
