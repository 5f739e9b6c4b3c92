//! The table of invoices that wait for their payment.
//!
//! An invoice is entered when a client asks for a resource that is to be
//! paid for, and taken out again by the payment that answers it or by the
//! passing of its time. No address stands for two invoices at once. The
//! table is a plain value: whoever shares it among requests guards it with a
//! lock, and holds the lock for the length of one call and no longer.

use vstd::prelude::*;
use vstd::string::*;

use crate::crypto::bytes_equal;

verus! {

/// A payment that the relay expects.
#[derive(Debug)]
pub struct Invoice {
    /// The address to pay to, as its public-key hash.
    pub address: Vec<u8>,
    /// The resource that the payment buys access to.
    pub resource_id: String,
    /// The amount to pay, in satoshis.
    pub amount: u64,
    /// The note for the payer.
    pub memo: String,
    /// When the invoice was made.
    pub created_at: u64,
    /// The last moment at which the invoice can be paid.
    pub expires_at: u64,
}

/// An invoice as plain values.
pub struct InvoiceView {
    pub address: Seq<u8>,
    pub resource_id: Seq<char>,
    pub amount: u64,
    pub memo: Seq<char>,
    pub created_at: u64,
    pub expires_at: u64,
}

impl View for Invoice {
    type V = InvoiceView;

    open spec fn view(&self) -> InvoiceView {
        InvoiceView {
            address: self.address@,
            resource_id: self.resource_id@,
            amount: self.amount,
            memo: self.memo@,
            created_at: self.created_at,
            expires_at: self.expires_at,
        }
    }
}

impl Clone for Invoice {
    fn clone(&self) -> (copy: Self)
        ensures
            copy@ == self@,
    {
        Invoice {
            address: self.address.clone(),
            resource_id: self.resource_id.clone(),
            amount: self.amount,
            memo: self.memo.clone(),
            created_at: self.created_at,
            expires_at: self.expires_at,
        }
    }
}

/// `now + ttl`, or the largest moment there is where the sum is beyond it.
pub open spec fn expiry(now: u64, ttl: u64) -> u64 {
    if now + ttl > u64::MAX {
        u64::MAX
    } else {
        (now + ttl) as u64
    }
}

/// Whether an invoice that expires at `expires_at` can still be paid at
/// `now`.
pub open spec fn is_live(expires_at: u64, now: u64) -> bool {
    now <= expires_at
}

/// The invoices of `table` that can still be paid at `now`.
pub open spec fn live_at(table: Map<Seq<u8>, InvoiceView>, now: u64) -> Map<
    Seq<u8>,
    InvoiceView,
> {
    Map::new(
        |address: Seq<u8>| table.contains_key(address) && is_live(table[address].expires_at, now),
        |address: Seq<u8>| table[address],
    )
}

/// Whether no two of `invoices` have the same address.
pub open spec fn distinct_addresses(invoices: Seq<Invoice>) -> bool {
    forall|i: int, j: int|
        0 <= i < j < invoices.len() ==> (#[trigger] invoices[i]).address@
            != (#[trigger] invoices[j]).address@
}

/// Where in `invoices` the one for `address` stands, if any does.
pub open spec fn index_of(invoices: Seq<Invoice>, address: Seq<u8>) -> int {
    choose|i: int| 0 <= i < invoices.len() && (#[trigger] invoices[i]).address@ == address
}

/// The table that `invoices` make: each under its address.
pub open spec fn table_of(invoices: Seq<Invoice>) -> Map<Seq<u8>, InvoiceView> {
    Map::new(
        |address: Seq<u8>|
            exists|i: int|
                0 <= i < invoices.len() && (#[trigger] invoices[i]).address@ == address,
        |address: Seq<u8>| invoices[index_of(invoices, address)]@,
    )
}

/// Each invoice is found in the table under its address.
proof fn lemma_table_holds(invoices: Seq<Invoice>, i: int)
    requires
        distinct_addresses(invoices),
        0 <= i < invoices.len(),
    ensures
        table_of(invoices).contains_key(invoices[i].address@),
        table_of(invoices)[invoices[i].address@] == invoices[i]@,
{
    let address = invoices[i].address@;
    let found = index_of(invoices, address);
    assert(0 <= found < invoices.len() && invoices[found].address@ == address);
    if found < i {
        assert(invoices[found].address@ != invoices[i].address@);
    } else if i < found {
        assert(invoices[i].address@ != invoices[found].address@);
    }
}

/// Taking an invoice out of the list takes its address out of the table.
proof fn lemma_table_remove(invoices: Seq<Invoice>, i: int)
    requires
        distinct_addresses(invoices),
        0 <= i < invoices.len(),
    ensures
        distinct_addresses(invoices.remove(i)),
        table_of(invoices.remove(i)) == table_of(invoices).remove(invoices[i].address@),
{
    let rest = invoices.remove(i);
    assert forall|j: int, k: int| 0 <= j < k < rest.len() implies (#[trigger] rest[j]).address@
        != (#[trigger] rest[k]).address@ by {
        let from_j = if j < i { j } else { j + 1 };
        let from_k = if k < i { k } else { k + 1 };
        assert(rest[j] == invoices[from_j]);
        assert(rest[k] == invoices[from_k]);
    }
    let removed = invoices[i].address@;
    assert forall|address: Seq<u8>|
        table_of(rest).contains_key(address) <==> #[trigger] table_of(invoices).remove(
            removed,
        ).contains_key(address) by {
        if table_of(rest).contains_key(address) {
            let j = index_of(rest, address);
            let from_j = if j < i { j } else { j + 1 };
            assert(rest[j] == invoices[from_j]);
            assert(invoices[from_j].address@ == address);
            if from_j < i {
                assert(invoices[from_j].address@ != invoices[i].address@);
            } else {
                assert(invoices[i].address@ != invoices[from_j].address@);
            }
        }
        if table_of(invoices).remove(removed).contains_key(address) {
            let k = index_of(invoices, address);
            assert(k != i);
            let to_k = if k < i { k } else { k - 1 };
            assert(rest[to_k] == invoices[k]);
        }
    }
    assert forall|address: Seq<u8>| #[trigger] table_of(rest).contains_key(address) implies table_of(
        rest,
    )[address] == table_of(invoices).remove(removed)[address] by {
        let j = index_of(rest, address);
        let from_j = if j < i { j } else { j + 1 };
        assert(rest[j] == invoices[from_j]);
        lemma_table_holds(invoices, from_j);
    }
    assert(table_of(rest) =~= table_of(invoices).remove(removed));
}

/// Adding an invoice to the list enters it in the table under its address.
proof fn lemma_table_push(invoices: Seq<Invoice>, invoice: Invoice)
    requires
        distinct_addresses(invoices),
        !table_of(invoices).contains_key(invoice.address@),
    ensures
        distinct_addresses(invoices.push(invoice)),
        table_of(invoices.push(invoice)) == table_of(invoices).insert(
            invoice.address@,
            invoice@,
        ),
{
    let more = invoices.push(invoice);
    assert forall|j: int, k: int| 0 <= j < k < more.len() implies (#[trigger] more[j]).address@
        != (#[trigger] more[k]).address@ by {
        if k == invoices.len() {
            assert(more[j] == invoices[j]);
            if invoices[j].address@ == invoice.address@ {
                assert(table_of(invoices).contains_key(invoice.address@));
            }
        } else {
            assert(more[j] == invoices[j]);
            assert(more[k] == invoices[k]);
        }
    }
    let added = table_of(invoices).insert(invoice.address@, invoice@);
    assert forall|address: Seq<u8>| table_of(more).contains_key(address) <==> #[trigger] added.contains_key(
        address,
    ) by {
        if table_of(more).contains_key(address) {
            let j = index_of(more, address);
            if j < invoices.len() {
                assert(more[j] == invoices[j]);
            }
        }
        if added.contains_key(address) {
            if address == invoice.address@ {
                assert(more[invoices.len() as int] == invoice);
            } else {
                let k = index_of(invoices, address);
                assert(more[k] == invoices[k]);
            }
        }
    }
    assert forall|address: Seq<u8>| #[trigger] table_of(more).contains_key(address) implies table_of(
        more,
    )[address] == added[address] by {
        let j = index_of(more, address);
        lemma_table_holds(more, j);
        if j < invoices.len() {
            assert(more[j] == invoices[j]);
            lemma_table_holds(invoices, j);
        } else {
            assert(more[j] == invoice);
        }
    }
    assert(table_of(more) =~= added);
}

/// Where the invoice for `address` stands in `invoices`.
fn position(invoices: &Vec<Invoice>, address: &[u8]) -> (r: Option<usize>)
    ensures
        match r {
            Some(i) => i < invoices.len() && invoices[i as int].address@ == address@,
            None => !table_of(invoices@).contains_key(address@),
        },
{
    let mut i: usize = 0;
    while i < invoices.len()
        invariant
            i <= invoices.len(),
            forall|j: int| 0 <= j < i ==> (#[trigger] invoices[j]).address@ != address@,
        decreases invoices.len() - i,
    {
        if bytes_equal(invoices[i].address.as_slice(), address) {
            return Some(i);
        }
        i = i + 1;
    }
    None
}

/// Drops from `invoices` those whose time has passed at `now`.
fn sweep_list(invoices: &mut Vec<Invoice>, now: u64)
    requires
        distinct_addresses(old(invoices)@),
    ensures
        distinct_addresses(final(invoices)@),
        table_of(final(invoices)@) == live_at(table_of(old(invoices)@), now),
{
    let ghost before = table_of(invoices@);
    let mut i: usize = 0;
    while i < invoices.len()
        invariant
            i <= invoices.len(),
            distinct_addresses(invoices@),
            forall|j: int| 0 <= j < i ==> is_live((#[trigger] invoices[j]).expires_at, now),
            forall|address: Seq<u8>| #[trigger]
                table_of(invoices@).contains_key(address) ==> before.contains_key(address)
                    && table_of(invoices@)[address] == before[address],
            forall|address: Seq<u8>|
                before.contains_key(address) && is_live(before[address].expires_at, now)
                    ==> #[trigger] table_of(invoices@).contains_key(address),
        decreases invoices.len() - i,
    {
        if invoices[i].expires_at < now {
            proof {
                lemma_table_remove(invoices@, i as int);
                lemma_table_holds(invoices@, i as int);
            }
            let _ = invoices.remove(i);
        } else {
            i = i + 1;
        }
    }
    proof {
        assert forall|address: Seq<u8>| #[trigger]
            table_of(invoices@).contains_key(address) implies is_live(
            table_of(invoices@)[address].expires_at,
            now,
        ) by {
            let j = index_of(invoices@, address);
            lemma_table_holds(invoices@, j);
        }
        assert(table_of(invoices@) =~= live_at(before, now));
    }
}

/// The invoices that wait for their payment, each under its address.
#[derive(Debug)]
pub struct WalletState {
    invoices: Vec<Invoice>,
}

impl Default for WalletState {
    fn default() -> (wallet: Self)
        ensures
            wallet@ == Map::<Seq<u8>, InvoiceView>::empty(),
    {
        WalletState::new()
    }
}

impl WalletState {
    #[verifier::type_invariant]
    spec fn well_formed(self) -> bool {
        distinct_addresses(self.invoices@)
    }

    /// The table: which invoice waits under which address.
    pub closed spec fn view(&self) -> Map<Seq<u8>, InvoiceView> {
        table_of(self.invoices@)
    }

    /// The table without any invoice.
    pub fn new() -> (wallet: Self)
        ensures
            wallet@ == Map::<Seq<u8>, InvoiceView>::empty(),
    {
        let wallet = WalletState { invoices: Vec::new() };
        assert(table_of(wallet.invoices@) =~= Map::<Seq<u8>, InvoiceView>::empty());
        wallet
    }

    /// Takes the list out of the table, which is left empty.
    fn take_list(&mut self) -> (invoices: Vec<Invoice>)
        ensures
            distinct_addresses(invoices@),
            table_of(invoices@) == old(self)@,
    {
        proof {
            use_type_invariant(&*self);
        }
        let mut invoices: Vec<Invoice> = Vec::new();
        core::mem::swap(&mut self.invoices, &mut invoices);
        invoices
    }

    /// Drops the invoices whose time has passed at `now`.
    pub fn sweep(&mut self, now: u64)
        ensures
            final(self)@ == live_at(old(self)@, now),
    {
        let mut invoices = self.take_list();
        sweep_list(&mut invoices, now);
        self.invoices = invoices;
    }

    /// Takes out the invoice for `address`, if one waits there that can
    /// still be paid at `now`. An invoice is handed out once: whoever asks
    /// for it again finds none. Invoices whose time has passed are dropped
    /// on the way.
    pub fn resolve(&mut self, address: &[u8], now: u64) -> (r: Option<Invoice>)
        ensures
            final(self)@ == live_at(old(self)@, now).remove(address@),
            match live_at(old(self)@, now).get(address@) {
                Some(invoice) => r is Some && r->Some_0@ == invoice,
                None => r is None,
            },
    {
        let mut invoices = self.take_list();
        sweep_list(&mut invoices, now);
        let found = match position(&invoices, address) {
            Some(i) => {
                proof {
                    lemma_table_remove(invoices@, i as int);
                    lemma_table_holds(invoices@, i as int);
                }
                Some(invoices.remove(i))
            },
            None => {
                assert(table_of(invoices@).remove(address@) =~= table_of(invoices@));
                None
            },
        };
        self.invoices = invoices;
        found
    }

    /// Enters an invoice for `address` that can be paid until `ttl` after
    /// `now`, and hands back a copy of it. Where an invoice that can still
    /// be paid waits under `address` already, none is entered and the answer
    /// is `None`. Invoices whose time has passed are dropped on the way.
    pub fn issue(
        &mut self,
        address: Vec<u8>,
        resource_id: String,
        amount: u64,
        memo: String,
        now: u64,
        ttl: u64,
    ) -> (r: Option<Invoice>)
        ensures
            match r {
                Some(invoice) => {
                    &&& !live_at(old(self)@, now).contains_key(address@)
                    &&& invoice@ == (InvoiceView {
                        address: address@,
                        resource_id: resource_id@,
                        amount,
                        memo: memo@,
                        created_at: now,
                        expires_at: expiry(now, ttl),
                    })
                    &&& final(self)@ == live_at(old(self)@, now).insert(address@, invoice@)
                },
                None => {
                    &&& live_at(old(self)@, now).contains_key(address@)
                    &&& final(self)@ == live_at(old(self)@, now)
                },
            },
    {
        let mut invoices = self.take_list();
        sweep_list(&mut invoices, now);
        if position(&invoices, address.as_slice()).is_some() {
            proof {
                let i = choose|i: int|
                    0 <= i < invoices.len() && (#[trigger] invoices[i]).address@ == address@;
                lemma_table_holds(invoices@, i);
            }
            self.invoices = invoices;
            return None;
        }
        let invoice = Invoice {
            address,
            resource_id,
            amount,
            memo,
            created_at: now,
            expires_at: now.saturating_add(ttl),
        };
        let copy = invoice.clone();
        proof {
            lemma_table_push(invoices@, invoice);
        }
        invoices.push(invoice);
        self.invoices = invoices;
        Some(copy)
    }

    /// Whether an invoice waits under `address`, be its time passed or not.
    pub fn contains(&self, address: &[u8]) -> (found: bool)
        ensures
            found == self@.contains_key(address@),
    {
        proof {
            use_type_invariant(self);
        }
        match position(&self.invoices, address) {
            Some(i) => {
                proof {
                    lemma_table_holds(self.invoices@, i as int);
                }
                true
            },
            None => false,
        }
    }
}

/// What is left of `table` at `later` is left of what was left of it at
/// `now`, where `later` is not before `now`: sweeping on the way loses
/// nothing that a later sweep would have kept.
pub proof fn lemma_sweep_is_monotone(table: Map<Seq<u8>, InvoiceView>, now: u64, later: u64)
    requires
        now <= later,
    ensures
        live_at(live_at(table, now), later) == live_at(table, later),
{
    assert(live_at(live_at(table, now), later) =~= live_at(table, later));
}

/// The table after the invoice for `address` was asked for at `now`.
pub open spec fn after_resolve(table: Map<Seq<u8>, InvoiceView>, address: Seq<u8>, now: u64) -> Map<
    Seq<u8>,
    InvoiceView,
> {
    live_at(table, now).remove(address)
}

/// The invoice that asking for `address` at `now` gives.
pub open spec fn resolved(table: Map<Seq<u8>, InvoiceView>, address: Seq<u8>, now: u64) -> Option<
    InvoiceView,
> {
    live_at(table, now).get(address)
}

/// An invoice is handed out once: whoever asks for the same address again,
/// at whatever moment, finds none.
pub proof fn lemma_invoice_is_single_use(
    table: Map<Seq<u8>, InvoiceView>,
    address: Seq<u8>,
    now: u64,
    later: u64,
)
    ensures
        resolved(after_resolve(table, address, now), address, later) is None,
{
}

/// Asking for one address leaves the live invoices of all others where they
/// are.
pub proof fn lemma_resolve_keeps_others(
    table: Map<Seq<u8>, InvoiceView>,
    address: Seq<u8>,
    other: Seq<u8>,
    now: u64,
)
    requires
        other != address,
    ensures
        after_resolve(table, address, now).get(other) == live_at(table, now).get(other),
{
}

/// An invoice that was entered is handed out to whoever asks for it up to
/// its expiry, and to nobody after.
pub proof fn lemma_issued_invoice_resolves(
    table: Map<Seq<u8>, InvoiceView>,
    invoice: InvoiceView,
    now: u64,
    later: u64,
)
    requires
        now <= later,
    ensures
        resolved(live_at(table, now).insert(invoice.address, invoice), invoice.address, later)
            == if later <= invoice.expires_at {
            Some(invoice)
        } else {
            None
        },
{
}

/// Sweeping twice at one moment is sweeping once.
pub proof fn lemma_sweep_is_idempotent(table: Map<Seq<u8>, InvoiceView>, now: u64)
    ensures
        live_at(live_at(table, now), now) == live_at(table, now),
{
    assert(live_at(live_at(table, now), now) =~= live_at(table, now));
}

} // verus!
