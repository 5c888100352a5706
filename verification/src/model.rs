//! # Model — data and business rules
//!
//! What the soda machine knows (stock, prices, the coin slot, the purchase
//! log) and what it is allowed to do. Amounts of money are whole cents:
//! `150` is one dollar fifty.
use vstd::prelude::*;
use vstd::hash_map::StringHashMap;
use vstd::string::*;

use crate::text::{dollars_text, push_dollars, trim, trimmed};

verus! {

broadcast use vstd::string::group_string_axioms;

// ---------------------------------------------------------------------------
// Abstract state
// ---------------------------------------------------------------------------

/// One completed purchase, as the machine's log records it.
pub struct TransactionView {
    pub soda: Seq<char>,
    pub price: u64,
    pub money_inserted: u64,
    pub change: u64,
}

/// What a purchase attempt reports.
pub struct PurchaseView {
    pub success: bool,
    pub message: Seq<char>,
    pub change: u64,
}

/// The errors of the model, with names as character sequences.
pub enum ErrorView {
    InvalidAmount,
    NegativeQuantity,
    QuantityOverflow,
    NonPositivePrice,
    EmptySodaName,
    SodaNotFound(Seq<char>),
    SodaAlreadyExists(Seq<char>),
}

/// Everything the machine knows.
pub struct ModelState {
    /// Soda name to cans left.
    pub inventory: Map<Seq<char>, u32>,
    /// Soda name to price in cents.
    pub prices: Map<Seq<char>, u64>,
    /// Soda names in the order they were stocked.
    pub order: Seq<Seq<char>>,
    /// Cents in the coin slot.
    pub money: u64,
    /// Completed purchases, oldest first.
    pub history: Seq<TransactionView>,
}

/// The `(name, value)` pairs of `m` for the names of `order` that `m` has,
/// in the order of `order`.
pub open spec fn listed<V>(order: Seq<Seq<char>>, m: Map<Seq<char>, V>) -> Seq<(Seq<char>, V)>
    decreases order.len(),
{
    if order.len() == 0 {
        Seq::empty()
    } else {
        let rest = listed(order.drop_last(), m);
        let name = order.last();
        if m.contains_key(name) {
            rest.push((name, m[name]))
        } else {
            rest
        }
    }
}

/// Cans of `name` in `inventory`; a name the inventory lacks has none.
pub open spec fn quantity_of(inventory: Map<Seq<char>, u32>, name: Seq<char>) -> u32 {
    if inventory.contains_key(name) {
        inventory[name]
    } else {
        0
    }
}

/// The names of `order` that still have cans, in the order of `order`.
pub open spec fn in_stock(order: Seq<Seq<char>>, inventory: Map<Seq<char>, u32>) -> Seq<Seq<char>>
    decreases order.len(),
{
    if order.len() == 0 {
        Seq::empty()
    } else {
        let rest = in_stock(order.drop_last(), inventory);
        if quantity_of(inventory, order.last()) > 0 {
            rest.push(order.last())
        } else {
            rest
        }
    }
}

/// Message of a purchase refused for want of stock.
pub open spec fn out_of_stock_message(name: Seq<char>) -> Seq<char> {
    "Sorry, "@ + name + " is out of stock"@
}

/// Message of a purchase refused for want of `needed` more cents.
pub open spec fn insufficient_funds_message(needed: nat) -> Seq<char> {
    "Insufficient funds. Please insert $"@ + dollars_text(needed) + " more"@
}

/// Message of a purchase that went through.
pub open spec fn dispensing_message(name: Seq<char>) -> Seq<char> {
    "Dispensing "@ + name + ". Enjoy!"@
}

impl ModelState {
    /// The machine as it leaves the factory: five sodas, ten cans each,
    /// an empty coin slot and an empty log.
    pub open spec fn initial() -> ModelState {
        ModelState {
            inventory: map![
                "Cola"@ => 10u32,
                "Root Beer"@ => 10u32,
                "Lemon-Lime"@ => 10u32,
                "Grape Soda"@ => 10u32,
                "Cream Soda"@ => 10u32,
            ],
            prices: map![
                "Cola"@ => 150u64,
                "Root Beer"@ => 150u64,
                "Lemon-Lime"@ => 150u64,
                "Grape Soda"@ => 175u64,
                "Cream Soda"@ => 175u64,
            ],
            order: seq!["Cola"@, "Root Beer"@, "Lemon-Lime"@, "Grape Soda"@, "Cream Soda"@],
            money: 0,
            history: Seq::empty(),
        }
    }

    /// Inventory snapshot: `(name, cans)` in stocking order.
    pub open spec fn inventory_listing(self) -> Seq<(Seq<char>, u32)> {
        listed(self.order, self.inventory)
    }

    /// Price snapshot: `(name, cents)` in stocking order.
    pub open spec fn price_listing(self) -> Seq<(Seq<char>, u64)> {
        listed(self.order, self.prices)
    }

    /// Names that still have cans, in stocking order.
    pub open spec fn available(self) -> Seq<Seq<char>> {
        in_stock(self.order, self.inventory)
    }

    /// Price of `name`, or the error for an unknown name.
    pub open spec fn price_of(self, name: Seq<char>) -> Result<u64, ErrorView> {
        if self.prices.contains_key(name) {
            Ok(self.prices[name])
        } else {
            Err(ErrorView::SodaNotFound(name))
        }
    }

    /// Cans of `name`, or the error for an unknown name.
    pub open spec fn stock_of(self, name: Seq<char>) -> Result<u32, ErrorView> {
        if self.inventory.contains_key(name) {
            Ok(self.inventory[name])
        } else {
            Err(ErrorView::SodaNotFound(name))
        }
    }

    /// Adding `amount` cents to the slot: refused when the amount is
    /// negative, or when the total would not fit in the slot's counter.
    pub open spec fn insert_money(self, amount: int) -> (ModelState, Result<u64, ErrorView>) {
        if amount < 0 || self.money + amount > u64::MAX {
            (self, Err(ErrorView::InvalidAmount))
        } else {
            let total = (self.money + amount) as u64;
            (ModelState { money: total, ..self }, Ok(total))
        }
    }

    /// Emptying the slot: everything in it comes back.
    pub open spec fn return_money(self) -> (ModelState, u64) {
        (ModelState { money: 0, ..self }, self.money)
    }

    /// Buying one can of `name` with the money in the slot.
    pub open spec fn purchase(self, name: Seq<char>) -> (ModelState, Result<PurchaseView, ErrorView>) {
        if !self.inventory.contains_key(name) || !self.prices.contains_key(name) {
            (self, Err(ErrorView::SodaNotFound(name)))
        } else if self.inventory[name] == 0 {
            (
                self,
                Ok(PurchaseView { success: false, message: out_of_stock_message(name), change: 0 }),
            )
        } else if self.money < self.prices[name] {
            (
                self,
                Ok(
                    PurchaseView {
                        success: false,
                        message: insufficient_funds_message((self.prices[name] - self.money) as nat),
                        change: 0,
                    },
                ),
            )
        } else {
            let price = self.prices[name];
            let change = (self.money - price) as u64;
            let sale = TransactionView { soda: name, price, money_inserted: self.money, change };
            (
                ModelState {
                    inventory: self.inventory.insert(name, (self.inventory[name] - 1) as u32),
                    money: 0,
                    history: self.history.push(sale),
                    ..self
                },
                Ok(PurchaseView { success: true, message: dispensing_message(name), change }),
            )
        }
    }

    /// Adding `quantity` cans of an existing soda.
    pub open spec fn restock(self, name: Seq<char>, quantity: int) -> (ModelState, Result<u32, ErrorView>) {
        if !self.inventory.contains_key(name) {
            (self, Err(ErrorView::SodaNotFound(name)))
        } else if quantity < 0 {
            (self, Err(ErrorView::NegativeQuantity))
        } else if self.inventory[name] + quantity > u32::MAX {
            (self, Err(ErrorView::QuantityOverflow))
        } else {
            let total = (self.inventory[name] + quantity) as u32;
            (ModelState { inventory: self.inventory.insert(name, total), ..self }, Ok(total))
        }
    }

    /// Introducing a new soda under `name` with surrounding whitespace
    /// removed.
    pub open spec fn add_soda(self, name: Seq<char>, price: int, quantity: u32) -> (
        ModelState,
        Result<(), ErrorView>,
    ) {
        let name = trimmed(name);
        if name.len() == 0 {
            (self, Err(ErrorView::EmptySodaName))
        } else if self.inventory.contains_key(name) {
            (self, Err(ErrorView::SodaAlreadyExists(name)))
        } else if price <= 0 {
            (self, Err(ErrorView::NonPositivePrice))
        } else {
            (
                ModelState {
                    inventory: self.inventory.insert(name, quantity),
                    prices: self.prices.insert(name, price as u64),
                    order: self.order.push(name),
                    ..self
                },
                Ok(()),
            )
        }
    }
}

// ---------------------------------------------------------------------------
// Executable types
// ---------------------------------------------------------------------------

/// One completed purchase, kept for the admin transaction log. Amounts are
/// in cents.
#[derive(Debug, Clone, PartialEq)]
pub struct Transaction {
    pub soda: String,
    pub price: u64,
    pub money_inserted: u64,
    pub change: u64,
}

impl View for Transaction {
    type V = TransactionView;

    open spec fn view(&self) -> TransactionView {
        TransactionView {
            soda: self.soda@,
            price: self.price,
            money_inserted: self.money_inserted,
            change: self.change,
        }
    }
}

/// Result of trying to buy a soda. `change` is in cents.
#[derive(Debug, Clone, PartialEq)]
pub struct PurchaseResult {
    pub success: bool,
    pub message: String,
    pub change: u64,
}

impl View for PurchaseResult {
    type V = PurchaseView;

    open spec fn view(&self) -> PurchaseView {
        PurchaseView { success: self.success, message: self.message@, change: self.change }
    }
}

/// Errors the model can produce (invalid amounts, unknown sodas, etc.).
#[derive(Debug, Clone, PartialEq)]
pub enum ModelError {
    /// Negative amount, or one the coin slot cannot hold.
    InvalidAmount,
    NegativeQuantity,
    /// Restock would push quantity past `u32::MAX`.
    QuantityOverflow,
    NonPositivePrice,
    EmptySodaName,
    SodaNotFound(String),
    SodaAlreadyExists(String),
}

impl View for ModelError {
    type V = ErrorView;

    open spec fn view(&self) -> ErrorView {
        match self {
            ModelError::InvalidAmount => ErrorView::InvalidAmount,
            ModelError::NegativeQuantity => ErrorView::NegativeQuantity,
            ModelError::QuantityOverflow => ErrorView::QuantityOverflow,
            ModelError::NonPositivePrice => ErrorView::NonPositivePrice,
            ModelError::EmptySodaName => ErrorView::EmptySodaName,
            ModelError::SodaNotFound(name) => ErrorView::SodaNotFound(name@),
            ModelError::SodaAlreadyExists(name) => ErrorView::SodaAlreadyExists(name@),
        }
    }
}

/// The text a user is shown for an error.
pub open spec fn error_message(e: ErrorView) -> Seq<char> {
    match e {
        ErrorView::InvalidAmount => "Amount must be a finite, non-negative number"@,
        ErrorView::NegativeQuantity => "Cannot restock negative quantity"@,
        ErrorView::QuantityOverflow => "Restock would exceed maximum stock"@,
        ErrorView::NonPositivePrice => "Price must be positive"@,
        ErrorView::EmptySodaName => "Soda name cannot be empty"@,
        ErrorView::SodaNotFound(name) => "Soda '"@ + name + "' not found in inventory"@,
        ErrorView::SodaAlreadyExists(name) => "Soda '"@ + name + "' already exists in inventory"@,
    }
}

/// A model result with its value and error taken by their views.
pub open spec fn outcome<T: View>(r: Result<T, ModelError>) -> Result<T::V, ErrorView> {
    match r {
        Ok(v) => Ok(v@),
        Err(e) => Err(e@),
    }
}

impl ModelError {
    /// The text a user is shown for this error.
    pub fn message(&self) -> (s: String)
        ensures
            s@ == error_message(self@),
    {
        match self {
            ModelError::InvalidAmount => String::from_str(
                "Amount must be a finite, non-negative number",
            ),
            ModelError::NegativeQuantity => String::from_str("Cannot restock negative quantity"),
            ModelError::QuantityOverflow => String::from_str("Restock would exceed maximum stock"),
            ModelError::NonPositivePrice => String::from_str("Price must be positive"),
            ModelError::EmptySodaName => String::from_str("Soda name cannot be empty"),
            ModelError::SodaNotFound(name) => {
                let mut s = String::from_str("Soda '");
                s.append(name.as_str());
                s.append("' not found in inventory");
                s
            },
            ModelError::SodaAlreadyExists(name) => {
                let mut s = String::from_str("Soda '");
                s.append(name.as_str());
                s.append("' already exists in inventory");
                s
            },
        }
    }
}

fn not_found(name: &str) -> (e: ModelError)
    ensures
        e@ == ErrorView::SodaNotFound(name@),
{
    ModelError::SodaNotFound(String::from_str(name))
}

// ---------------------------------------------------------------------------
// The machine
// ---------------------------------------------------------------------------

/// The soda machine's brain: inventory, prices, money, and history.
///
/// Fields other than the stocking order are public, so callers can
/// inspect and adjust the state directly; every method is specified for
/// every state, including one where a soda has stock but no price.
pub struct SodaModel {
    /// Soda name → how many cans are left.
    pub inventory: StringHashMap<u32>,
    /// Soda name → price in cents.
    pub prices: StringHashMap<u64>,
    /// Insertion order of soda names (the maps alone do not keep order).
    soda_order: Vec<String>,
    /// Cents the customer has put in for the current purchase.
    pub money_inserted: u64,
    /// Log of successful purchases.
    pub transaction_history: Vec<Transaction>,
}

impl View for SodaModel {
    type V = ModelState;

    closed spec fn view(&self) -> ModelState {
        ModelState {
            inventory: self.inventory@,
            prices: self.prices@,
            order: self.soda_order.deep_view(),
            money: self.money_inserted,
            history: self.transaction_history@.map_values(|t: Transaction| t@),
        }
    }
}

impl SodaModel {
    /// Create a machine stocked with the default five sodas.
    pub fn new() -> (model: Self)
        ensures
            model@ == ModelState::initial(),
    {
        let mut inventory = StringHashMap::new();
        let mut prices = StringHashMap::new();
        let mut soda_order: Vec<String> = Vec::new();

        inventory.insert(String::from_str("Cola"), 10u32);
        prices.insert(String::from_str("Cola"), 150u64);
        soda_order.push(String::from_str("Cola"));
        inventory.insert(String::from_str("Root Beer"), 10u32);
        prices.insert(String::from_str("Root Beer"), 150u64);
        soda_order.push(String::from_str("Root Beer"));
        inventory.insert(String::from_str("Lemon-Lime"), 10u32);
        prices.insert(String::from_str("Lemon-Lime"), 150u64);
        soda_order.push(String::from_str("Lemon-Lime"));
        inventory.insert(String::from_str("Grape Soda"), 10u32);
        prices.insert(String::from_str("Grape Soda"), 175u64);
        soda_order.push(String::from_str("Grape Soda"));
        inventory.insert(String::from_str("Cream Soda"), 10u32);
        prices.insert(String::from_str("Cream Soda"), 175u64);
        soda_order.push(String::from_str("Cream Soda"));

        let model = SodaModel {
            inventory,
            prices,
            soda_order,
            money_inserted: 0,
            transaction_history: Vec::new(),
        };
        assert(model@.order =~= ModelState::initial().order);
        assert(model@.history =~= Seq::<TransactionView>::empty());
        assert(model@.inventory =~= ModelState::initial().inventory);
        assert(model@.prices =~= ModelState::initial().prices);
        model
    }

    /// Snapshot of current inventory (name → quantity), in insertion order
    /// so menus stay stable.
    pub fn get_inventory(&self) -> (listing: Vec<(String, u32)>)
        ensures
            listing.deep_view() == self@.inventory_listing(),
    {
        let mut listing: Vec<(String, u32)> = Vec::new();
        let n = self.soda_order.len();
        for i in 0..n
            invariant
                n == self.soda_order@.len(),
                listing.deep_view() == listed(self.soda_order.deep_view().take(i as int), self.inventory@),
        {
            let ghost order = self.soda_order.deep_view();
            proof {
                assert(order.take(i + 1).drop_last() =~= order.take(i as int));
            }
            let name = &self.soda_order[i];
            match self.inventory.get(name.as_str()) {
                Some(q) => {
                    let ghost prev = listing.deep_view();
                    listing.push((name.clone(), *q));
                    assert(listing.deep_view() =~= prev.push((name@, *q)));
                },
                None => {},
            }
        }
        assert(self.soda_order.deep_view().take(n as int) =~= self.soda_order.deep_view());
        listing
    }

    /// Snapshot of prices (name → cents), same order as inventory.
    pub fn get_prices(&self) -> (listing: Vec<(String, u64)>)
        ensures
            listing.deep_view() == self@.price_listing(),
    {
        let mut listing: Vec<(String, u64)> = Vec::new();
        let n = self.soda_order.len();
        for i in 0..n
            invariant
                n == self.soda_order@.len(),
                listing.deep_view() == listed(self.soda_order.deep_view().take(i as int), self.prices@),
        {
            let ghost order = self.soda_order.deep_view();
            proof {
                assert(order.take(i + 1).drop_last() =~= order.take(i as int));
            }
            let name = &self.soda_order[i];
            match self.prices.get(name.as_str()) {
                Some(p) => {
                    let ghost prev = listing.deep_view();
                    listing.push((name.clone(), *p));
                    assert(listing.deep_view() =~= prev.push((name@, *p)));
                },
                None => {},
            }
        }
        assert(self.soda_order.deep_view().take(n as int) =~= self.soda_order.deep_view());
        listing
    }

    /// Names of sodas that still have stock (`quantity > 0`).
    pub fn get_available_sodas(&self) -> (names: Vec<String>)
        ensures
            names.deep_view() == self@.available(),
    {
        let mut names: Vec<String> = Vec::new();
        let n = self.soda_order.len();
        for i in 0..n
            invariant
                n == self.soda_order@.len(),
                names.deep_view() == in_stock(self.soda_order.deep_view().take(i as int), self.inventory@),
        {
            let ghost order = self.soda_order.deep_view();
            proof {
                assert(order.take(i + 1).drop_last() =~= order.take(i as int));
            }
            let name = &self.soda_order[i];
            let quantity = match self.inventory.get(name.as_str()) {
                Some(q) => *q,
                None => 0,
            };
            if quantity > 0 {
                let ghost prev = names.deep_view();
                names.push(name.clone());
                assert(names.deep_view() =~= prev.push(name@));
            }
        }
        assert(self.soda_order.deep_view().take(n as int) =~= self.soda_order.deep_view());
        names
    }

    /// Price of one soda, or an error if the name is unknown.
    pub fn get_soda_price(&self, soda_name: &str) -> (r: Result<u64, ModelError>)
        ensures
            outcome(r) == self@.price_of(soda_name@),
    {
        match self.prices.get(soda_name) {
            Some(p) => Ok(*p),
            None => Err(not_found(soda_name)),
        }
    }

    /// Quantity of one soda, or an error if the name is unknown.
    pub fn get_soda_quantity(&self, soda_name: &str) -> (r: Result<u32, ModelError>)
        ensures
            outcome(r) == self@.stock_of(soda_name@),
    {
        match self.inventory.get(soda_name) {
            Some(q) => Ok(*q),
            None => Err(not_found(soda_name)),
        }
    }

    /// Cents currently in the coin slot.
    pub fn money_in_slot(&self) -> (cents: u64)
        ensures
            cents == self@.money,
    {
        self.money_inserted
    }

    /// Add `amount` cents toward the next purchase. Returns the new total.
    pub fn insert_money(&mut self, amount: i64) -> (r: Result<u64, ModelError>)
        ensures
            (final(self)@, outcome(r)) == old(self)@.insert_money(amount as int),
    {
        if amount < 0 {
            return Err(ModelError::InvalidAmount);
        }
        let amount = amount as u64;
        match self.money_inserted.checked_add(amount) {
            Some(total) => {
                self.money_inserted = total;
                Ok(total)
            },
            None => Err(ModelError::InvalidAmount),
        }
    }

    /// Give back all inserted money and reset the coin slot to zero.
    pub fn return_money(&mut self) -> (returned: u64)
        ensures
            (final(self)@, returned) == old(self)@.return_money(),
    {
        let returned = self.money_inserted;
        self.money_inserted = 0;
        returned
    }

    /// Try to buy `soda_name` with the money currently in the machine.
    ///
    /// On success: decrement stock, record a transaction, return change,
    /// and clear the coin slot. On soft failure (out of stock / not enough
    /// money): leave money and stock alone; `success` is `false`. On hard
    /// failure (unknown name, or a stocked name without a price): `Err`.
    pub fn purchase_soda(&mut self, soda_name: &str) -> (r: Result<PurchaseResult, ModelError>)
        ensures
            (final(self)@, outcome(r)) == old(self)@.purchase(soda_name@),
    {
        let quantity = match self.inventory.get(soda_name) {
            Some(q) => *q,
            None => return Err(not_found(soda_name)),
        };
        // Prices should always exist for inventoried sodas; a missing
        // price is "not found" rather than a panic.
        let price = match self.prices.get(soda_name) {
            Some(p) => *p,
            None => return Err(not_found(soda_name)),
        };

        if quantity == 0 {
            let mut message = String::from_str("Sorry, ");
            message.append(soda_name);
            message.append(" is out of stock");
            return Ok(PurchaseResult { success: false, message, change: 0 });
        }
        if self.money_inserted < price {
            let needed = price - self.money_inserted;
            let mut message = String::from_str("Insufficient funds. Please insert $");
            push_dollars(&mut message, needed);
            message.append(" more");
            return Ok(PurchaseResult { success: false, message, change: 0 });
        }

        // Process the purchase
        self.inventory.insert(String::from_str(soda_name), quantity - 1);
        let change = self.money_inserted - price;
        let ghost log = self.transaction_history@;
        self.transaction_history.push(
            Transaction {
                soda: String::from_str(soda_name),
                price,
                money_inserted: self.money_inserted,
                change,
            },
        );
        self.money_inserted = 0;
        let mut message = String::from_str("Dispensing ");
        message.append(soda_name);
        message.append(". Enjoy!");
        assert(self.transaction_history@.map_values(|t: Transaction| t@) =~= log.map_values(
            |t: Transaction| t@,
        ).push(self.transaction_history@.last()@));
        Ok(PurchaseResult { success: true, message, change })
    }

    /// Add cans of an existing soda. Returns the new quantity.
    pub fn restock_soda(&mut self, soda_name: &str, quantity: i32) -> (r: Result<u32, ModelError>)
        ensures
            (final(self)@, outcome(r)) == old(self)@.restock(soda_name@, quantity as int),
    {
        let current = match self.inventory.get(soda_name) {
            Some(q) => *q,
            None => return Err(not_found(soda_name)),
        };
        if quantity < 0 {
            return Err(ModelError::NegativeQuantity);
        }
        match current.checked_add(quantity as u32) {
            Some(total) => {
                self.inventory.insert(String::from_str(soda_name), total);
                Ok(total)
            },
            None => Err(ModelError::QuantityOverflow),
        }
    }

    /// Introduce a brand-new soda flavor. The name is trimmed of
    /// surrounding whitespace first; `price` is in cents.
    pub fn add_new_soda(&mut self, soda_name: &str, price: i64, quantity: u32) -> (r: Result<
        (),
        ModelError,
    >)
        ensures
            (final(self)@, outcome(r)) == old(self)@.add_soda(soda_name@, price as int, quantity),
    {
        let soda_name = trim(soda_name);
        if soda_name.is_empty() {
            return Err(ModelError::EmptySodaName);
        }
        if self.inventory.contains_key(soda_name) {
            return Err(ModelError::SodaAlreadyExists(String::from_str(soda_name)));
        }
        if price <= 0 {
            return Err(ModelError::NonPositivePrice);
        }
        self.inventory.insert(String::from_str(soda_name), quantity);
        self.prices.insert(String::from_str(soda_name), price as u64);
        let ghost order = self.soda_order.deep_view();
        self.soda_order.push(String::from_str(soda_name));
        assert(self.soda_order.deep_view() =~= order.push(soda_name@));
        Ok(())
    }

    /// Full purchase log (admin screen).
    pub fn get_transaction_history(&self) -> (log: &[Transaction])
        ensures
            log@.map_values(|t: Transaction| t@) == self@.history,
    {
        self.transaction_history.as_slice()
    }
}

impl Default for SodaModel {
    fn default() -> (model: Self)
        ensures
            model@ == ModelState::initial(),
    {
        Self::new()
    }
}

} // verus!
