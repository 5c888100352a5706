//! Properties of the machine that span several operations, proved over the
//! abstract state that every method of `SodaModel` is specified against.
use vstd::prelude::*;

use crate::model::{in_stock, listed, quantity_of, ErrorView, ModelState};
use crate::model::{PurchaseView};
use crate::text::{
    decimal,
    digits_value,
    dollars_text,
    is_digit_run,
    is_white_space,
    lemma_decimal_reads_back,
    lemma_dollars_text_reads_back,
    lemma_parse_decimal,
    lemma_trimmed_edges,
    trimmed,
};
use crate::view::{
    left_aligned,
    list_pick,
    quantity_input,
    soda_row_text,
    transaction_row_text,
    MenuPick,
    QuantityInput,
};

verus! {

/// One request to the machine.
pub enum Operation {
    InsertMoney(int),
    ReturnMoney,
    Purchase(Seq<char>),
    Restock(Seq<char>, int),
    AddSoda(Seq<char>, int, u32),
}

/// The state after `op`.
pub open spec fn apply(s: ModelState, op: Operation) -> ModelState {
    match op {
        Operation::InsertMoney(amount) => s.insert_money(amount).0,
        Operation::ReturnMoney => s.return_money().0,
        Operation::Purchase(name) => s.purchase(name).0,
        Operation::Restock(name, quantity) => s.restock(name, quantity).0,
        Operation::AddSoda(name, price, quantity) => s.add_soda(name, price, quantity).0,
    }
}

/// Every logged sale paid exactly the price plus the change.
pub open spec fn sales_balance(s: ModelState) -> bool {
    forall|i: int|
        0 <= i < s.history.len() ==> #[trigger] s.history[i].price + s.history[i].change
            == s.history[i].money_inserted
}

/// Returning the money hands back everything in the slot and leaves it
/// empty, so a second return gives nothing.
pub proof fn lemma_return_twice(s: ModelState)
    ensures
        s.return_money().1 == s.money,
        s.return_money().0.money == 0,
        s.return_money().0.return_money().1 == 0,
{
}

/// Inserting money and then asking for it back returns the slot's old
/// contents plus the amount inserted.
pub proof fn lemma_insert_then_return(s: ModelState, amount: int)
    requires
        0 <= amount,
        s.money + amount <= u64::MAX,
    ensures
        s.insert_money(amount).1 == Ok::<u64, ErrorView>((s.money + amount) as u64),
        s.insert_money(amount).0.return_money().1 == s.money + amount,
{
}

/// Two insertions add up: the slot holds both amounts.
pub proof fn lemma_insertions_add_up(s: ModelState, a: int, b: int)
    requires
        0 <= a,
        0 <= b,
        s.money + a + b <= u64::MAX,
    ensures
        s.insert_money(a).0.insert_money(b).0.money == s.money + a + b,
        s.insert_money(a).0.insert_money(b).1 == Ok::<u64, ErrorView>((s.money + a + b) as u64),
{
}

/// A refused insertion (negative, or too large for the slot) changes
/// nothing.
pub proof fn lemma_refused_insertion_keeps_state(s: ModelState, amount: int)
    ensures
        s.insert_money(amount).1 is Err ==> s.insert_money(amount).0 == s,
        s.insert_money(amount).1 is Err <==> (amount < 0 || s.money + amount > u64::MAX),
{
}

/// A purchase succeeds exactly when the soda is known, priced, in stock
/// and paid for.
pub proof fn lemma_purchase_succeeds_iff(s: ModelState, name: Seq<char>)
    ensures
        (s.purchase(name).1 matches Ok(p) && p.success) <==> {
            &&& s.inventory.contains_key(name)
            &&& s.prices.contains_key(name)
            &&& s.inventory[name] > 0
            &&& s.money >= s.prices[name]
        },
{
}

/// A purchase that does not go through (unknown soda, none left, not
/// enough money) leaves the machine exactly as it was: no money is taken.
pub proof fn lemma_refused_purchase_keeps_state(s: ModelState, name: Seq<char>)
    ensures
        !(s.purchase(name).1 matches Ok(p) && p.success) ==> s.purchase(name).0 == s,
{
}

/// A purchase that goes through takes one can, empties the slot, logs a
/// sale whose price plus change is what was inserted, and touches nothing
/// else.
pub proof fn lemma_successful_purchase(s: ModelState, name: Seq<char>)
    requires
        s.purchase(name).1 matches Ok(p) && p.success,
    ensures
        ({
            let (t, r) = s.purchase(name);
            let p = r->Ok_0;
            &&& t.inventory[name] == s.inventory[name] - 1
            &&& forall|other: Seq<char>|
                other != name ==> quantity_of(t.inventory, other) == quantity_of(
                    s.inventory,
                    other,
                )
            &&& t.inventory.dom() == s.inventory.dom()
            &&& t.prices == s.prices
            &&& t.order == s.order
            &&& t.money == 0
            &&& t.history.len() == s.history.len() + 1
            &&& t.history.take(s.history.len() as int) == s.history
            &&& t.history.last().soda == name
            &&& t.history.last().price == s.prices[name]
            &&& t.history.last().money_inserted == s.money
            &&& t.history.last().change == p.change
            &&& p.change + s.prices[name] == s.money
        }),
{
    let t = s.purchase(name).0;
    assert(t.inventory.dom() =~= s.inventory.dom());
    assert(t.history.take(s.history.len() as int) =~= s.history);
}

/// A successful restock leaves the soda with its old count plus the added
/// cans, and the count read back is the one returned.
pub proof fn lemma_restock_then_read(s: ModelState, name: Seq<char>, quantity: int)
    requires
        s.restock(name, quantity).1 is Ok,
    ensures
        s.restock(name, quantity).0.stock_of(name) == Ok::<u32, ErrorView>(
            s.restock(name, quantity).1->Ok_0,
        ),
        s.restock(name, quantity).1->Ok_0 == s.inventory[name] + quantity,
        s.restock(name, quantity).0.prices == s.prices,
        s.restock(name, quantity).0.money == s.money,
{
}

/// A new soda can be read back: its stock and price are the ones given,
/// and it comes last in both snapshots (for a name not already in the
/// stocking order; the methods never leave a name there without stock).
pub proof fn lemma_add_then_read(s: ModelState, name: Seq<char>, price: int, quantity: u32)
    requires
        s.add_soda(name, price, quantity).1 is Ok,
        !s.order.contains(trimmed(name)),
    ensures
        ({
            let t = s.add_soda(name, price, quantity).0;
            let n = trimmed(name);
            &&& t.stock_of(n) == Ok::<u32, ErrorView>(quantity)
            &&& t.price_of(n) == Ok::<u64, ErrorView>(price as u64)
            &&& t.inventory_listing() == s.inventory_listing().push((n, quantity))
            &&& t.price_listing() == s.price_listing().push((n, price as u64))
        }),
{
    let t = s.add_soda(name, price, quantity).0;
    let n = trimmed(name);
    lemma_listed_insert_absent(s.order, s.inventory, n, quantity);
    lemma_listed_insert_absent(s.order, s.prices, n, price as u64);
    assert(t.order.drop_last() =~= s.order);
    assert(t.order.last() == n);
}

/// A new soda is stored under the name typed with its surrounding
/// whitespace removed: the stored name neither starts nor ends with
/// whitespace, and it is what lookups must use.
pub proof fn lemma_new_soda_name_is_trimmed(s: ModelState, name: Seq<char>, price: int, quantity: u32)
    requires
        s.add_soda(name, price, quantity).1 is Ok,
    ensures
        ({
            let t = s.add_soda(name, price, quantity).0;
            let n = t.order.last();
            &&& n == trimmed(name)
            &&& n.len() > 0
            &&& !is_white_space(n[0])
            &&& !is_white_space(n.last())
            &&& t.inventory.contains_key(n)
        }),
{
    lemma_trimmed_edges(name);
}

/// Whatever the name, a second soda under a name already stocked is
/// refused and changes nothing.
pub proof fn lemma_no_duplicate_soda(s: ModelState, name: Seq<char>, price: int, quantity: u32)
    requires
        s.inventory.contains_key(trimmed(name)),
    ensures
        s.add_soda(name, price, quantity).0 == s,
        s.add_soda(name, price, quantity).1 is Err,
{
}

/// A name is offered for sale exactly when it is in the stocking order
/// and has at least one can left.
pub proof fn lemma_available_iff(s: ModelState, name: Seq<char>)
    ensures
        s.available().contains(name) <==> (s.order.contains(name) && quantity_of(
            s.inventory,
            name,
        ) > 0),
{
    lemma_in_stock_iff(s.order, s.inventory, name);
}

proof fn lemma_in_stock_iff(order: Seq<Seq<char>>, inventory: Map<Seq<char>, u32>, name: Seq<char>)
    ensures
        in_stock(order, inventory).contains(name) <==> (order.contains(name) && quantity_of(
            inventory,
            name,
        ) > 0),
    decreases order.len(),
{
    if order.len() > 0 {
        let init = order.drop_last();
        lemma_in_stock_iff(init, inventory, name);
        let rest = in_stock(init, inventory);
        if order.contains(name) {
            let k = choose|k: int| 0 <= k < order.len() && order[k] == name;
            if k < order.len() - 1 {
                assert(init[k] == name);
            }
        }
        if init.contains(name) {
            let k = choose|k: int| 0 <= k < init.len() && init[k] == name;
            assert(order[k] == name);
        }
        assert(order[order.len() - 1] == order.last());
        if quantity_of(inventory, order.last()) > 0 {
            let r = rest.push(order.last());
            assert(r[r.len() - 1] == order.last());
            if rest.contains(name) {
                let k = choose|k: int| 0 <= k < rest.len() && rest[k] == name;
                assert(r[k] == name);
            }
            if r.contains(name) {
                let k = choose|k: int| 0 <= k < r.len() && r[k] == name;
                if k < rest.len() {
                    assert(rest[k] == name);
                }
            }
        }
    }
}

/// The names of a `(name, cans)` listing whose count is above zero, in
/// listing order.
pub open spec fn names_with_stock(listing: Seq<(Seq<char>, u32)>) -> Seq<Seq<char>>
    decreases listing.len(),
{
    if listing.len() == 0 {
        Seq::empty()
    } else {
        let rest = names_with_stock(listing.drop_last());
        if listing.last().1 > 0 {
            rest.push(listing.last().0)
        } else {
            rest
        }
    }
}

/// The sodas offered for sale are exactly the inventory snapshot filtered
/// to the entries with stock, in the same order.
pub proof fn lemma_available_is_stocked_listing(s: ModelState)
    ensures
        s.available() == names_with_stock(s.inventory_listing()),
{
    lemma_in_stock_is_filtered_listing(s.order, s.inventory);
}

proof fn lemma_in_stock_is_filtered_listing(order: Seq<Seq<char>>, inventory: Map<Seq<char>, u32>)
    ensures
        in_stock(order, inventory) == names_with_stock(listed(order, inventory)),
    decreases order.len(),
{
    if order.len() > 0 {
        let init = order.drop_last();
        lemma_in_stock_is_filtered_listing(init, inventory);
        let name = order.last();
        if inventory.contains_key(name) {
            let l = listed(init, inventory).push((name, inventory[name]));
            assert(l.drop_last() =~= listed(init, inventory));
        }
    }
}

/// Buying the last can takes a soda off the list of available sodas.
pub proof fn lemma_last_can_leaves_menu(s: ModelState, name: Seq<char>)
    requires
        s.purchase(name).1 matches Ok(p) && p.success,
        s.inventory[name] == 1,
    ensures
        !s.purchase(name).0.available().contains(name),
{
    lemma_available_iff(s.purchase(name).0, name);
}

/// When every soda in the stocking order has both a count and a price,
/// the inventory and price snapshots list the same names, in stocking
/// order.
pub proof fn lemma_snapshots_agree(s: ModelState)
    requires
        forall|i: int|
            0 <= i < s.order.len() ==> s.inventory.contains_key(#[trigger] s.order[i])
                && s.prices.contains_key(s.order[i]),
    ensures
        s.inventory_listing().len() == s.order.len(),
        s.price_listing().len() == s.order.len(),
        forall|i: int|
            0 <= i < s.order.len() ==> {
                &&& #[trigger] s.inventory_listing()[i] == (s.order[i], s.inventory[s.order[i]])
                &&& s.price_listing()[i] == (s.order[i], s.prices[s.order[i]])
            },
{
    lemma_listed_all(s.order, s.inventory);
    lemma_listed_all(s.order, s.prices);
}

proof fn lemma_listed_all<V>(order: Seq<Seq<char>>, m: Map<Seq<char>, V>)
    requires
        forall|i: int| 0 <= i < order.len() ==> m.contains_key(#[trigger] order[i]),
    ensures
        listed(order, m).len() == order.len(),
        forall|i: int| 0 <= i < order.len() ==> #[trigger] listed(order, m)[i] == (order[i], m[order[i]]),
    decreases order.len(),
{
    if order.len() > 0 {
        let init = order.drop_last();
        assert forall|i: int| 0 <= i < init.len() implies m.contains_key(#[trigger] init[i]) by {
            assert(init[i] == order[i]);
        }
        lemma_listed_all(init, m);
        assert(m.contains_key(order[order.len() - 1]));
    }
}

/// No request ever rewrites history: the purchase log and the stocking
/// order only grow at their ends, a soda once stocked stays stocked, and
/// the price of a stocked soda never changes.
pub proof fn lemma_append_only(s: ModelState, op: Operation)
    ensures
        ({
            let t = apply(s, op);
            &&& s.history.len() <= t.history.len()
            &&& t.history.take(s.history.len() as int) == s.history
            &&& s.order.len() <= t.order.len()
            &&& t.order.take(s.order.len() as int) == s.order
            &&& forall|n: Seq<char>| s.inventory.contains_key(n) ==> #[trigger] t.inventory.contains_key(n)
            &&& forall|n: Seq<char>| s.prices.contains_key(n) ==> #[trigger] t.prices.contains_key(n)
            &&& forall|n: Seq<char>|
                s.inventory.contains_key(n) && s.prices.contains_key(n) ==> #[trigger] t.prices[n]
                    == s.prices[n]
        }),
{
    let t = apply(s, op);
    assert(t.history.take(s.history.len() as int) =~= s.history);
    assert(t.order.take(s.order.len() as int) =~= s.order);
}

/// Every request keeps the books balanced: if each logged sale was paid
/// exactly its price plus change, that stays true.
pub proof fn lemma_sales_stay_balanced(s: ModelState, op: Operation)
    requires
        sales_balance(s),
    ensures
        sales_balance(apply(s, op)),
{
    let t = apply(s, op);
    assert forall|i: int| 0 <= i < t.history.len() implies #[trigger] t.history[i].price
        + t.history[i].change == t.history[i].money_inserted by {
        if i < s.history.len() {
            assert(t.history[i] == s.history[i]);
        }
    }
}

/// Only a purchase and a return take money out of the slot; every other
/// request leaves it as it was or adds to it.
pub proof fn lemma_money_leaves_only_by_sale_or_return(s: ModelState, op: Operation)
    requires
        !(op is Purchase),
        !(op is ReturnMoney),
    ensures
        apply(s, op).money >= s.money,
{
}

/// A stock count only drops through a sale, and then by exactly one can.
pub proof fn lemma_stock_drops_only_by_sale(s: ModelState, op: Operation, name: Seq<char>)
    ensures
        quantity_of(apply(s, op).inventory, name) < quantity_of(s.inventory, name) ==> {
            &&& op == Operation::Purchase(name)
            &&& quantity_of(apply(s, op).inventory, name) == quantity_of(s.inventory, name) - 1
        },
{
}

/// The stocking order and the two maps agree: stock and prices have the
/// same names, the stocking order lists exactly those names, and lists
/// each of them once.
pub open spec fn stock_consistent(s: ModelState) -> bool {
    &&& s.inventory.dom() == s.prices.dom()
    &&& s.order.no_duplicates()
    &&& forall|n: Seq<char>| #[trigger] s.order.contains(n) <==> s.inventory.contains_key(n)
}

/// The factory state is consistent.
pub proof fn lemma_initial_consistent()
    ensures
        stock_consistent(ModelState::initial()),
{
    reveal_strlit("Cola");
    reveal_strlit("Root Beer");
    reveal_strlit("Lemon-Lime");
    reveal_strlit("Grape Soda");
    reveal_strlit("Cream Soda");
    let s = ModelState::initial();
    assert(s.inventory.dom() =~= s.prices.dom());
    let o = s.order;
    assert(o[0] == "Cola"@ && o[1] == "Root Beer"@ && o[2] == "Lemon-Lime"@ && o[3] == "Grape Soda"@
        && o[4] == "Cream Soda"@);
    assert("Cola"@[0] == 'C' && "Root Beer"@[0] == 'R' && "Lemon-Lime"@[0] == 'L'
        && "Grape Soda"@[0] == 'G' && "Cream Soda"@[0] == 'C');
    assert("Cola"@.len() == 4 && "Cream Soda"@.len() == 10);
    assert(o.no_duplicates());
    assert forall|n: Seq<char>| #[trigger] o.contains(n) <==> s.inventory.contains_key(n) by {
        if s.inventory.contains_key(n) {
            if n == "Cola"@ {
                assert(o[0] == n);
            } else if n == "Root Beer"@ {
                assert(o[1] == n);
            } else if n == "Lemon-Lime"@ {
                assert(o[2] == n);
            } else if n == "Grape Soda"@ {
                assert(o[3] == n);
            } else {
                assert(o[4] == n);
            }
        }
    }
}

/// Every request keeps the stocking order consistent with the maps.
pub proof fn lemma_requests_keep_consistency(s: ModelState, op: Operation)
    requires
        stock_consistent(s),
    ensures
        stock_consistent(apply(s, op)),
{
    let t = apply(s, op);
    match op {
        Operation::Purchase(name) => {
            assert(t.inventory.dom() =~= s.inventory.dom());
        },
        Operation::Restock(name, quantity) => {
            assert(t.inventory.dom() =~= s.inventory.dom());
        },
        Operation::AddSoda(name, price, quantity) => {
            if s.add_soda(name, price, quantity).1 is Ok {
                let n = trimmed(name);
                assert(!s.order.contains(n));
                assert(t.inventory.dom() =~= s.prices.dom().insert(n));
                assert(t.prices.dom() =~= s.prices.dom().insert(n));
                assert(t.order.last() == n);
                assert forall|i: int, j: int|
                    0 <= i < t.order.len() && 0 <= j < t.order.len() && i != j implies t.order[i]
                    != t.order[j] by {
                    if i < s.order.len() && j < s.order.len() {
                        assert(t.order[i] == s.order[i] && t.order[j] == s.order[j]);
                    } else if i < s.order.len() {
                        assert(t.order[i] == s.order[i]);
                        assert(s.order.contains(s.order[i]));
                    } else {
                        assert(t.order[j] == s.order[j]);
                        assert(s.order.contains(s.order[j]));
                    }
                }
                assert forall|m: Seq<char>| #[trigger] t.order.contains(m) <==> t.inventory.contains_key(m) by {
                    if t.order.contains(m) {
                        let k = choose|k: int| 0 <= k < t.order.len() && t.order[k] == m;
                        if k < s.order.len() {
                            assert(s.order[k] == m);
                            assert(s.order.contains(m));
                        }
                    }
                    if t.inventory.contains_key(m) && m != n {
                        assert(s.order.contains(m));
                        let k = choose|k: int| 0 <= k < s.order.len() && s.order[k] == m;
                        assert(t.order[k] == m);
                    }
                    if m == n {
                        assert(t.order[t.order.len() - 1] == n);
                    }
                }
            }
        },
        _ => {},
    }
}

/// In a consistent state each snapshot names every stocked soda exactly
/// once, in stocking order: the inventory snapshot has one entry per
/// stocked soda, and no name twice.
pub proof fn lemma_consistent_snapshots(s: ModelState)
    requires
        stock_consistent(s),
    ensures
        s.inventory_listing().len() == s.order.len() == s.inventory.dom().len(),
        s.price_listing().len() == s.order.len(),
        forall|i: int|
            0 <= i < s.order.len() ==> #[trigger] s.inventory_listing()[i].0 == s.order[i]
                && s.price_listing()[i].0 == s.order[i],
        forall|i: int, j: int|
            0 <= i < s.order.len() && 0 <= j < s.order.len() && i != j ==> s.inventory_listing()[i].0
                != s.inventory_listing()[j].0,
{
    assert forall|i: int| 0 <= i < s.order.len() implies s.inventory.contains_key(#[trigger] s.order[i])
        && s.prices.contains_key(s.order[i]) by {
        assert(s.order.contains(s.order[i]));
    }
    lemma_snapshots_agree(s);
    s.order.unique_seq_to_set();
    assert(s.order.to_set() =~= s.inventory.dom()) by {
        assert forall|n: Seq<char>| s.order.to_set().contains(n) <==> s.inventory.dom().contains(n) by {
            assert(s.order.contains(n) <==> s.inventory.contains_key(n));
        }
    }
}

/// Adding a soda to a consistent machine keeps it consistent, and grows
/// the inventory snapshot by one entry exactly when the soda was added.
pub proof fn lemma_add_grows_snapshot_by_one(s: ModelState, name: Seq<char>, price: int, quantity: u32)
    requires
        stock_consistent(s),
    ensures
        stock_consistent(s.add_soda(name, price, quantity).0),
        s.add_soda(name, price, quantity).0.inventory_listing().len() == s.inventory_listing().len()
            + if s.add_soda(name, price, quantity).1 is Ok {
            1int
        } else {
            0int
        },
{
    lemma_requests_keep_consistency(s, Operation::AddSoda(name, price, quantity));
    lemma_consistent_snapshots(s);
    lemma_consistent_snapshots(s.add_soda(name, price, quantity).0);
}

/// What a purchase answers, in every case: an unknown or unpriced soda is
/// not found; a soda with no cans is refused as out of stock; a soda the
/// slot cannot pay for is refused with the shortfall `price - money`; any
/// other purchase dispenses the soda and gives `money - price` back. A
/// refusal changes nothing.
pub proof fn lemma_purchase_answers(s: ModelState, name: Seq<char>)
    ensures
        !(s.inventory.contains_key(name) && s.prices.contains_key(name)) ==> s.purchase(name) == (
            s,
            Err::<PurchaseView, ErrorView>(ErrorView::SodaNotFound(name)),
        ),
        s.inventory.contains_key(name) && s.prices.contains_key(name) && s.inventory[name] == 0
            ==> s.purchase(name) == (
            s,
            Ok::<PurchaseView, ErrorView>(
                PurchaseView {
                    success: false,
                    message: "Sorry, "@ + name + " is out of stock"@,
                    change: 0,
                },
            ),
        ),
        s.inventory.contains_key(name) && s.prices.contains_key(name) && s.inventory[name] > 0
            && s.money < s.prices[name] ==> s.purchase(name) == (
            s,
            Ok::<PurchaseView, ErrorView>(
                PurchaseView {
                    success: false,
                    message: "Insufficient funds. Please insert $"@ + dollars_text(
                        (s.prices[name] - s.money) as nat,
                    ) + " more"@,
                    change: 0,
                },
            ),
        ),
        s.inventory.contains_key(name) && s.prices.contains_key(name) && s.inventory[name] > 0
            && s.money >= s.prices[name] ==> s.purchase(name).1 == Ok::<PurchaseView, ErrorView>(
            PurchaseView {
                success: true,
                message: "Dispensing "@ + name + ". Enjoy!"@,
                change: (s.money - s.prices[name]) as u64,
            },
        ),
{
}

/// The amount a refusal for want of money names is exactly the shortfall:
/// the message is the fixed text around an amount of the form `D.CC`
/// whose dollars and cents make `price - money`.
pub proof fn lemma_refusal_names_shortfall(s: ModelState, name: Seq<char>)
    requires
        s.inventory.contains_key(name),
        s.prices.contains_key(name),
        s.inventory[name] > 0,
        s.money < s.prices[name],
    ensures
        ({
            let m = s.purchase(name).1->Ok_0.message;
            let amount = m.subrange(35, m.len() - 5);
            let whole = amount.subrange(0, amount.len() - 3);
            let frac = amount.subrange(amount.len() - 2, amount.len() as int);
            &&& m.len() >= 44
            &&& m.subrange(0, 35) == "Insufficient funds. Please insert $"@
            &&& m.subrange(m.len() - 5, m.len() as int) == " more"@
            &&& amount[amount.len() - 3] == '.'
            &&& is_digit_run(whole)
            &&& is_digit_run(frac)
            &&& frac.len() == 2
            &&& 100 * digits_value(whole) + digits_value(frac) == s.prices[name] - s.money
        }),
{
    reveal_strlit("Insufficient funds. Please insert $");
    reveal_strlit(" more");
    let t = dollars_text((s.prices[name] - s.money) as nat);
    lemma_dollars_text_reads_back((s.prices[name] - s.money) as nat);
    let m = s.purchase(name).1->Ok_0.message;
    assert(m == "Insufficient funds. Please insert $"@ + t + " more"@);
    assert(m.subrange(0, 35) =~= "Insufficient funds. Please insert $"@);
    assert(m.subrange(m.len() - 5, m.len() as int) =~= " more"@);
    assert(m.subrange(35, m.len() - 5) =~= t);
}

/// Adding a soda succeeds exactly when its trimmed name is not empty, not
/// yet stocked, and its price is above zero; each refusal names the first
/// condition that fails and changes nothing; a success stocks the trimmed
/// name with the given cans and price and puts it last in the order.
pub proof fn lemma_add_soda_answers(s: ModelState, name: Seq<char>, price: int, quantity: u32)
    ensures
        ({
            let n = trimmed(name);
            let (t, r) = s.add_soda(name, price, quantity);
            &&& r is Ok <==> (n.len() > 0 && !s.inventory.contains_key(n) && price > 0)
            &&& r == Err::<(), ErrorView>(ErrorView::EmptySodaName) <==> n.len() == 0
            &&& r == Err::<(), ErrorView>(ErrorView::SodaAlreadyExists(n)) <==> (n.len() > 0
                && s.inventory.contains_key(n))
            &&& r == Err::<(), ErrorView>(ErrorView::NonPositivePrice) <==> (n.len() > 0
                && !s.inventory.contains_key(n) && price <= 0)
            &&& r is Err ==> t == s
            &&& r is Ok ==> {
                &&& t.inventory == s.inventory.insert(n, quantity)
                &&& t.prices == s.prices.insert(n, price as u64)
                &&& t.order == s.order.push(n)
                &&& t.money == s.money
                &&& t.history == s.history
            }
        }),
{
}

/// Restocking answers, in every case: an unknown soda is not found; a
/// negative quantity is refused; a total past `u32::MAX` cans overflows;
/// any other restock succeeds, sets the count to the old count plus the
/// quantity and returns it. A refusal changes nothing.
pub proof fn lemma_restock_answers(s: ModelState, name: Seq<char>, quantity: int)
    ensures
        !s.inventory.contains_key(name) ==> s.restock(name, quantity) == (
            s,
            Err::<u32, ErrorView>(ErrorView::SodaNotFound(name)),
        ),
        s.inventory.contains_key(name) && quantity < 0 ==> s.restock(name, quantity) == (
            s,
            Err::<u32, ErrorView>(ErrorView::NegativeQuantity),
        ),
        s.inventory.contains_key(name) && quantity >= 0 && s.inventory[name] + quantity > u32::MAX
            ==> s.restock(name, quantity) == (s, Err::<u32, ErrorView>(ErrorView::QuantityOverflow)),
        s.inventory.contains_key(name) && quantity >= 0 && s.inventory[name] + quantity <= u32::MAX
            ==> {
            let (t, r) = s.restock(name, quantity);
            &&& r == Ok::<u32, ErrorView>((s.inventory[name] + quantity) as u32)
            &&& t.inventory[name] == s.inventory[name] + quantity
            &&& t.inventory == s.inventory.insert(name, (s.inventory[name] + quantity) as u32)
            &&& t.prices == s.prices
            &&& t.order == s.order
            &&& t.money == s.money
            &&& t.history == s.history
        },
{
}

/// A row of the soda table shows the name, the price as money text, and
/// "In Stock" exactly when the soda has cans, "Out of Stock" when it has
/// none.
pub proof fn lemma_soda_row_columns(name: Seq<char>, price: u64, quantity: u32)
    ensures
        soda_row_text(name, price, quantity) == left_aligned(name, 15) + " $"@ + left_aligned(
            dollars_text(price as nat),
            9,
        ) + " "@ + if quantity > 0 {
            "In Stock  "@
        } else {
            "Out of Stock"@
        },
{
    reveal_strlit("In Stock");
    reveal_strlit("In Stock  ");
    reveal_strlit("Out of Stock");
    assert(left_aligned("In Stock"@, 10) =~= "In Stock  "@);
    assert(left_aligned("Out of Stock"@, 10) =~= "Out of Stock"@);
}

/// The soda table agrees with what is offered for sale: for a soda in the
/// stocking order, its row says "In Stock" exactly when the soda is among
/// the available ones.
pub proof fn lemma_table_agrees_with_menu(s: ModelState, name: Seq<char>, price: u64)
    requires
        s.order.contains(name),
        s.inventory.contains_key(name),
    ensures
        s.available().contains(name) <==> soda_row_text(name, price, s.inventory[name]) == left_aligned(
            name,
            15,
        ) + " $"@ + left_aligned(dollars_text(price as nat), 9) + " "@ + "In Stock  "@,
{
    lemma_available_iff(s, name);
    lemma_soda_row_columns(name, price, s.inventory[name]);
    reveal_strlit("In Stock  ");
    reveal_strlit("Out of Stock");
    let head = left_aligned(name, 15) + " $"@ + left_aligned(dollars_text(price as nat), 9) + " "@;
    if s.inventory[name] == 0 {
        assert((head + "Out of Stock"@).len() != (head + "In Stock  "@).len());
    }
}

/// A row of the transaction table shows the number, the soda, and price,
/// money inserted and change each as money text: two cent digits, so five
/// cents of change reads `0.05`.
pub proof fn lemma_transaction_row_columns(number: nat, soda: Seq<char>, price: u64, money_inserted: u64, change: u64)
    ensures
        transaction_row_text(number, soda, price, money_inserted, change) == left_aligned(
            decimal(number),
            4,
        ) + " "@ + left_aligned(soda, 15) + " $"@ + left_aligned(dollars_text(price as nat), 9)
            + " $"@ + left_aligned(dollars_text(money_inserted as nat), 9) + " $"@ + left_aligned(
            dollars_text(change as nat),
            9,
        ),
        ({
            let t = dollars_text(change as nat);
            &&& t[t.len() - 3] == '.'
            &&& is_digit_run(t.subrange(t.len() - 2, t.len() as int))
            &&& 100 * digits_value(t.subrange(0, t.len() - 3)) + digits_value(
                t.subrange(t.len() - 2, t.len() as int),
            ) == change
        }),
{
    lemma_dollars_text_reads_back(change as nat);
}

/// Typing the number of an entry picks it: at a list of `count` entries,
/// the number `v` from 1 to `count` picks the entry at index `v - 1`,
/// `count + 1` cancels, and any larger number names no entry.
pub proof fn lemma_typed_number_picks(v: nat, count: nat)
    requires
        v <= usize::MAX,
    ensures
        1 <= v <= count ==> list_pick(decimal(v), count) == MenuPick::Item((v - 1) as usize),
        v == count + 1 ==> list_pick(decimal(v), count) == MenuPick::Cancel,
        (v == 0 || v > count + 1) ==> list_pick(decimal(v), count) == MenuPick::OutOfRange,
{
    lemma_parse_decimal(v);
}

/// Typing a number of cans gives that quantity, and typing it with a
/// minus sign is refused as negative.
pub proof fn lemma_typed_quantity(q: nat)
    requires
        0 < q <= i32::MAX,
    ensures
        quantity_input(decimal(q)) == QuantityInput::Quantity(q as u32),
        quantity_input(seq!['-'] + decimal(q)) == QuantityInput::Negative,
{
    lemma_parse_decimal(q);
    let t = seq!['-'] + decimal(q);
    assert(t.drop_first() =~= decimal(q));
    lemma_decimal_reads_back(q);
    assert(decimal(q)[0] != '-');
}

/// Giving a map an entry for a name that `order` does not hold changes
/// nothing that `listed` reports for `order`.
proof fn lemma_listed_insert_absent<V>(order: Seq<Seq<char>>, m: Map<Seq<char>, V>, name: Seq<char>, v: V)
    requires
        !order.contains(name),
    ensures
        listed(order, m.insert(name, v)) == listed(order, m),
    decreases order.len(),
{
    if order.len() > 0 {
        assert(!order.drop_last().contains(name)) by {
            if order.drop_last().contains(name) {
                let k = choose|k: int| 0 <= k < order.drop_last().len() && order.drop_last()[k] == name;
                assert(order[k] == name);
            }
        }
        assert(order[order.len() - 1] == order.last());
        lemma_listed_insert_absent(order.drop_last(), m, name, v);
    }
}

} // verus!
