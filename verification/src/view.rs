//! # View — what the terminal shows and how typed answers are read
//!
//! The view only talks to the human. Printing and reading the keyboard
//! happen outside this library; here are the decisions the view makes on
//! what was typed, and the text of the rows it prints.
use vstd::prelude::*;
use vstd::string::*;

use crate::model::Transaction;
use crate::text::{
    decimal,
    dollars_text,
    eq_ignore_ascii_case,
    equal_ignoring_ascii_case,
    parse_i32,
    parse_signed,
    parse_unsigned,
    parse_usize,
    push_decimal,
};

verus! {

broadcast use vstd::string::group_string_axioms;

/// Terminal UI for the soda machine.
///
/// Methods take the data they need as arguments (inventory, prices, …)
/// so the view stays decoupled from the model type.
#[derive(Debug, Default)]
pub struct SodaView;

/// What a line typed at a numbered list means: the list has `count`
/// entries numbered from 1, followed by a Cancel entry.
#[derive(Debug, Clone, Copy, PartialEq, Eq)]
pub enum MenuPick {
    /// The entry at this zero-based index.
    Item(usize),
    /// The Cancel entry.
    Cancel,
    /// A number that names no entry.
    OutOfRange,
    /// Not a number.
    NotANumber,
}

/// What a line typed as a quantity means.
#[derive(Debug, Clone, Copy, PartialEq, Eq)]
pub enum QuantityInput {
    /// A quantity of zero or more.
    Quantity(u32),
    /// A number below zero.
    Negative,
    /// Not a number that fits an `i32`.
    NotANumber,
}

/// What a line typed as the name of a new soda means.
#[derive(Debug, Clone, Copy, PartialEq, Eq)]
pub enum NameInput {
    /// The word `cancel`, in any ASCII case.
    Cancel,
    /// Nothing at all.
    Empty,
    /// A name.
    Name,
}

/// The meaning of `line` typed at a list of `count` entries and Cancel.
pub open spec fn list_pick(line: Seq<char>, count: nat) -> MenuPick {
    match parse_unsigned(line) {
        Some(v) => if v > usize::MAX {
            MenuPick::NotANumber
        } else if 1 <= v <= count {
            MenuPick::Item((v - 1) as usize)
        } else if v == count + 1 {
            MenuPick::Cancel
        } else {
            MenuPick::OutOfRange
        },
        None => MenuPick::NotANumber,
    }
}

/// The meaning of `line` typed as a quantity.
pub open spec fn quantity_input(line: Seq<char>) -> QuantityInput {
    match parse_signed(line) {
        Some(q) => if q < i32::MIN || q > i32::MAX {
            QuantityInput::NotANumber
        } else if q >= 0 {
            QuantityInput::Quantity(q as u32)
        } else {
            QuantityInput::Negative
        },
        None => QuantityInput::NotANumber,
    }
}

/// The meaning of `line` typed as a new soda's name.
pub open spec fn name_input(line: Seq<char>) -> NameInput {
    if equal_ignoring_ascii_case(line, "cancel"@) {
        NameInput::Cancel
    } else if line.len() == 0 {
        NameInput::Empty
    } else {
        NameInput::Name
    }
}

/// `n` spaces.
pub open spec fn spaces(n: nat) -> Seq<char> {
    Seq::new(n, |i: int| ' ')
}

/// `s` left-aligned in a field `width` characters wide, as `{:<width}`
/// writes it: padded with spaces, never cut.
pub open spec fn left_aligned(s: Seq<char>, width: nat) -> Seq<char> {
    if s.len() < width {
        s + spaces((width - s.len()) as nat)
    } else {
        s
    }
}

/// Stock status shown beside a soda.
pub open spec fn stock_status(quantity: u32) -> Seq<char> {
    if quantity > 0 {
        "In Stock"@
    } else {
        "Out of Stock"@
    }
}

/// One row of the soda table: name, price and stock status.
pub open spec fn soda_row_text(name: Seq<char>, price: u64, quantity: u32) -> Seq<char> {
    left_aligned(name, 15) + " $"@ + left_aligned(dollars_text(price as nat), 9) + " "@
        + left_aligned(stock_status(quantity), 10)
}

/// One row of the transaction table.
pub open spec fn transaction_row_text(number: nat, soda: Seq<char>, price: u64, money_inserted: u64, change: u64) -> Seq<char> {
    left_aligned(decimal(number), 4) + " "@ + left_aligned(soda, 15) + " $"@ + left_aligned(
        dollars_text(price as nat),
        9,
    ) + " $"@ + left_aligned(dollars_text(money_inserted as nat), 9) + " $"@ + left_aligned(
        dollars_text(change as nat),
        9,
    )
}

/// The price the table shows for `name`: the last listed price of that
/// name, or zero when none is listed.
pub open spec fn shown_price(prices: Seq<(Seq<char>, u64)>, name: Seq<char>) -> u64
    decreases prices.len(),
{
    if prices.len() == 0 {
        0
    } else if prices.last().0 == name {
        prices.last().1
    } else {
        shown_price(prices.drop_last(), name)
    }
}

/// Appends `s` left-aligned in a field `width` wide.
fn push_left_aligned(out: &mut String, s: &str, width: usize)
    ensures
        final(out)@ == old(out)@ + left_aligned(s@, width as nat),
{
    out.append(s);
    let len = s.unicode_len();
    let mut k = len;
    proof {
        reveal_strlit(" ");
    }
    while k < width
        invariant
            len == s@.len(),
            len <= k,
            k <= width || len >= width,
            len >= width ==> k == len,
            out@ == old(out)@ + s@ + spaces((k - len) as nat),
        decreases width - k,
    {
        proof {
            reveal_strlit(" ");
            assert(" "@ =~= seq![' ']);
        }
        out.append(" ");
        assert(spaces((k + 1 - len) as nat) =~= spaces((k - len) as nat).push(' '));
        assert(out@ =~= old(out)@ + s@ + spaces((k + 1 - len) as nat));
        k = k + 1;
    }
    if len < width {
        assert(k == width);
    } else {
        assert(spaces(0) =~= Seq::<char>::empty());
        assert(out@ =~= old(out)@ + s@);
    }
    assert(out@ =~= old(out)@ + left_aligned(s@, width as nat));
}

impl SodaView {
    pub fn new() -> (view: Self)
        ensures
            view == SodaView,
    {
        SodaView
    }

    /// Reads `line` typed at a numbered list of `count` entries followed
    /// by a Cancel entry numbered `count + 1`.
    pub fn pick_from_list(line: &str, count: usize) -> (pick: MenuPick)
        requires
            count < usize::MAX,
        ensures
            pick == list_pick(line@, count as nat),
    {
        match parse_usize(line) {
            Some(choice) => {
                if 1 <= choice && choice <= count {
                    MenuPick::Item(choice - 1)
                } else if choice == count + 1 {
                    MenuPick::Cancel
                } else {
                    MenuPick::OutOfRange
                }
            },
            None => MenuPick::NotANumber,
        }
    }

    /// Reads `line` typed as a quantity: a number of zero or more is a
    /// quantity, a number below zero is refused.
    pub fn read_quantity(line: &str) -> (input: QuantityInput)
        ensures
            input == quantity_input(line@),
    {
        match parse_i32(line) {
            Some(q) => {
                if q >= 0 {
                    QuantityInput::Quantity(q as u32)
                } else {
                    QuantityInput::Negative
                }
            },
            None => QuantityInput::NotANumber,
        }
    }

    /// Reads `line` typed as the name of a new soda.
    pub fn read_soda_name(line: &str) -> (input: NameInput)
        ensures
            input == name_input(line@),
    {
        if eq_ignore_ascii_case(line, "cancel") {
            NameInput::Cancel
        } else if line.is_empty() {
            NameInput::Empty
        } else {
            NameInput::Name
        }
    }

    /// The price the soda table shows for `name`: the last price listed
    /// for it, or zero.
    pub fn price_for(prices: &[(String, u64)], name: &str) -> (price: u64)
        ensures
            price == shown_price(prices.deep_view(), name@),
    {
        let target = String::from_str(name);
        let mut i = prices.len();
        assert(prices.deep_view().take(i as int) =~= prices.deep_view());
        while i > 0
            invariant
                i <= prices@.len(),
                target@ == name@,
                shown_price(prices.deep_view(), name@) == shown_price(
                    prices.deep_view().take(i as int),
                    name@,
                ),
            decreases i,
        {
            let ghost shown = prices.deep_view();
            proof {
                assert(shown.take(i as int).drop_last() =~= shown.take(i - 1));
                assert(shown.take(i as int).last() == shown[i - 1]);
            }
            if prices[i - 1].0 == target {
                return prices[i - 1].1;
            }
            i = i - 1;
        }
        0
    }

    /// One row of the soda table.
    pub fn soda_row(name: &str, price: u64, quantity: u32) -> (row: String)
        ensures
            row@ == soda_row_text(name@, price, quantity),
    {
        let mut row = String::new();
        push_left_aligned(&mut row, name, 15);
        row.append(" $");
        let amount = crate::text::format_dollars(price);
        push_left_aligned(&mut row, amount.as_str(), 9);
        row.append(" ");
        let status = if quantity > 0 {
            "In Stock"
        } else {
            "Out of Stock"
        };
        push_left_aligned(&mut row, status, 10);
        assert(row@ =~= soda_row_text(name@, price, quantity));
        row
    }

    /// One row of the transaction table; `number` counts from 1.
    pub fn transaction_row(number: usize, tx: &Transaction) -> (row: String)
        ensures
            row@ == transaction_row_text(
                number as nat,
                tx.soda@,
                tx.price,
                tx.money_inserted,
                tx.change,
            ),
    {
        let mut row = String::new();
        let mut num = String::new();
        push_decimal(&mut num, number as u64);
        push_left_aligned(&mut row, num.as_str(), 4);
        row.append(" ");
        push_left_aligned(&mut row, tx.soda.as_str(), 15);
        row.append(" $");
        let price = crate::text::format_dollars(tx.price);
        push_left_aligned(&mut row, price.as_str(), 9);
        row.append(" $");
        let paid = crate::text::format_dollars(tx.money_inserted);
        push_left_aligned(&mut row, paid.as_str(), 9);
        row.append(" $");
        let change = crate::text::format_dollars(tx.change);
        push_left_aligned(&mut row, change.as_str(), 9);
        assert(row@ =~= transaction_row_text(
            number as nat,
            tx.soda@,
            tx.price,
            tx.money_inserted,
            tx.change,
        ));
        row
    }

    /// A numbered entry of a list: `number. label`.
    pub fn numbered_line(number: usize, label: &str) -> (line: String)
        ensures
            line@ == decimal(number as nat) + ". "@ + label@,
    {
        let mut line = String::new();
        push_decimal(&mut line, number as u64);
        line.append(". ");
        line.append(label);
        assert(line@ =~= decimal(number as nat) + ". "@ + label@);
        line
    }

    /// A numbered entry of the restock list: `number. name (Current: n)`.
    pub fn restock_line(number: usize, name: &str, quantity: u32) -> (line: String)
        ensures
            line@ == decimal(number as nat) + ". "@ + name@ + " (Current: "@ + decimal(
                quantity as nat,
            ) + ")"@,
    {
        let mut line = String::new();
        push_decimal(&mut line, number as u64);
        line.append(". ");
        line.append(name);
        line.append(" (Current: ");
        push_decimal(&mut line, quantity as u64);
        line.append(")");
        assert(line@ =~= decimal(number as nat) + ". "@ + name@ + " (Current: "@ + decimal(
            quantity as nat,
        ) + ")"@);
        line
    }
}

} // verus!
