//! The conversations of the terminal: for each prompt, what an answer (or
//! the end of input, `None`) leads to next and what the user is told.
//! Reading and printing happen outside this library; every decision on an
//! answer is made here.
use vstd::prelude::*;
use vstd::string::*;

use crate::controller::{admin_action, main_action, AdminAction, MainAction, SodaController};
use crate::view::{
    list_pick, name_input, quantity_input, MenuPick, NameInput, QuantityInput, SodaView,
};

verus! {

broadcast use vstd::string::group_string_axioms;

/// `notice` is the message `text`.
pub open spec fn says(notice: Option<String>, text: Seq<char>) -> bool {
    notice matches Some(s) && s@ == text
}

/// A dollar amount as typed at a money or price prompt, read by the
/// terminal: the amount itself is floating point and is rounded to whole
/// cents before it gets here.
#[derive(Debug, Clone, Copy, PartialEq, Eq)]
pub enum DollarsEntry {
    /// Input ended before an answer.
    EndOfInput,
    /// A number above zero: its count of whole cents, or `None` for an
    /// amount that has none (not finite, or beyond `i64`).
    Positive(Option<i64>),
    /// A number of zero or below.
    NotPositive,
    /// Not a number.
    NotANumber,
}

/// What a choice at a numbered list leads to.
#[derive(Debug, Clone, Copy, PartialEq, Eq)]
pub enum ChoiceNext {
    /// The entry at this zero-based index is chosen.
    Chosen(usize),
    /// The list is left without a choice.
    Cancelled,
    /// The list is asked again.
    AskAgain,
}

/// What an answer at a money prompt leads to.
#[derive(Debug, Clone, Copy, PartialEq, Eq)]
pub enum MoneyNext {
    /// Insert this many cents; `None` for an amount with no cent count,
    /// which the machine refuses.
    Insert(Option<i64>),
    /// The prompt is asked again.
    AskAgain,
}

/// Where the restock conversation stands.
#[derive(Debug, Clone, Copy, PartialEq, Eq)]
pub enum RestockPrompt {
    /// Asking which soda to restock.
    ChooseSoda,
    /// Asking how many cans to add to the soda at this index.
    EnterQuantity(usize),
}

/// What an answer in the restock conversation leads to.
#[derive(Debug, Clone, Copy, PartialEq, Eq)]
pub enum RestockNext {
    /// The next question.
    Ask(RestockPrompt),
    /// The conversation is over: the soda's index and the cans to add, or
    /// `None` for either when the restock was cancelled.
    Finish(Option<usize>, Option<u32>),
}

/// Where the new-soda conversation stands.
#[derive(Debug, Clone, PartialEq)]
pub enum NewSodaPrompt {
    /// Asking for the name.
    EnterName,
    /// Asking for the price of the soda of this name.
    EnterPrice(String),
    /// Asking for the initial stock of the soda of this name and price in
    /// cents.
    EnterQuantity(String, i64),
}

/// What an answer in the new-soda conversation leads to.
#[derive(Debug, Clone, PartialEq)]
pub enum NewSodaNext {
    /// The next question.
    Ask(NewSodaPrompt),
    /// The conversation is over: name, price in cents and stock, all `None`
    /// when the addition was cancelled.
    Finish(Option<String>, Option<i64>, Option<u32>),
}

fn notice(text: &str) -> (n: Option<String>)
    ensures
        says(n, text@),
{
    Some(String::from_str(text))
}

impl SodaController {
    /// The main-menu answer: end of input means exit, with a notice.
    pub fn main_menu_reply(line: Option<&str>) -> (r: (MainAction, Option<String>))
        ensures
            match line {
                None => r.0 == MainAction::Exit && says(
                    r.1,
                    "\nInput error detected. Exiting program."@,
                ),
                Some(l) => r.0 == main_action(l@) && r.1 is None,
            },
    {
        match line {
            None => (MainAction::Exit, notice("\nInput error detected. Exiting program.")),
            Some(l) => (SodaController::main_menu_action(l), None),
        }
    }

    /// The admin-menu answer: end of input means back to the main menu,
    /// with a notice.
    pub fn admin_menu_reply(line: Option<&str>) -> (r: (AdminAction, Option<String>))
        ensures
            match line {
                None => r.0 == AdminAction::Back && says(
                    r.1,
                    "\nInput error detected. Returning to main menu."@,
                ),
                Some(l) => r.0 == admin_action(l@) && r.1 is None,
            },
    {
        match line {
            None => (AdminAction::Back, notice("\nInput error detected. Returning to main menu.")),
            Some(l) => (SodaController::admin_menu_action(l), None),
        }
    }

    /// Why a purchase cannot start: only with money in the slot may one.
    pub fn purchase_refusal(&self) -> (r: Option<String>)
        ensures
            self@.money == 0 ==> says(r, "Please insert money first."@),
            self@.money > 0 ==> r is None,
    {
        if self.can_purchase() {
            None
        } else {
            notice("Please insert money first.")
        }
    }
}

impl SodaView {
    /// The answer at the money prompt. End of input inserts one dollar,
    /// with a notice; an amount that is not above zero, or not a number,
    /// asks again.
    pub fn money_reply(entry: DollarsEntry) -> (r: (MoneyNext, Option<String>))
        ensures
            match entry {
                DollarsEntry::EndOfInput => r.0 == MoneyNext::Insert(Some(100)) && says(
                    r.1,
                    "\nInput error detected. Using default value of $1.00"@,
                ),
                DollarsEntry::Positive(cents) => r.0 == MoneyNext::Insert(cents) && r.1 is None,
                DollarsEntry::NotPositive => r.0 == MoneyNext::AskAgain && says(
                    r.1,
                    "Please enter a positive amount."@,
                ),
                DollarsEntry::NotANumber => r.0 == MoneyNext::AskAgain && says(
                    r.1,
                    "Invalid input. Please enter a valid number."@,
                ),
            },
    {
        match entry {
            DollarsEntry::EndOfInput => (
                MoneyNext::Insert(Some(100)),
                notice("\nInput error detected. Using default value of $1.00"),
            ),
            DollarsEntry::Positive(cents) => (MoneyNext::Insert(cents), None),
            DollarsEntry::NotPositive => (
                MoneyNext::AskAgain,
                notice("Please enter a positive amount."),
            ),
            DollarsEntry::NotANumber => (
                MoneyNext::AskAgain,
                notice("Invalid input. Please enter a valid number."),
            ),
        }
    }

    /// Before the soda list: with nothing available the purchase ends at
    /// once, with a notice.
    pub fn soda_choice_opening(count: usize) -> (r: Option<String>)
        ensures
            count == 0 ==> says(r, "\nSorry, no sodas are currently available."@),
            count > 0 ==> r is None,
    {
        if count == 0 {
            notice("\nSorry, no sodas are currently available.")
        } else {
            None
        }
    }

    /// The answer at the list of `count` sodas to buy, followed by Cancel.
    pub fn soda_choice_reply(line: Option<&str>, count: usize) -> (r: (ChoiceNext, Option<String>))
        requires
            count < usize::MAX,
        ensures
            match line {
                None => r.0 == ChoiceNext::Cancelled && says(
                    r.1,
                    "\nInput error detected. Cancelling selection."@,
                ),
                Some(l) => match list_pick(l@, count as nat) {
                    MenuPick::Item(i) => r.0 == ChoiceNext::Chosen(i) && r.1 is None,
                    MenuPick::Cancel => r.0 == ChoiceNext::Cancelled && r.1 is None,
                    MenuPick::OutOfRange => r.0 == ChoiceNext::AskAgain && says(
                        r.1,
                        "Invalid choice. Please try again."@,
                    ),
                    MenuPick::NotANumber => r.0 == ChoiceNext::AskAgain && says(
                        r.1,
                        "Invalid input. Please enter a number."@,
                    ),
                },
            },
    {
        match line {
            None => (
                ChoiceNext::Cancelled,
                notice("\nInput error detected. Cancelling selection."),
            ),
            Some(l) => match SodaView::pick_from_list(l, count) {
                MenuPick::Item(i) => (ChoiceNext::Chosen(i), None),
                MenuPick::Cancel => (ChoiceNext::Cancelled, None),
                MenuPick::OutOfRange => (
                    ChoiceNext::AskAgain,
                    notice("Invalid choice. Please try again."),
                ),
                MenuPick::NotANumber => (
                    ChoiceNext::AskAgain,
                    notice("Invalid input. Please enter a number."),
                ),
            },
        }
    }

    /// The answer in the restock conversation over a list of `count`
    /// sodas. A refused quantity goes back to the choice of soda; end of
    /// input cancels the choice, or adds ten cans once a soda is chosen.
    pub fn restock_reply(prompt: RestockPrompt, line: Option<&str>, count: usize) -> (r: (
        RestockNext,
        Option<String>,
    ))
        requires
            count < usize::MAX,
        ensures
            match prompt {
                RestockPrompt::ChooseSoda => match line {
                    None => r.0 == RestockNext::Finish(None, None) && says(
                        r.1,
                        "\nInput error detected. Cancelling restock."@,
                    ),
                    Some(l) => match list_pick(l@, count as nat) {
                        MenuPick::Item(i) => r.0 == RestockNext::Ask(
                            RestockPrompt::EnterQuantity(i),
                        ) && r.1 is None,
                        MenuPick::Cancel => r.0 == RestockNext::Finish(None, None) && r.1 is None,
                        MenuPick::OutOfRange => r.0 == RestockNext::Ask(RestockPrompt::ChooseSoda)
                            && says(r.1, "Invalid choice. Please try again."@),
                        MenuPick::NotANumber => r.0 == RestockNext::Ask(RestockPrompt::ChooseSoda)
                            && says(r.1, "Invalid input. Please enter a number."@),
                    },
                },
                RestockPrompt::EnterQuantity(i) => match line {
                    None => r.0 == RestockNext::Finish(Some(i), Some(10)) && says(
                        r.1,
                        "\nInput error detected. Using default quantity of 10."@,
                    ),
                    Some(l) => match quantity_input(l@) {
                        QuantityInput::Quantity(q) => r.0 == RestockNext::Finish(Some(i), Some(q))
                            && r.1 is None,
                        QuantityInput::Negative => r.0 == RestockNext::Ask(RestockPrompt::ChooseSoda)
                            && says(r.1, "Quantity cannot be negative. Please try again."@),
                        QuantityInput::NotANumber => r.0 == RestockNext::Ask(
                            RestockPrompt::ChooseSoda,
                        ) && says(r.1, "Invalid input. Please enter a number."@),
                    },
                },
            },
    {
        match prompt {
            RestockPrompt::ChooseSoda => match line {
                None => (
                    RestockNext::Finish(None, None),
                    notice("\nInput error detected. Cancelling restock."),
                ),
                Some(l) => match SodaView::pick_from_list(l, count) {
                    MenuPick::Item(i) => (RestockNext::Ask(RestockPrompt::EnterQuantity(i)), None),
                    MenuPick::Cancel => (RestockNext::Finish(None, None), None),
                    MenuPick::OutOfRange => (
                        RestockNext::Ask(RestockPrompt::ChooseSoda),
                        notice("Invalid choice. Please try again."),
                    ),
                    MenuPick::NotANumber => (
                        RestockNext::Ask(RestockPrompt::ChooseSoda),
                        notice("Invalid input. Please enter a number."),
                    ),
                },
            },
            RestockPrompt::EnterQuantity(i) => match line {
                None => (
                    RestockNext::Finish(Some(i), Some(10)),
                    notice("\nInput error detected. Using default quantity of 10."),
                ),
                Some(l) => match SodaView::read_quantity(l) {
                    QuantityInput::Quantity(q) => (RestockNext::Finish(Some(i), Some(q)), None),
                    QuantityInput::Negative => (
                        RestockNext::Ask(RestockPrompt::ChooseSoda),
                        notice("Quantity cannot be negative. Please try again."),
                    ),
                    QuantityInput::NotANumber => (
                        RestockNext::Ask(RestockPrompt::ChooseSoda),
                        notice("Invalid input. Please enter a number."),
                    ),
                },
            },
        }
    }

    /// The answer at the new soda's name: end of input, `cancel` or an
    /// empty name end the conversation; any other name asks for a price.
    pub fn new_soda_name_reply(line: Option<&str>) -> (r: (NewSodaNext, Option<String>))
        ensures
            match line {
                None => r.0 == NewSodaNext::Finish(None, None, None) && says(
                    r.1,
                    "\nInput error detected. Cancelling add new soda."@,
                ),
                Some(l) => match name_input(l@) {
                    NameInput::Cancel => r.0 == NewSodaNext::Finish(None, None, None) && r.1 is None,
                    NameInput::Empty => r.0 == NewSodaNext::Finish(None, None, None) && says(
                        r.1,
                        "Soda name cannot be empty."@,
                    ),
                    NameInput::Name => (r.0 matches NewSodaNext::Ask(NewSodaPrompt::EnterPrice(n))
                        && n@ == l@) && r.1 is None,
                },
            },
    {
        match line {
            None => (
                NewSodaNext::Finish(None, None, None),
                notice("\nInput error detected. Cancelling add new soda."),
            ),
            Some(l) => match SodaView::read_soda_name(l) {
                NameInput::Cancel => (NewSodaNext::Finish(None, None, None), None),
                NameInput::Empty => (
                    NewSodaNext::Finish(None, None, None),
                    notice("Soda name cannot be empty."),
                ),
                NameInput::Name => (
                    NewSodaNext::Ask(NewSodaPrompt::EnterPrice(String::from_str(l))),
                    None,
                ),
            },
        }
    }

    /// The answer at the price of the soda `name`. End of input takes the
    /// default of $1.50, with a notice; a positive amount with no cent
    /// count is entered as 0 cents, which the machine refuses as it
    /// refuses any price that is not positive; an amount not above zero,
    /// or not a number, asks again.
    pub fn new_soda_price_reply(name: String, entry: DollarsEntry) -> (r: (
        NewSodaNext,
        Option<String>,
    ))
        ensures
            match entry {
                DollarsEntry::EndOfInput => (r.0 matches NewSodaNext::Ask(
                    NewSodaPrompt::EnterQuantity(n, p),
                ) && n@ == name@ && p == 150) && says(
                    r.1,
                    "\nInput error detected. Using default price of $1.50"@,
                ),
                DollarsEntry::Positive(cents) => (r.0 matches NewSodaNext::Ask(
                    NewSodaPrompt::EnterQuantity(n, p),
                ) && n@ == name@ && p == match cents {
                    Some(c) => c,
                    None => 0,
                }) && r.1 is None,
                DollarsEntry::NotPositive => (r.0 matches NewSodaNext::Ask(
                    NewSodaPrompt::EnterPrice(n),
                ) && n@ == name@) && says(r.1, "Price must be positive. Please try again."@),
                DollarsEntry::NotANumber => (r.0 matches NewSodaNext::Ask(
                    NewSodaPrompt::EnterPrice(n),
                ) && n@ == name@) && says(r.1, "Invalid input. Please enter a valid number."@),
            },
    {
        match entry {
            DollarsEntry::EndOfInput => (
                NewSodaNext::Ask(NewSodaPrompt::EnterQuantity(name, 150)),
                notice("\nInput error detected. Using default price of $1.50"),
            ),
            DollarsEntry::Positive(cents) => {
                let price = match cents {
                    Some(c) => c,
                    None => 0,
                };
                (NewSodaNext::Ask(NewSodaPrompt::EnterQuantity(name, price)), None)
            },
            DollarsEntry::NotPositive => (
                NewSodaNext::Ask(NewSodaPrompt::EnterPrice(name)),
                notice("Price must be positive. Please try again."),
            ),
            DollarsEntry::NotANumber => (
                NewSodaNext::Ask(NewSodaPrompt::EnterPrice(name)),
                notice("Invalid input. Please enter a valid number."),
            ),
        }
    }

    /// The answer at the new soda's initial stock. End of input takes ten
    /// cans, with a notice; a refused quantity asks again.
    pub fn new_soda_quantity_reply(name: String, price: i64, line: Option<&str>) -> (r: (
        NewSodaNext,
        Option<String>,
    ))
        ensures
            match line {
                None => (r.0 matches NewSodaNext::Finish(Some(n), Some(p), Some(q)) && n@ == name@
                    && p == price && q == 10) && says(
                    r.1,
                    "\nInput error detected. Using default quantity of 10"@,
                ),
                Some(l) => match quantity_input(l@) {
                    QuantityInput::Quantity(q0) => (r.0 matches NewSodaNext::Finish(
                        Some(n),
                        Some(p),
                        Some(q),
                    ) && n@ == name@ && p == price && q == q0) && r.1 is None,
                    QuantityInput::Negative => (r.0 matches NewSodaNext::Ask(
                        NewSodaPrompt::EnterQuantity(n, p),
                    ) && n@ == name@ && p == price) && says(
                        r.1,
                        "Quantity cannot be negative. Please try again."@,
                    ),
                    QuantityInput::NotANumber => (r.0 matches NewSodaNext::Ask(
                        NewSodaPrompt::EnterQuantity(n, p),
                    ) && n@ == name@ && p == price) && says(
                        r.1,
                        "Invalid input. Please enter a number."@,
                    ),
                },
            },
    {
        match line {
            None => (
                NewSodaNext::Finish(Some(name), Some(price), Some(10)),
                notice("\nInput error detected. Using default quantity of 10"),
            ),
            Some(l) => match SodaView::read_quantity(l) {
                QuantityInput::Quantity(q) => (
                    NewSodaNext::Finish(Some(name), Some(price), Some(q)),
                    None,
                ),
                QuantityInput::Negative => (
                    NewSodaNext::Ask(NewSodaPrompt::EnterQuantity(name, price)),
                    notice("Quantity cannot be negative. Please try again."),
                ),
                QuantityInput::NotANumber => (
                    NewSodaNext::Ask(NewSodaPrompt::EnterQuantity(name, price)),
                    notice("Invalid input. Please enter a number."),
                ),
            },
        }
    }
}

} // verus!
