//! # Controller — application flow
//!
//! The controller is the traffic cop: it reads what the user chose, tells
//! the model to do the work, and words the answer the view shows. The
//! loop that asks and prints lives with the program's entry point; every
//! decision of that loop is made here.
use vstd::prelude::*;
use vstd::string::*;

use crate::model::{
    error_message,
    ErrorView,
    ModelState,
    PurchaseResult,
    SodaModel,
    Transaction,
};
use crate::text::{
    decimal,
    dollars_text,
    eq_ignore_ascii_case,
    equal_ignoring_ascii_case,
    push_decimal,
    push_dollars,
    same_text,
};
use crate::view::SodaView;

verus! {

broadcast use vstd::string::group_string_axioms;

/// What a choice typed at the main menu asks for.
#[derive(Debug, Clone, Copy, PartialEq, Eq)]
pub enum MainAction {
    ShowSodas,
    InsertMoney,
    Purchase,
    ReturnMoney,
    Exit,
    /// The hidden admin door: `admin` in any ASCII case.
    Admin,
    Invalid,
}

/// What a choice typed at the admin menu asks for.
#[derive(Debug, Clone, Copy, PartialEq, Eq)]
pub enum AdminAction {
    Restock,
    AddSoda,
    ShowHistory,
    Back,
    Invalid,
}

/// What the view shows after a purchase attempt.
#[derive(Debug, Clone, PartialEq)]
pub enum PurchaseReply {
    /// A plain message.
    Notice(String),
    /// The model's answer to the purchase.
    Outcome(PurchaseResult),
}

/// The action a main-menu choice selects.
pub open spec fn main_action(choice: Seq<char>) -> MainAction {
    if choice == "1"@ {
        MainAction::ShowSodas
    } else if choice == "2"@ {
        MainAction::InsertMoney
    } else if choice == "3"@ {
        MainAction::Purchase
    } else if choice == "4"@ {
        MainAction::ReturnMoney
    } else if choice == "5"@ {
        MainAction::Exit
    } else if equal_ignoring_ascii_case(choice, "admin"@) {
        MainAction::Admin
    } else {
        MainAction::Invalid
    }
}

/// The action an admin-menu choice selects.
pub open spec fn admin_action(choice: Seq<char>) -> AdminAction {
    if choice == "1"@ {
        AdminAction::Restock
    } else if choice == "2"@ {
        AdminAction::AddSoda
    } else if choice == "3"@ {
        AdminAction::ShowHistory
    } else if choice == "4"@ {
        AdminAction::Back
    } else {
        AdminAction::Invalid
    }
}

/// The message shown for a model error.
pub open spec fn error_notice(e: ErrorView) -> Seq<char> {
    "Error: "@ + error_message(e)
}

/// The message shown after money is inserted.
pub open spec fn insert_notice(r: Result<u64, ErrorView>) -> Seq<char> {
    match r {
        Ok(total) => "Money inserted. Total: $"@ + dollars_text(total as nat),
        Err(e) => error_notice(e),
    }
}

/// The message shown after the return button.
pub open spec fn return_notice(returned: u64) -> Seq<char> {
    if returned > 0 {
        "Money returned: $"@ + dollars_text(returned as nat)
    } else {
        "No money to return."@
    }
}

/// The message shown after a restock.
pub open spec fn restock_notice(name: Seq<char>, r: Result<u32, ErrorView>) -> Seq<char> {
    match r {
        Ok(quantity) => name + " restocked. New quantity: "@ + decimal(quantity as nat),
        Err(e) => error_notice(e),
    }
}

/// The message shown after a new soda is offered.
pub open spec fn add_notice(name: Seq<char>, r: Result<(), ErrorView>) -> Seq<char> {
    match r {
        Ok(_) => "New soda '"@ + name + "' added successfully."@,
        Err(e) => error_notice(e),
    }
}

/// Connects model and view and decides what each menu choice does.
pub struct SodaController {
    model: SodaModel,
    view: SodaView,
}

impl View for SodaController {
    type V = ModelState;

    closed spec fn view(&self) -> ModelState {
        self.model@
    }
}

fn error_text(e: &crate::model::ModelError) -> (s: String)
    ensures
        s@ == error_notice(e@),
{
    let mut s = String::from_str("Error: ");
    let m = e.message();
    s.append(m.as_str());
    s
}

impl SodaController {
    /// Take ownership of a model and a view.
    pub fn new(model: SodaModel, view: SodaView) -> (c: Self)
        ensures
            c@ == model@,
    {
        Self { model, view }
    }

    /// The model the controller drives.
    pub fn model(&self) -> (m: &SodaModel)
        ensures
            m@ == self@,
    {
        &self.model
    }

    /// The view the controller drives.
    pub fn soda_view(&self) -> (v: &SodaView)
        ensures
            *v == SodaView,
    {
        &self.view
    }

    /// The action a main-menu choice selects.
    pub fn main_menu_action(choice: &str) -> (action: MainAction)
        ensures
            action == main_action(choice@),
    {
        if same_text(choice, "1") {
            MainAction::ShowSodas
        } else if same_text(choice, "2") {
            MainAction::InsertMoney
        } else if same_text(choice, "3") {
            MainAction::Purchase
        } else if same_text(choice, "4") {
            MainAction::ReturnMoney
        } else if same_text(choice, "5") {
            MainAction::Exit
        } else if eq_ignore_ascii_case(choice, "admin") {
            MainAction::Admin
        } else {
            MainAction::Invalid
        }
    }

    /// The action an admin-menu choice selects.
    pub fn admin_menu_action(choice: &str) -> (action: AdminAction)
        ensures
            action == admin_action(choice@),
    {
        if same_text(choice, "1") {
            AdminAction::Restock
        } else if same_text(choice, "2") {
            AdminAction::AddSoda
        } else if same_text(choice, "3") {
            AdminAction::ShowHistory
        } else if same_text(choice, "4") {
            AdminAction::Back
        } else {
            AdminAction::Invalid
        }
    }

    /// The two snapshots the soda table is drawn from: stock and prices.
    pub fn available_sodas_table(&self) -> (table: (Vec<(String, u32)>, Vec<(String, u64)>))
        ensures
            table.0.deep_view() == self@.inventory_listing(),
            table.1.deep_view() == self@.price_listing(),
    {
        (self.model.get_inventory(), self.model.get_prices())
    }

    /// Cents currently in the coin slot.
    pub fn money_inserted(&self) -> (cents: u64)
        ensures
            cents == self@.money,
    {
        self.model.money_in_slot()
    }

    /// Insert `amount` cents and word the answer.
    pub fn insert_money(&mut self, amount: i64) -> (notice: String)
        ensures
            final(self)@ == old(self)@.insert_money(amount as int).0,
            notice@ == insert_notice(old(self)@.insert_money(amount as int).1),
    {
        match self.model.insert_money(amount) {
            Ok(total) => {
                let mut s = String::from_str("Money inserted. Total: $");
                push_dollars(&mut s, total);
                s
            },
            Err(e) => error_text(&e),
        }
    }

    /// Insert an amount the terminal read: `None` is an amount with no
    /// count of cents, refused as an invalid amount with nothing changed.
    pub fn insert_amount(&mut self, amount: Option<i64>) -> (notice: String)
        ensures
            match amount {
                Some(a) => {
                    &&& final(self)@ == old(self)@.insert_money(a as int).0
                    &&& notice@ == insert_notice(old(self)@.insert_money(a as int).1)
                },
                None => {
                    &&& final(self)@ == old(self)@
                    &&& notice@ == error_notice(ErrorView::InvalidAmount)
                },
            },
    {
        match amount {
            Some(a) => self.insert_money(a),
            None => error_text(&crate::model::ModelError::InvalidAmount),
        }
    }

    /// Whether a purchase may start: only with money in the slot.
    pub fn can_purchase(&self) -> (ok: bool)
        ensures
            ok == (self@.money > 0),
    {
        self.model.money_in_slot() > 0
    }

    /// The sodas offered for a purchase.
    pub fn purchase_choices(&self) -> (names: Vec<String>)
        ensures
            names.deep_view() == self@.available(),
    {
        self.model.get_available_sodas()
    }

    /// Buy the soda the user picked, or report that the purchase was
    /// cancelled when nothing was picked.
    pub fn purchase_soda(&mut self, choice: Option<&str>) -> (reply: PurchaseReply)
        ensures
            match choice {
                None => {
                    &&& final(self)@ == old(self)@
                    &&& reply matches PurchaseReply::Notice(s) && s@ == "Purchase cancelled."@
                },
                Some(name) => {
                    let (after, r) = old(self)@.purchase(name@);
                    &&& final(self)@ == after
                    &&& match r {
                        Ok(p) => reply matches PurchaseReply::Outcome(q) && q@ == p,
                        Err(e) => reply matches PurchaseReply::Notice(s) && s@ == error_notice(e),
                    }
                },
            },
    {
        match choice {
            None => PurchaseReply::Notice(String::from_str("Purchase cancelled.")),
            Some(name) => match self.model.purchase_soda(name) {
                Ok(result) => PurchaseReply::Outcome(result),
                Err(e) => PurchaseReply::Notice(error_text(&e)),
            },
        }
    }

    /// Empty the coin slot and word the answer.
    pub fn return_money(&mut self) -> (notice: String)
        ensures
            final(self)@ == old(self)@.return_money().0,
            notice@ == return_notice(old(self)@.money),
    {
        let returned = self.model.return_money();
        if returned > 0 {
            let mut s = String::from_str("Money returned: $");
            push_dollars(&mut s, returned);
            s
        } else {
            String::from_str("No money to return.")
        }
    }

    /// Leaving the machine refunds whatever is left in the slot; the
    /// notice of the refund, if there was money to refund.
    pub fn exit_application(&mut self) -> (notice: Option<String>)
        ensures
            final(self)@ == old(self)@.return_money().0,
            old(self)@.money > 0 ==> (notice matches Some(s) && s@ == "Returning money: $"@
                + dollars_text(old(self)@.money as nat)),
            old(self)@.money == 0 ==> notice is None,
    {
        let returned = self.model.return_money();
        if returned > 0 {
            let mut s = String::from_str("Returning money: $");
            push_dollars(&mut s, returned);
            Some(s)
        } else {
            None
        }
    }

    /// The current stock, for the restock screen.
    pub fn restock_choices(&self) -> (listing: Vec<(String, u32)>)
        ensures
            listing.deep_view() == self@.inventory_listing(),
    {
        self.model.get_inventory()
    }

    /// Restock the soda the user picked with the quantity typed, or report
    /// the restock cancelled when either is missing. The quantity is handed
    /// to the model as an `i32`, as the menu reads it.
    pub fn restock_soda(&mut self, name: Option<&str>, quantity: Option<u32>) -> (notice: String)
        ensures
            match (name, quantity) {
                (Some(n), Some(q)) => {
                    let (after, r) = old(self)@.restock(n@, (q as i32) as int);
                    &&& final(self)@ == after
                    &&& notice@ == restock_notice(n@, r)
                },
                _ => {
                    &&& final(self)@ == old(self)@
                    &&& notice@ == "Restock cancelled."@
                },
            },
    {
        match (name, quantity) {
            (Some(n), Some(q)) => match self.model.restock_soda(n, q as i32) {
                Ok(new_quantity) => {
                    let mut s = String::from_str(n);
                    s.append(" restocked. New quantity: ");
                    push_decimal(&mut s, new_quantity as u64);
                    s
                },
                Err(e) => error_text(&e),
            },
            _ => String::from_str("Restock cancelled."),
        }
    }

    /// Add the soda the user described, or report the addition cancelled
    /// when any answer is missing. `price` is in cents.
    pub fn add_new_soda(&mut self, name: Option<&str>, price: Option<i64>, quantity: Option<u32>) -> (notice: String)
        ensures
            match (name, price, quantity) {
                (Some(n), Some(p), Some(q)) => {
                    let (after, r) = old(self)@.add_soda(n@, p as int, q);
                    &&& final(self)@ == after
                    &&& notice@ == add_notice(n@, r)
                },
                _ => {
                    &&& final(self)@ == old(self)@
                    &&& notice@ == "Add new soda cancelled."@
                },
            },
    {
        match (name, price, quantity) {
            (Some(n), Some(p), Some(q)) => match self.model.add_new_soda(n, p, q) {
                Ok(()) => {
                    let mut s = String::from_str("New soda '");
                    s.append(n);
                    s.append("' added successfully.");
                    s
                },
                Err(e) => error_text(&e),
            },
            _ => String::from_str("Add new soda cancelled."),
        }
    }

    /// The purchase log, for the admin screen.
    pub fn transaction_history(&self) -> (log: &[Transaction])
        ensures
            log@.map_values(|t: Transaction| t@) == self@.history,
    {
        self.model.get_transaction_history()
    }
}

} // verus!
