use soda_machine::controller::{AdminAction, MainAction, SodaController};
use soda_machine::model::SodaModel;
use soda_machine::prompts::{
    ChoiceNext, DollarsEntry, MoneyNext, NewSodaNext, NewSodaPrompt, RestockNext, RestockPrompt,
};
use soda_machine::view::SodaView;

fn text(n: Option<String>) -> String {
    n.expect("a notice")
}

#[test]
fn menus_at_end_of_input() {
    let (action, notice) = SodaController::main_menu_reply(None);
    assert_eq!(action, MainAction::Exit);
    assert_eq!(text(notice), "\nInput error detected. Exiting program.");
    assert_eq!(SodaController::main_menu_reply(Some("3")), (MainAction::Purchase, None));
    let (action, notice) = SodaController::admin_menu_reply(None);
    assert_eq!(action, AdminAction::Back);
    assert_eq!(text(notice), "\nInput error detected. Returning to main menu.");
    assert_eq!(SodaController::admin_menu_reply(Some("x")), (AdminAction::Invalid, None));
}

#[test]
fn purchase_needs_money_first() {
    let mut c = SodaController::new(SodaModel::new(), SodaView::new());
    assert_eq!(c.purchase_refusal(), Some("Please insert money first.".to_string()));
    c.insert_money(1);
    assert_eq!(c.purchase_refusal(), None);
}

#[test]
fn money_prompt_answers() {
    let (next, notice) = SodaView::money_reply(DollarsEntry::EndOfInput);
    assert_eq!(next, MoneyNext::Insert(Some(100)));
    assert_eq!(text(notice), "\nInput error detected. Using default value of $1.00");
    assert_eq!(SodaView::money_reply(DollarsEntry::Positive(Some(250))), (MoneyNext::Insert(Some(250)), None));
    assert_eq!(SodaView::money_reply(DollarsEntry::Positive(None)), (MoneyNext::Insert(None), None));
    let (next, notice) = SodaView::money_reply(DollarsEntry::NotPositive);
    assert_eq!(next, MoneyNext::AskAgain);
    assert_eq!(text(notice), "Please enter a positive amount.");
    let (next, notice) = SodaView::money_reply(DollarsEntry::NotANumber);
    assert_eq!(next, MoneyNext::AskAgain);
    assert_eq!(text(notice), "Invalid input. Please enter a valid number.");
}

#[test]
fn amount_without_cents_is_refused() {
    let mut c = SodaController::new(SodaModel::new(), SodaView::new());
    assert_eq!(c.insert_amount(None), "Error: Amount must be a finite, non-negative number");
    assert_eq!(c.money_inserted(), 0);
    assert_eq!(c.insert_amount(Some(300)), "Money inserted. Total: $3.00");
}

#[test]
fn soda_choice_answers() {
    assert_eq!(
        SodaView::soda_choice_opening(0),
        Some("\nSorry, no sodas are currently available.".to_string())
    );
    assert_eq!(SodaView::soda_choice_opening(2), None);
    let (next, notice) = SodaView::soda_choice_reply(None, 2);
    assert_eq!(next, ChoiceNext::Cancelled);
    assert_eq!(text(notice), "\nInput error detected. Cancelling selection.");
    assert_eq!(SodaView::soda_choice_reply(Some("2"), 2), (ChoiceNext::Chosen(1), None));
    assert_eq!(SodaView::soda_choice_reply(Some("3"), 2), (ChoiceNext::Cancelled, None));
    let (next, notice) = SodaView::soda_choice_reply(Some("7"), 2);
    assert_eq!(next, ChoiceNext::AskAgain);
    assert_eq!(text(notice), "Invalid choice. Please try again.");
    let (next, notice) = SodaView::soda_choice_reply(Some("x"), 2);
    assert_eq!(next, ChoiceNext::AskAgain);
    assert_eq!(text(notice), "Invalid input. Please enter a number.");
}

#[test]
fn restock_conversation() {
    let choose = RestockPrompt::ChooseSoda;
    assert_eq!(
        SodaView::restock_reply(choose, Some("2"), 5),
        (RestockNext::Ask(RestockPrompt::EnterQuantity(1)), None)
    );
    assert_eq!(SodaView::restock_reply(choose, Some("6"), 5), (RestockNext::Finish(None, None), None));
    let (next, notice) = SodaView::restock_reply(choose, None, 5);
    assert_eq!(next, RestockNext::Finish(None, None));
    assert_eq!(text(notice), "\nInput error detected. Cancelling restock.");
    let quantity = RestockPrompt::EnterQuantity(1);
    assert_eq!(
        SodaView::restock_reply(quantity, Some("4"), 5),
        (RestockNext::Finish(Some(1), Some(4)), None)
    );
    let (next, notice) = SodaView::restock_reply(quantity, None, 5);
    assert_eq!(next, RestockNext::Finish(Some(1), Some(10)));
    assert_eq!(text(notice), "\nInput error detected. Using default quantity of 10.");
    // A refused quantity goes back to the choice of soda.
    let (next, notice) = SodaView::restock_reply(quantity, Some("-4"), 5);
    assert_eq!(next, RestockNext::Ask(RestockPrompt::ChooseSoda));
    assert_eq!(text(notice), "Quantity cannot be negative. Please try again.");
    let (next, notice) = SodaView::restock_reply(quantity, Some("many"), 5);
    assert_eq!(next, RestockNext::Ask(RestockPrompt::ChooseSoda));
    assert_eq!(text(notice), "Invalid input. Please enter a number.");
}

#[test]
fn new_soda_conversation() {
    let (next, notice) = SodaView::new_soda_name_reply(None);
    assert_eq!(next, NewSodaNext::Finish(None, None, None));
    assert_eq!(text(notice), "\nInput error detected. Cancelling add new soda.");
    assert_eq!(SodaView::new_soda_name_reply(Some("CANCEL")), (NewSodaNext::Finish(None, None, None), None));
    let (next, notice) = SodaView::new_soda_name_reply(Some(""));
    assert_eq!(next, NewSodaNext::Finish(None, None, None));
    assert_eq!(text(notice), "Soda name cannot be empty.");
    assert_eq!(
        SodaView::new_soda_name_reply(Some("Tonic")),
        (NewSodaNext::Ask(NewSodaPrompt::EnterPrice("Tonic".to_string())), None)
    );

    let (next, notice) = SodaView::new_soda_price_reply("Tonic".to_string(), DollarsEntry::EndOfInput);
    assert_eq!(next, NewSodaNext::Ask(NewSodaPrompt::EnterQuantity("Tonic".to_string(), 150)));
    assert_eq!(text(notice), "\nInput error detected. Using default price of $1.50");
    assert_eq!(
        SodaView::new_soda_price_reply("Tonic".to_string(), DollarsEntry::Positive(None)),
        (NewSodaNext::Ask(NewSodaPrompt::EnterQuantity("Tonic".to_string(), 0)), None)
    );
    let (next, notice) = SodaView::new_soda_price_reply("Tonic".to_string(), DollarsEntry::NotPositive);
    assert_eq!(next, NewSodaNext::Ask(NewSodaPrompt::EnterPrice("Tonic".to_string())));
    assert_eq!(text(notice), "Price must be positive. Please try again.");

    let (next, notice) = SodaView::new_soda_quantity_reply("Tonic".to_string(), 180, None);
    assert_eq!(next, NewSodaNext::Finish(Some("Tonic".to_string()), Some(180), Some(10)));
    assert_eq!(text(notice), "\nInput error detected. Using default quantity of 10");
    assert_eq!(
        SodaView::new_soda_quantity_reply("Tonic".to_string(), 180, Some("3")),
        (NewSodaNext::Finish(Some("Tonic".to_string()), Some(180), Some(3)), None)
    );
    let (next, notice) = SodaView::new_soda_quantity_reply("Tonic".to_string(), 180, Some("-3"));
    assert_eq!(next, NewSodaNext::Ask(NewSodaPrompt::EnterQuantity("Tonic".to_string(), 180)));
    assert_eq!(text(notice), "Quantity cannot be negative. Please try again.");
}

#[test]
fn adding_sodas_keeps_each_listed_once() {
    let mut model = SodaModel::new();
    assert!(model.add_new_soda("Tonic", 180, 2).is_ok());
    assert!(model.add_new_soda(" Tonic", 180, 2).is_err());
    assert!(model.add_new_soda("Fizz", 90, 0).is_ok());
    let names: Vec<String> = model.get_inventory().into_iter().map(|(n, _)| n).collect();
    assert_eq!(names.len(), 7);
    let mut sorted = names.clone();
    sorted.sort();
    sorted.dedup();
    assert_eq!(sorted.len(), 7);
    assert_eq!(model.inventory.len(), 7);
    assert_eq!(model.prices.len(), 7);
}

#[test]
fn zero_cent_price_is_refused_by_the_controller() {
    let mut c = SodaController::new(SodaModel::new(), SodaView::new());
    assert_eq!(
        c.add_new_soda(Some("Weird"), Some(0), Some(1)),
        "Error: Price must be positive"
    );
    assert_eq!(c.restock_choices().len(), 5);
}

#[test]
fn available_sodas_are_the_stocked_inventory_entries() {
    let mut model = SodaModel::new();
    model.inventory.insert("Root Beer".to_string(), 0);
    model.add_new_soda("Fizz", 90, 0).unwrap();
    model.add_new_soda("Tonic", 180, 2).unwrap();
    let expected: Vec<String> = model
        .get_inventory()
        .into_iter()
        .filter(|(_, q)| *q > 0)
        .map(|(s, _)| s)
        .collect();
    assert_eq!(model.get_available_sodas(), expected);
    assert_eq!(expected.len(), 5);
}
