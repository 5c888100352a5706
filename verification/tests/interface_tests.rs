use soda_machine::controller::{AdminAction, MainAction, PurchaseReply, SodaController};
use soda_machine::model::{SodaModel, Transaction};
use soda_machine::text::{
    eq_ignore_ascii_case, format_dollars, parse_i32, parse_usize, same_text, trim,
};
use soda_machine::view::{MenuPick, NameInput, QuantityInput, SodaView};

fn controller() -> SodaController {
    SodaController::new(SodaModel::new(), SodaView::new())
}

#[test]
fn dollars_have_two_decimals() {
    assert_eq!(format_dollars(150), "1.50");
    assert_eq!(format_dollars(5), "0.05");
    assert_eq!(format_dollars(0), "0.00");
    assert_eq!(format_dollars(1200), "12.00");
    assert_eq!(format_dollars(123456789), "1234567.89");
    assert_eq!(format_dollars(u64::MAX), "184467440737095516.15");
}

#[test]
fn trimming_matches_std() {
    for s in ["", "   ", " a ", "\tCola\n", "\u{2003}x y\u{205f}", "abc", "\u{85}z"] {
        assert_eq!(trim(s), s.trim());
    }
}

#[test]
fn ascii_case_and_equality() {
    assert!(eq_ignore_ascii_case("ADMIN", "admin"));
    assert!(eq_ignore_ascii_case("aDmIn", "AdMiN"));
    assert!(!eq_ignore_ascii_case("admin ", "admin"));
    assert!(!eq_ignore_ascii_case("ädmin", "Ädmin"));
    assert!(same_text("Cola", "Cola"));
    assert!(!same_text("Cola", "cola"));
}

#[test]
fn usize_parsing_matches_std() {
    for s in ["", "0", "7", "+7", "-7", "+", "-", "12a", " 1", "007", "18446744073709551615", "18446744073709551616", "99999999999999999999"] {
        assert_eq!(parse_usize(s), s.parse::<usize>().ok(), "input {:?}", s);
    }
}

#[test]
fn i32_parsing_matches_std() {
    for s in ["", "0", "-0", "42", "+42", "-42", "+", "-", "--1", "+-1", "2147483647", "2147483648", "-2147483648", "-2147483649", "4x"] {
        assert_eq!(parse_i32(s), s.parse::<i32>().ok(), "input {:?}", s);
    }
}

#[test]
fn list_choices() {
    assert_eq!(SodaView::pick_from_list("1", 3), MenuPick::Item(0));
    assert_eq!(SodaView::pick_from_list("3", 3), MenuPick::Item(2));
    assert_eq!(SodaView::pick_from_list("4", 3), MenuPick::Cancel);
    assert_eq!(SodaView::pick_from_list("0", 3), MenuPick::OutOfRange);
    assert_eq!(SodaView::pick_from_list("9", 3), MenuPick::OutOfRange);
    assert_eq!(SodaView::pick_from_list("two", 3), MenuPick::NotANumber);
    assert_eq!(SodaView::pick_from_list("-1", 3), MenuPick::NotANumber);
    assert_eq!(SodaView::pick_from_list("1", 0), MenuPick::Cancel);
}

#[test]
fn quantity_answers() {
    assert_eq!(SodaView::read_quantity("12"), QuantityInput::Quantity(12));
    assert_eq!(SodaView::read_quantity("0"), QuantityInput::Quantity(0));
    assert_eq!(SodaView::read_quantity("-3"), QuantityInput::Negative);
    assert_eq!(SodaView::read_quantity("lots"), QuantityInput::NotANumber);
    assert_eq!(SodaView::read_quantity("3000000000"), QuantityInput::NotANumber);
}

#[test]
fn soda_name_answers() {
    assert_eq!(SodaView::read_soda_name("Cancel"), NameInput::Cancel);
    assert_eq!(SodaView::read_soda_name("CANCEL"), NameInput::Cancel);
    assert_eq!(SodaView::read_soda_name(""), NameInput::Empty);
    assert_eq!(SodaView::read_soda_name("Tonic"), NameInput::Name);
}

#[test]
fn table_rows() {
    assert_eq!(
        SodaView::soda_row("Cola", 150, 10),
        format!("{:<15} ${:<9} {:<10}", "Cola", "1.50", "In Stock")
    );
    assert_eq!(
        SodaView::soda_row("A very long soda name", 75, 0),
        "A very long soda name $0.75      Out of Stock"
    );
    let tx = Transaction { soda: "Cola".to_string(), price: 150, money_inserted: 200, change: 50 };
    assert_eq!(
        SodaView::transaction_row(1, &tx),
        format!("{:<4} {:<15} ${:<9} ${:<9} ${:<9}", 1, "Cola", "1.50", "2.00", "0.50")
    );
    assert_eq!(SodaView::numbered_line(3, "Cancel"), "3. Cancel");
    assert_eq!(SodaView::restock_line(2, "Root Beer", 7), "2. Root Beer (Current: 7)");
}

#[test]
fn shown_price_takes_last_listed() {
    let prices = vec![("A".to_string(), 100u64), ("B".to_string(), 200), ("A".to_string(), 300)];
    assert_eq!(SodaView::price_for(&prices, "A"), 300);
    assert_eq!(SodaView::price_for(&prices, "B"), 200);
    assert_eq!(SodaView::price_for(&prices, "C"), 0);
}

#[test]
fn main_menu_choices() {
    assert_eq!(SodaController::main_menu_action("1"), MainAction::ShowSodas);
    assert_eq!(SodaController::main_menu_action("2"), MainAction::InsertMoney);
    assert_eq!(SodaController::main_menu_action("3"), MainAction::Purchase);
    assert_eq!(SodaController::main_menu_action("4"), MainAction::ReturnMoney);
    assert_eq!(SodaController::main_menu_action("5"), MainAction::Exit);
    assert_eq!(SodaController::main_menu_action("AdMin"), MainAction::Admin);
    assert_eq!(SodaController::main_menu_action("6"), MainAction::Invalid);
    assert_eq!(SodaController::main_menu_action("01"), MainAction::Invalid);
    assert_eq!(SodaController::admin_menu_action("1"), AdminAction::Restock);
    assert_eq!(SodaController::admin_menu_action("2"), AdminAction::AddSoda);
    assert_eq!(SodaController::admin_menu_action("3"), AdminAction::ShowHistory);
    assert_eq!(SodaController::admin_menu_action("4"), AdminAction::Back);
    assert_eq!(SodaController::admin_menu_action("admin"), AdminAction::Invalid);
}

#[test]
fn controller_money_flow() {
    let mut c = controller();
    assert!(!c.can_purchase());
    assert_eq!(c.return_money(), "No money to return.");
    assert_eq!(c.insert_money(250), "Money inserted. Total: $2.50");
    assert_eq!(
        c.insert_money(-1),
        "Error: Amount must be a finite, non-negative number"
    );
    assert!(c.can_purchase());
    assert_eq!(c.money_inserted(), 250);
    assert_eq!(c.return_money(), "Money returned: $2.50");
    assert_eq!(c.money_inserted(), 0);
}

#[test]
fn controller_purchase_flow() {
    let mut c = controller();
    c.insert_money(200);
    assert_eq!(c.purchase_choices().len(), 5);
    assert_eq!(
        c.purchase_soda(None),
        PurchaseReply::Notice("Purchase cancelled.".to_string())
    );
    assert_eq!(
        c.purchase_soda(Some("Water")),
        PurchaseReply::Notice("Error: Soda 'Water' not found in inventory".to_string())
    );
    match c.purchase_soda(Some("Cola")) {
        PurchaseReply::Outcome(r) => {
            assert!(r.success);
            assert_eq!(r.change, 50);
        }
        other => panic!("unexpected reply {:?}", other),
    }
    assert_eq!(c.transaction_history().len(), 1);
}

#[test]
fn controller_exit_refunds() {
    let mut c = controller();
    assert_eq!(c.exit_application(), None);
    c.insert_money(75);
    assert_eq!(c.exit_application(), Some("Returning money: $0.75".to_string()));
    assert_eq!(c.money_inserted(), 0);
}

#[test]
fn controller_admin_flow() {
    let mut c = controller();
    assert_eq!(c.restock_soda(None, Some(3)), "Restock cancelled.");
    assert_eq!(c.restock_soda(Some("Cola"), None), "Restock cancelled.");
    assert_eq!(c.restock_soda(Some("Cola"), Some(3)), "Cola restocked. New quantity: 13");
    assert_eq!(
        c.restock_soda(Some("Cola"), Some(u32::MAX)),
        "Error: Cannot restock negative quantity"
    );
    assert_eq!(c.add_new_soda(Some("Tonic"), None, Some(1)), "Add new soda cancelled.");
    assert_eq!(
        c.add_new_soda(Some(" Tonic "), Some(180), Some(4)),
        "New soda ' Tonic ' added successfully."
    );
    assert_eq!(
        c.add_new_soda(Some("Tonic"), Some(180), Some(4)),
        "Error: Soda 'Tonic' already exists in inventory"
    );
    let (inventory, prices) = c.available_sodas_table();
    assert_eq!(inventory.last(), Some(&("Tonic".to_string(), 4)));
    assert_eq!(prices.last(), Some(&("Tonic".to_string(), 180)));
    assert_eq!(c.restock_choices().len(), 6);
}
