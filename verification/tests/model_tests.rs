use soda_machine::controller::SodaController;
use soda_machine::model::{ModelError, SodaModel};
use soda_machine::view::SodaView;

fn quantity(model: &SodaModel, name: &str) -> u32 {
    *model.inventory.get(name).unwrap()
}

fn price(model: &SodaModel, name: &str) -> u64 {
    *model.prices.get(name).unwrap()
}

#[test]
fn test_initial_inventory() {
    let model = SodaModel::new();
    let inventory = model.get_inventory();
    let names: Vec<&str> = inventory.iter().map(|(n, _)| n.as_str()).collect();
    assert!(names.contains(&"Cola"));
    assert!(names.contains(&"Root Beer"));
    assert_eq!(quantity(&model, "Cola"), 10);
}

#[test]
fn test_initial_prices() {
    let model = SodaModel::new();
    assert_eq!(price(&model, "Cola"), 150);
    assert_eq!(price(&model, "Grape Soda"), 175);
}

#[test]
fn test_get_available_sodas() {
    let mut model = SodaModel::new();
    let available = model.get_available_sodas();
    assert!(available.contains(&"Cola".to_string()));
    assert!(available.contains(&"Root Beer".to_string()));

    model.inventory.insert("Cola".to_string(), 0);
    let available = model.get_available_sodas();
    assert!(!available.contains(&"Cola".to_string()));
}

#[test]
fn test_insert_money() {
    let mut model = SodaModel::new();
    assert_eq!(model.money_inserted, 0);

    let total = model.insert_money(100).unwrap();
    assert_eq!(total, 100);
    assert_eq!(model.money_inserted, 100);

    let total = model.insert_money(50).unwrap();
    assert_eq!(total, 150);

    assert_eq!(model.insert_money(-100), Err(ModelError::InvalidAmount));
}

#[test]
fn test_return_money() {
    let mut model = SodaModel::new();
    model.insert_money(200).unwrap();
    let returned = model.return_money();
    assert_eq!(returned, 200);
    assert_eq!(model.money_inserted, 0);
}

#[test]
fn test_purchase_soda() {
    let mut model = SodaModel::new();
    model.insert_money(200).unwrap();

    let result = model.purchase_soda("Cola").unwrap();
    assert!(result.success);
    assert_eq!(result.change, 50);
    assert_eq!(quantity(&model, "Cola"), 9);
    assert_eq!(model.money_inserted, 0);

    assert_eq!(model.transaction_history.len(), 1);
    let tx = &model.transaction_history[0];
    assert_eq!(tx.soda, "Cola");
    assert_eq!(tx.price, 150);
    assert_eq!(tx.change, 50);
}

#[test]
fn test_purchase_insufficient_funds() {
    let mut model = SodaModel::new();
    model.insert_money(100).unwrap();

    let result = model.purchase_soda("Cola").unwrap();
    assert!(!result.success);
    assert_eq!(result.change, 0);
    assert_eq!(quantity(&model, "Cola"), 10);
    assert_eq!(model.money_inserted, 100);
}

#[test]
fn test_purchase_out_of_stock() {
    let mut model = SodaModel::new();
    model.inventory.insert("Cola".to_string(), 0);
    model.insert_money(200).unwrap();

    let result = model.purchase_soda("Cola").unwrap();
    assert!(!result.success);
    assert_eq!(result.change, 0);
    assert_eq!(model.money_inserted, 200);
}

#[test]
fn test_restock_soda() {
    let mut model = SodaModel::new();
    model.inventory.insert("Cola".to_string(), 0);

    let new_qty = model.restock_soda("Cola", 5).unwrap();
    assert_eq!(new_qty, 5);
    assert_eq!(quantity(&model, "Cola"), 5);

    assert_eq!(model.restock_soda("Cola", -1), Err(ModelError::NegativeQuantity));
}

#[test]
fn test_add_new_soda() {
    let mut model = SodaModel::new();
    model.add_new_soda("Energy Drink", 225, 5).unwrap();
    assert_eq!(quantity(&model, "Energy Drink"), 5);
    assert_eq!(price(&model, "Energy Drink"), 225);

    assert_eq!(
        model.add_new_soda("Cola", 100, 1),
        Err(ModelError::SodaAlreadyExists("Cola".to_string()))
    );
    assert_eq!(model.add_new_soda("Invalid", -100, 1), Err(ModelError::NonPositivePrice));
}

#[test]
fn test_unknown_soda_purchase_errors() {
    let mut model = SodaModel::new();
    assert_eq!(
        model.purchase_soda("Does Not Exist"),
        Err(ModelError::SodaNotFound("Does Not Exist".to_string()))
    );
}

#[test]
fn test_exact_change_purchase() {
    let mut model = SodaModel::new();
    model.insert_money(150).unwrap();
    let result = model.purchase_soda("Cola").unwrap();
    assert!(result.success);
    assert_eq!(result.change, 0);
    assert_eq!(model.money_inserted, 0);
}

#[test]
fn test_restock_overflow() {
    let mut model = SodaModel::new();
    model.inventory.insert("Cola".to_string(), u32::MAX);
    assert_eq!(model.restock_soda("Cola", 1), Err(ModelError::QuantityOverflow));
    // Stock unchanged on overflow
    assert_eq!(quantity(&model, "Cola"), u32::MAX);
}

#[test]
fn test_empty_soda_name_rejected() {
    let mut model = SodaModel::new();
    assert_eq!(model.add_new_soda("", 100, 1), Err(ModelError::EmptySodaName));
    assert_eq!(model.add_new_soda("   ", 100, 1), Err(ModelError::EmptySodaName));
}

#[test]
fn test_add_new_soda_trims_name() {
    let mut model = SodaModel::new();
    model.add_new_soda("  Ginger Ale  ", 200, 3).unwrap();
    assert!(model.inventory.contains_key("Ginger Ale"));
    assert!(!model.inventory.contains_key("  Ginger Ale  "));
}

#[test]
fn test_purchase_inventory_price_desync_no_panic() {
    // Public fields let a caller put stock in without a price — must
    // return Err, not panic.
    let mut model = SodaModel::new();
    model.inventory.insert("Ghost".to_string(), 5);
    model.insert_money(1000).unwrap();
    assert_eq!(
        model.purchase_soda("Ghost"),
        Err(ModelError::SodaNotFound("Ghost".to_string()))
    );
    assert_eq!(model.money_inserted, 1000);
}

#[test]
fn test_deplete_stock_then_unavailable() {
    let mut model = SodaModel::new();
    for _ in 0..10 {
        model.insert_money(200).unwrap();
        assert!(model.purchase_soda("Cola").unwrap().success);
    }
    assert!(!model.get_available_sodas().contains(&"Cola".to_string()));
    model.insert_money(200).unwrap();
    let result = model.purchase_soda("Cola").unwrap();
    assert!(!result.success);
}

#[test]
fn test_double_return_money() {
    let mut model = SodaModel::new();
    model.insert_money(300).unwrap();
    assert_eq!(model.return_money(), 300);
    assert_eq!(model.return_money(), 0);
}

#[test]
fn test_controller_initialization() {
    // Smoke test: building a controller must not panic.
    let model = SodaModel::new();
    let view = SodaView::new();
    let controller = SodaController::new(model, view);
    assert_eq!(controller.model().money_inserted, 0);
    assert_eq!(controller.model().inventory.len(), 5);
}
