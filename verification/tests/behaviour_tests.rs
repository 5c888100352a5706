use soda_machine::model::{ModelError, SodaModel};

fn listing(model: &SodaModel) -> Vec<(String, u32)> {
    model.get_inventory()
}

#[test]
fn initial_machine_lists_five_sodas_in_order() {
    let model = SodaModel::new();
    let expected: Vec<(String, u32)> = vec![
        ("Cola".to_string(), 10),
        ("Root Beer".to_string(), 10),
        ("Lemon-Lime".to_string(), 10),
        ("Grape Soda".to_string(), 10),
        ("Cream Soda".to_string(), 10),
    ];
    assert_eq!(listing(&model), expected);
    let prices: Vec<(String, u64)> = vec![
        ("Cola".to_string(), 150),
        ("Root Beer".to_string(), 150),
        ("Lemon-Lime".to_string(), 150),
        ("Grape Soda".to_string(), 175),
        ("Cream Soda".to_string(), 175),
    ];
    assert_eq!(model.get_prices(), prices);
    assert_eq!(model.get_available_sodas().len(), 5);
    assert_eq!(model.money_inserted, 0);
    assert!(model.get_transaction_history().is_empty());
}

#[test]
fn default_machine_matches_new() {
    let model: SodaModel = Default::default();
    assert_eq!(model.get_inventory(), SodaModel::new().get_inventory());
    assert_eq!(model.get_prices(), SodaModel::new().get_prices());
}

#[test]
fn lookups_of_known_and_unknown_sodas() {
    let model = SodaModel::new();
    assert_eq!(model.get_soda_price("Grape Soda"), Ok(175));
    assert_eq!(model.get_soda_quantity("Root Beer"), Ok(10));
    assert_eq!(model.get_soda_price("Water"), Err(ModelError::SodaNotFound("Water".to_string())));
    assert_eq!(
        model.get_soda_quantity("Water"),
        Err(ModelError::SodaNotFound("Water".to_string()))
    );
}

#[test]
fn insertions_add_up_and_return_gives_them_back() {
    let mut model = SodaModel::new();
    assert_eq!(model.insert_money(125), Ok(125));
    assert_eq!(model.insert_money(75), Ok(200));
    assert_eq!(model.money_in_slot(), 200);
    assert_eq!(model.return_money(), 200);
    assert_eq!(model.return_money(), 0);
}

#[test]
fn insertion_that_overflows_the_slot_is_refused() {
    let mut model = SodaModel::new();
    model.insert_money(i64::MAX).unwrap();
    model.insert_money(i64::MAX).unwrap();
    assert_eq!(model.insert_money(2), Err(ModelError::InvalidAmount));
    assert_eq!(model.money_inserted, (i64::MAX as u64) * 2);
    assert_eq!(model.insert_money(1), Ok(u64::MAX));
}

#[test]
fn zero_insertion_is_accepted() {
    let mut model = SodaModel::new();
    assert_eq!(model.insert_money(0), Ok(0));
}

#[test]
fn purchase_messages() {
    let mut model = SodaModel::new();
    model.insert_money(100).unwrap();
    let short = model.purchase_soda("Grape Soda").unwrap();
    assert_eq!(short.message, "Insufficient funds. Please insert $0.75 more");
    model.insert_money(100).unwrap();
    let sold = model.purchase_soda("Grape Soda").unwrap();
    assert!(sold.success);
    assert_eq!(sold.message, "Dispensing Grape Soda. Enjoy!");
    assert_eq!(sold.change, 25);
    model.inventory.insert("Cola".to_string(), 0);
    model.insert_money(500).unwrap();
    let none = model.purchase_soda("Cola").unwrap();
    assert_eq!(none.message, "Sorry, Cola is out of stock");
    assert_eq!(none.change, 0);
    assert_eq!(model.money_inserted, 500);
}

#[test]
fn successful_purchase_logs_price_plus_change() {
    let mut model = SodaModel::new();
    model.insert_money(1000).unwrap();
    let r = model.purchase_soda("Cream Soda").unwrap();
    let log = model.get_transaction_history();
    assert_eq!(log.len(), 1);
    assert_eq!(log[0].soda, "Cream Soda");
    assert_eq!(log[0].money_inserted, 1000);
    assert_eq!(log[0].price + log[0].change, log[0].money_inserted);
    assert_eq!(r.change, 825);
    assert_eq!(model.get_soda_quantity("Cream Soda"), Ok(9));
    assert_eq!(model.get_soda_quantity("Cola"), Ok(10));
}

#[test]
fn refused_purchase_keeps_everything() {
    let mut model = SodaModel::new();
    model.insert_money(10).unwrap();
    let before = model.get_inventory();
    let r = model.purchase_soda("Cola").unwrap();
    assert!(!r.success);
    assert_eq!(model.get_inventory(), before);
    assert_eq!(model.money_inserted, 10);
    assert!(model.transaction_history.is_empty());
}

#[test]
fn restock_errors() {
    let mut model = SodaModel::new();
    assert_eq!(
        model.restock_soda("Water", 3),
        Err(ModelError::SodaNotFound("Water".to_string()))
    );
    // An unknown name is reported before a negative quantity.
    assert_eq!(
        model.restock_soda("Water", -3),
        Err(ModelError::SodaNotFound("Water".to_string()))
    );
    assert_eq!(model.restock_soda("Cola", 0), Ok(10));
    assert_eq!(model.restock_soda("Cola", 5), Ok(15));
    assert_eq!(model.get_soda_quantity("Cola"), Ok(15));
}

#[test]
fn new_soda_comes_last_in_both_snapshots() {
    let mut model = SodaModel::new();
    assert_eq!(model.add_new_soda("  Ginger Ale\t", 200, 0), Ok(()));
    let inventory = model.get_inventory();
    assert_eq!(inventory.last(), Some(&("Ginger Ale".to_string(), 0)));
    let prices = model.get_prices();
    assert_eq!(prices.last(), Some(&("Ginger Ale".to_string(), 200)));
    // With no cans it is not offered.
    assert!(!model.get_available_sodas().contains(&"Ginger Ale".to_string()));
    assert_eq!(model.restock_soda("Ginger Ale", 2), Ok(2));
    assert_eq!(model.get_available_sodas().last(), Some(&"Ginger Ale".to_string()));
}

#[test]
fn add_soda_error_order() {
    let mut model = SodaModel::new();
    // The name is judged before the price.
    assert_eq!(model.add_new_soda("  ", -5, 1), Err(ModelError::EmptySodaName));
    assert_eq!(
        model.add_new_soda(" Cola ", -5, 1),
        Err(ModelError::SodaAlreadyExists("Cola".to_string()))
    );
    assert_eq!(model.add_new_soda("Weird", 0, 1), Err(ModelError::NonPositivePrice));
    assert_eq!(model.get_inventory().len(), 5);
}

#[test]
fn unicode_whitespace_is_trimmed_from_new_names() {
    let mut model = SodaModel::new();
    model.add_new_soda("\u{3000}Yuzu\u{00a0}", 300, 4).unwrap();
    assert_eq!(model.get_soda_quantity("Yuzu"), Ok(4));
}

#[test]
fn error_messages() {
    assert_eq!(ModelError::InvalidAmount.message(), "Amount must be a finite, non-negative number");
    assert_eq!(ModelError::NegativeQuantity.message(), "Cannot restock negative quantity");
    assert_eq!(ModelError::QuantityOverflow.message(), "Restock would exceed maximum stock");
    assert_eq!(ModelError::NonPositivePrice.message(), "Price must be positive");
    assert_eq!(ModelError::EmptySodaName.message(), "Soda name cannot be empty");
    assert_eq!(
        ModelError::SodaNotFound("Fizz".to_string()).message(),
        "Soda 'Fizz' not found in inventory"
    );
    assert_eq!(
        ModelError::SodaAlreadyExists("Fizz".to_string()).message(),
        "Soda 'Fizz' already exists in inventory"
    );
}

#[test]
fn stocked_soda_without_price_is_listed_in_inventory_only() {
    let mut model = SodaModel::new();
    model.prices.remove("Cola");
    let inventory = model.get_inventory();
    let prices = model.get_prices();
    assert_eq!(inventory.len(), 5);
    assert_eq!(prices.len(), 4);
    assert_eq!(prices[0].0, "Root Beer");
}
