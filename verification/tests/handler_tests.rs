use coffee_shop::handlers::{
    add_to_cart, confirm_order, open_cart, restock, AddInventoryParams, AddOrderParams,
};
use coffee_shop::model::{Coffee, CustomerOrder, Inventory, Roast, Size};
use std::collections::HashMap;

fn stocked(coffee: Coffee, bags: i32) -> Inventory {
    let mut hash = HashMap::new();
    hash.insert(coffee.code(), bags);
    Inventory::new(hash)
}

fn order_link(cart_id: i32, coffee: &str, size: &str, qty: i32) -> AddOrderParams {
    AddOrderParams {
        cart_id,
        coffee: coffee.to_string(),
        size: size.to_string(),
        qty,
    }
}

#[test]
fn open_cart_creates_empty_cart_once() {
    let mut carts: HashMap<i32, CustomerOrder> = HashMap::new();
    open_cart(&mut carts, 1);
    assert_eq!(carts.len(), 1);
    assert_eq!(carts[&1].id, 1);
    assert_eq!(carts[&1].items.len(), 0);
    assert_eq!(carts[&1].total_price, 0);

    carts.get_mut(&1).unwrap().add_item(Coffee::Arabica, Roast::Medium, Size::Small, 1);
    open_cart(&mut carts, 1);
    assert_eq!(carts.len(), 1);
    assert_eq!(carts[&1].items.len(), 1);
    assert_eq!(carts[&1].total_price, 5);
}

#[test]
fn add_to_cart_takes_size_amount_out_of_stock() {
    let mut carts: HashMap<i32, CustomerOrder> = HashMap::new();
    let mut inventory = stocked(Coffee::Robusta, 10);
    let added = add_to_cart(&mut carts, &mut inventory, &order_link(4, "Robusta", "Large", 2));
    assert!(added);
    assert_eq!(inventory.stock[&Coffee::Robusta.code()], 7);
    let cart = &carts[&4];
    assert_eq!(cart.id, 4);
    assert_eq!(cart.items.len(), 1);
    assert_eq!(cart.items[0].coffee, Coffee::Robusta);
    assert_eq!(cart.items[0].roast, Roast::Medium);
    assert_eq!(cart.items[0].size, Size::Large);
    assert_eq!(cart.items[0].quantity, 2);
    assert_eq!(cart.items[0].price, 24);
    assert_eq!(cart.total_price, 24);
}

#[test]
fn add_to_cart_out_of_stock_leaves_empty_cart() {
    let mut carts: HashMap<i32, CustomerOrder> = HashMap::new();
    let mut inventory = stocked(Coffee::Robusta, 2);
    let added = add_to_cart(&mut carts, &mut inventory, &order_link(1, "Robusta", "Large", 1));
    assert!(!added);
    assert_eq!(inventory.stock[&Coffee::Robusta.code()], 2);
    assert_eq!(carts[&1].items.len(), 0);
    assert_eq!(carts[&1].total_price, 0);
}

#[test]
fn add_to_cart_unknown_names_order_medium_arabica() {
    let mut carts: HashMap<i32, CustomerOrder> = HashMap::new();
    let mut inventory = stocked(Coffee::Arabica, 5);
    let added = add_to_cart(&mut carts, &mut inventory, &order_link(2, "Mocha", "Huge", 1));
    assert!(added);
    assert_eq!(inventory.stock[&Coffee::Arabica.code()], 3);
    assert_eq!(carts[&2].items[0].coffee, Coffee::Arabica);
    assert_eq!(carts[&2].items[0].size, Size::Medium);
    assert_eq!(carts[&2].total_price, 8);
}

#[test]
fn add_to_cart_adds_to_existing_cart_only() {
    let mut carts: HashMap<i32, CustomerOrder> = HashMap::new();
    let mut other = CustomerOrder::new(9);
    other.add_item(Coffee::Excelsa, Roast::Dark, Size::Small, 1);
    carts.insert(9, other);
    let mut inventory = stocked(Coffee::Excelsa, 6);
    assert!(add_to_cart(&mut carts, &mut inventory, &order_link(3, "Excelsa", "Small", 3)));
    assert!(add_to_cart(&mut carts, &mut inventory, &order_link(3, "Excelsa", "Medium", 1)));
    assert_eq!(inventory.stock[&Coffee::Excelsa.code()], 3);
    assert_eq!(carts[&3].items.len(), 2);
    assert_eq!(carts[&3].total_price, 15 + 8);
    assert_eq!(carts[&9].items.len(), 1);
    assert_eq!(carts[&9].total_price, 5);
}

#[test]
fn add_to_cart_refuses_total_beyond_i64() {
    let mut carts: HashMap<i32, CustomerOrder> = HashMap::new();
    let mut full = CustomerOrder::new(1);
    full.total_price = i64::MAX - 4;
    carts.insert(1, full);
    let mut inventory = stocked(Coffee::Arabica, 5);
    assert!(!add_to_cart(&mut carts, &mut inventory, &order_link(1, "Arabica", "Small", 1)));
    assert_eq!(inventory.stock[&Coffee::Arabica.code()], 5);
    assert_eq!(carts[&1].items.len(), 0);
    assert_eq!(carts[&1].total_price, i64::MAX - 4);
}

#[test]
fn restock_adds_named_coffee() {
    let mut inventory = stocked(Coffee::Columbian, 1);
    let params = AddInventoryParams {
        coffee: "Columbian".to_string(),
        qty: 10,
    };
    assert_eq!(restock(&mut inventory, &params), Coffee::Columbian);
    assert_eq!(inventory.stock[&Coffee::Columbian.code()], 11);

    let params = AddInventoryParams {
        coffee: "MidnightRoast".to_string(),
        qty: 10,
    };
    assert_eq!(restock(&mut inventory, &params), Coffee::MidnightRoast);
    assert_eq!(inventory.stock[&Coffee::MidnightRoast.code()], 10);
    assert_eq!(inventory.stock.len(), 2);
}

#[test]
fn confirm_order_hands_over_cart_once() {
    let mut carts: HashMap<i32, CustomerOrder> = HashMap::new();
    let mut inventory = stocked(Coffee::Arabica, 5);
    let mut num_orders: i32 = 1;
    open_cart(&mut carts, num_orders);
    assert!(add_to_cart(&mut carts, &mut inventory, &order_link(1, "Arabica", "Small", 2)));
    open_cart(&mut carts, 5);

    let order = confirm_order(&mut carts, &mut num_orders, 1).unwrap();
    assert_eq!(order.id, 1);
    assert_eq!(order.total_price, 10);
    assert_eq!(order.items.len(), 1);
    assert_eq!(num_orders, 2);
    assert!(!carts.contains_key(&1));
    assert!(carts.contains_key(&5));

    assert!(confirm_order(&mut carts, &mut num_orders, 1).is_none());
    assert_eq!(num_orders, 2);
    assert_eq!(carts.len(), 1);
}

#[test]
fn confirm_order_missing_cart_changes_nothing() {
    let mut carts: HashMap<i32, CustomerOrder> = HashMap::new();
    let mut num_orders: i32 = 3;
    assert!(confirm_order(&mut carts, &mut num_orders, 3).is_none());
    assert_eq!(num_orders, 3);
    assert!(carts.is_empty());
}
