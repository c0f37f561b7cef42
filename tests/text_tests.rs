use restaurant_server::client_params::{from_client_item, from_client_item_id, from_client_table_id, is_client_id, ClientNewItem};
use restaurant_server::menu::{get_menu_item, MenuItemId};
use restaurant_server::orders::{TableId, TableOrder, TableOrderItem};
use restaurant_server::memory_persistence::item_slice_to_hashmap;
use restaurant_server::persistence::{CreateOrderError, ReadOrderError, ReadOrderItemError};
use restaurant_server::view_models::{to_order_item_detail_view_model, to_order_item_summary_view_model, to_order_view_model};

#[test]
fn ids_print_in_decimal() {
    assert_eq!("123", TableId(123).to_string());
    assert_eq!("0", TableId(0).to_string());
    assert_eq!("-45", TableId(-45).to_string());
    assert_eq!("2147483647", MenuItemId(i32::MAX).to_string());
    assert_eq!("-2147483648", MenuItemId(i32::MIN).to_string());
}

#[test]
fn client_ids_are_decimal_i32() {
    assert!(is_client_id("12"));
    assert!(is_client_id("+7"));
    assert!(is_client_id("-3"));
    assert!(is_client_id("007"));
    assert!(!is_client_id(""));
    assert!(!is_client_id("-"));
    assert!(!is_client_id("abc"));
    assert!(!is_client_id("1.5"));
    assert!(!is_client_id("2147483648"));
    assert!(is_client_id("-2147483648"));
}

#[test]
fn client_ids_are_read() {
    assert_eq!(TableId(123), from_client_table_id("123"));
    assert_eq!(TableId(-9), from_client_table_id("-9"));
    assert_eq!(MenuItemId(4), from_client_item_id("+4"));
    assert_eq!(MenuItemId(7), from_client_item_id("007"));
}

#[test]
fn client_item_becomes_a_line() {
    let item = ClientNewItem { item_id: "3".to_string(), qty: 2 };
    assert_eq!(
        TableOrderItem { item_id: MenuItemId(3), quantity: 2, total_preparation_time_mins: 15 },
        from_client_item(&item, 15)
    );
}

#[test]
fn menu_item_text() {
    let item = get_menu_item(&MenuItemId(2));
    assert_eq!(MenuItemId(2), item.id);
    assert_eq!("menu item 2", item.name);
    assert_eq!("menu item desc 2", item.description);
}

#[test]
fn error_messages_and_statuses() {
    let not_found = ReadOrderError::OrderNotFound("123".to_string());
    assert_eq!("Order id 123 not found.", not_found.message());
    assert_eq!(404, not_found.status_code());

    let exists = CreateOrderError::OrderAlreadyExistsForTable("5".to_string());
    assert_eq!("An order already exists for table id 5.", exists.message());
    assert_eq!(409, exists.status_code());

    let no_order = ReadOrderItemError::OrderNotFound("123".to_string());
    assert_eq!("Order id 123 not found.", no_order.message());
    assert_eq!(404, no_order.status_code());

    let no_line = ReadOrderItemError::OrderItemNotFound("404".to_string());
    assert_eq!("Order item id 404 not found.", no_line.message());
    assert_eq!(404, no_line.status_code());
}

#[test]
fn order_view_lists_every_line() {
    let order = TableOrder {
        table_id: TableId(123),
        items: item_slice_to_hashmap(&[
            TableOrderItem { item_id: MenuItemId(1), quantity: 1, total_preparation_time_mins: 10 },
            TableOrderItem { item_id: MenuItemId(2), quantity: 2, total_preparation_time_mins: 11 },
            TableOrderItem { item_id: MenuItemId(3), quantity: 3, total_preparation_time_mins: 12 },
        ]),
    };
    let view = to_order_view_model(&order);
    assert_eq!("123", view.table_id);
    let mut rows = view
        .items
        .iter()
        .map(|i| (i.item_id.clone(), i.name.clone(), i.quantity, i.total_preparation_time_mins))
        .collect::<Vec<(String, String, i32, i32)>>();
    rows.sort();
    assert_eq!(
        vec![
            ("1".to_string(), "menu item 1".to_string(), 1, 10),
            ("2".to_string(), "menu item 2".to_string(), 2, 11),
            ("3".to_string(), "menu item 3".to_string(), 3, 12),
        ],
        rows
    );
}

#[test]
fn line_views() {
    let line = TableOrderItem { item_id: MenuItemId(2), quantity: 2, total_preparation_time_mins: 8 };
    let summary = to_order_item_summary_view_model(&line);
    assert_eq!("2", summary.item_id);
    assert_eq!("menu item 2", summary.name);
    assert_eq!(2, summary.quantity);
    assert_eq!(8, summary.total_preparation_time_mins);

    let detail = to_order_item_detail_view_model(&line);
    assert_eq!("2", detail.item_id);
    assert_eq!("menu item 2", detail.name);
    assert_eq!("menu item desc 2", detail.description);
    assert_eq!(2, detail.quantity);
    assert_eq!(8, detail.total_preparation_time_mins);
}
