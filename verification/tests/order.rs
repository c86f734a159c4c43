use order_buffer::order::{Delivery, Item, Order, Payment};

#[test]
fn default_order_is_empty() {
    let order = Order::default();
    assert_eq!(order.order_uid, "");
    assert_eq!(order.track_number, "");
    assert_eq!(order.entry, "");
    assert_eq!(order.delivery, Delivery::default());
    assert_eq!(order.payment, Payment::default());
    assert!(order.items.is_empty());
    assert_eq!(order.locale, "");
    assert_eq!(order.internal_signature, "");
    assert_eq!(order.customer_id, "");
    assert_eq!(order.delivery_service, "");
    assert_eq!(order.shardkey, "");
    assert_eq!(order.sm_id, 0);
    assert_eq!(order.date_created, "");
    assert_eq!(order.oof_shard, "");
}

#[test]
fn default_parts_are_empty() {
    let delivery = Delivery::default();
    assert_eq!(delivery.name, "");
    assert_eq!(delivery.email, "");
    let payment = Payment::default();
    assert_eq!(payment.transaction, "");
    assert_eq!(payment.amount, 0);
    assert_eq!(payment.payment_dt, 0);
    assert_eq!(payment.custom_fee, 0);
    let item = Item::default();
    assert_eq!(item.chrt_id, 0);
    assert_eq!(item.name, "");
    assert_eq!(item.status, 0);
}

#[test]
fn clone_keeps_every_field() {
    let mut order = Order::default();
    order.order_uid = "uid".to_string();
    order.delivery.city = "Kiryat Mozkin".to_string();
    order.payment.transaction = "tx".to_string();
    order.payment.amount = -5;
    order.payment.payment_dt = i64::MAX;
    order.sm_id = i32::MIN;
    let mut first = Item::default();
    first.chrt_id = 9934930;
    first.name = "Mascaras".to_string();
    let mut second = Item::default();
    second.chrt_id = 1;
    second.brand = "Vivienne Sabo".to_string();
    order.items = vec![first, second];

    let copy = order.clone();
    assert_eq!(copy, order);
    assert_eq!(copy.items.len(), 2);
    assert_eq!(copy.items[0].chrt_id, 9934930);
    assert_eq!(copy.items[1].brand, "Vivienne Sabo");
    assert_eq!(copy.payment.payment_dt, i64::MAX);
    assert_eq!(copy.sm_id, i32::MIN);
}

#[test]
fn numbers_are_passed_through_unrelated() {
    let mut item = Item::default();
    item.price = 100;
    item.sale = 30;
    item.total_price = 999;
    let copy = item.clone();
    assert_eq!((copy.price, copy.sale, copy.total_price), (100, 30, 999));
}
