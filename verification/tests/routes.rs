use order_buffer::gateway::PersistError;
use order_buffer::order::Order;
use order_buffer::routes::{get_order, send_order, Body, Reply, STATUS_INTERNAL_SERVER_ERROR, STATUS_OK};
use order_buffer::state::AppState;

#[test]
fn received_order_is_answered_with_ok() {
    let reply = send_order(&Ok(()));
    assert_eq!(reply, Reply { status: 200, body: Body::Text("Order received!") });
}

#[test]
fn failed_save_is_answered_with_a_server_error() {
    let reply = send_order(&Err(PersistError { cause: "connection closed".to_string() }));
    assert_eq!(reply, Reply { status: 500, body: Body::Text("Failed to save order to database") });
}

#[test]
fn status_codes() {
    assert_eq!(STATUS_OK, 200);
    assert_eq!(STATUS_INTERNAL_SERVER_ERROR, 500);
}

#[test]
fn empty_buffer_is_answered_with_a_message() {
    let state = AppState::new(2);
    let reply = get_order(state.get_last_order());
    assert_eq!(reply, Reply { status: 200, body: Body::Message("No orders yet") });
}

#[test]
fn last_order_is_answered_as_it_is() {
    let mut order = Order::default();
    order.order_uid = "b563feb7b2b84b6test".to_string();
    order.sm_id = 99;
    let mut expected = Order::default();
    expected.order_uid = "b563feb7b2b84b6test".to_string();
    expected.sm_id = 99;
    let reply = get_order(Some(order));
    assert_eq!(reply, Reply { status: 200, body: Body::Order(expected) });
}
