use order_buffer::cli::{connection_string, default_socket_addr, CLIArgs, DEFAULT_CACHE_SIZE};

#[test]
fn defaults() {
    assert_eq!(DEFAULT_CACHE_SIZE, 500);
    assert_eq!(default_socket_addr(), "127.0.0.1:3000");
}

#[test]
fn connection_parameters_are_written_in_order() {
    assert_eq!(
        connection_string("localhost", "alice", "orders", "s3cret"),
        "host=localhost user=alice dbname=orders password=s3cret"
    );
}

#[test]
fn empty_connection_parameters_are_written_empty() {
    assert_eq!(connection_string("", "", "", ""), "host= user= dbname= password=");
}

#[test]
fn settings_name_their_connection() {
    let args = CLIArgs {
        socket_addr: "0.0.0.0:8080".to_string(),
        cache_size: 10,
        host_name: "db.internal".to_string(),
        user_name: "svc".to_string(),
        db_name: "wb".to_string(),
        password: "pw".to_string(),
    };
    assert_eq!(args.connection_string(), "host=db.internal user=svc dbname=wb password=pw");
}
