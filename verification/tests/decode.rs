use diagnostic_console::status::ServerResponse;

#[test]
fn decode_table_codes() {
    assert_eq!(ServerResponse::from_i32(0), ServerResponse::Idle);
    assert_eq!(ServerResponse::from_i32(1), ServerResponse::Awake);
    assert_eq!(ServerResponse::from_i32(2), ServerResponse::InProgress);
    assert_eq!(ServerResponse::from_i32(3), ServerResponse::Done);
}

#[test]
fn decode_out_of_range_is_error() {
    assert_eq!(ServerResponse::from_i32(-1), ServerResponse::Error);
    assert_eq!(ServerResponse::from_i32(4), ServerResponse::Error);
    assert_eq!(ServerResponse::from_i32(5), ServerResponse::Error);
    assert_eq!(ServerResponse::from_i32(i32::MIN), ServerResponse::Error);
    assert_eq!(ServerResponse::from_i32(i32::MAX), ServerResponse::Error);
}

#[test]
fn decode_is_deterministic() {
    for n in [-3, -1, 0, 1, 2, 3, 4, 100, i32::MIN, i32::MAX] {
        let a = ServerResponse::from_i32(n);
        let b = ServerResponse::from_i32(n);
        assert_eq!(a, b);
        assert_eq!(a.code(), b.code());
        assert_eq!(a.message(), b.message());
    }
}

#[test]
fn displayed_codes() {
    assert_eq!(ServerResponse::Idle.code(), 0);
    assert_eq!(ServerResponse::Awake.code(), 1);
    assert_eq!(ServerResponse::InProgress.code(), 2);
    assert_eq!(ServerResponse::Done.code(), 3);
    assert_eq!(ServerResponse::Error.code(), -1);
}

#[test]
fn displayed_messages() {
    assert_eq!(ServerResponse::Idle.message(), "Awaiting input");
    assert_eq!(
        ServerResponse::Awake.message(),
        "Server is up and has loaded microcontroller firmware"
    );
    assert_eq!(
        ServerResponse::InProgress.message(),
        "Microcontroller has began testing"
    );
    assert_eq!(ServerResponse::Done.message(), "Test results are available");
    assert_eq!(
        ServerResponse::Error.message(),
        "Error has occurred either on the server or microcontroller!"
    );
}
