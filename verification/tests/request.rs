use diagnostic_console::request::TestData;

#[test]
fn default_payload() {
    let d = TestData::default();
    assert_eq!(d.device, "");
    assert!(!d.check);
    assert_eq!(d.int_data, 0);
}

#[test]
fn json_body_default() {
    let d = TestData::default();
    assert_eq!(
        d.to_json(),
        "{\"device\":\"\",\"check\":false,\"intData\":0,\"floatData\":0.0}"
    );
}

#[test]
fn json_body_with_device_and_check() {
    let d = TestData {
        device: String::from("Brake Signal Transmitter"),
        check: true,
        int_data: 0,
    };
    assert_eq!(
        d.to_json(),
        "{\"device\":\"Brake Signal Transmitter\",\"check\":true,\"intData\":0,\"floatData\":0.0}"
    );
}
