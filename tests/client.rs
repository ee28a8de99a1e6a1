use cloudvision::{Client, ClientError, Device, JsonNumber, JsonValue, Method, Reply, Session, User};

fn text(s: &str) -> JsonValue {
    JsonValue::Str(s.to_string())
}

fn object(members: Vec<(&str, JsonValue)>) -> JsonValue {
    JsonValue::Object(members.into_iter().map(|(k, v)| (k.to_string(), v)).collect())
}

fn number(unsigned: Option<u64>, literal: &str) -> JsonValue {
    JsonValue::Number(JsonNumber { unsigned, literal: literal.to_string() })
}

fn client() -> Client {
    Client::new("https://10.90.224.175/cvpservice", User::new("cvpadmin", "arista"))
}

fn absent(d: &Device) -> bool {
    d.model_name.is_none()
        && d.internal_version.is_none()
        && d.system_mac_address.is_none()
        && d.mem_total.is_none()
        && d.mem_free.is_none()
        && d.bootup_timestamp.is_none()
        && d.version.is_none()
        && d.architecture.is_none()
        && d.internal_build.is_none()
        && d.hardware_revision.is_none()
        && d.domain_name.is_none()
        && d.hostname.is_none()
        && d.fqdn.is_none()
        && d.serial_number.is_none()
        && d.danz_enabled.is_none()
        && d.mlag_enabled.is_none()
        && d.parent_container_key.is_none()
        && d.status.is_none()
        && d.compliance_code.is_none()
        && d.compliance_indication.is_none()
        && d.ztp_mode.is_none()
        && d.unauthorized.is_none()
        && d.ip_address.is_none()
}

#[test]
fn user_new_keeps_both_strings() {
    let u = User::new("cvpadmin", "arista");
    assert_eq!(u.username, "cvpadmin");
    assert_eq!(u.password, "arista");
    let empty = User::new("", "");
    assert_eq!(empty.username, "");
    assert_eq!(empty.password, "");
}

#[test]
fn login_json_has_exactly_user_id_and_password() {
    let v = User::new("cvpadmin", "arista").to_json();
    assert_eq!(v, object(vec![("userId", text("cvpadmin")), ("password", text("arista"))]));
}

#[test]
fn login_json_round_trip_keeps_unicode_and_quotes() {
    let u = User::new("ad\u{e9}min \u{1F600}", "p\"a\\ss,}{");
    let back = User::from_json(&u.to_json()).unwrap();
    assert_eq!(back, u);
}

#[test]
fn identity_decode_needs_both_string_fields() {
    let missing = object(vec![("userId", text("a"))]);
    assert!(matches!(User::from_json(&missing), Err(ClientError::Decode(_))));
    let wrong = object(vec![("userId", text("a")), ("password", JsonValue::Bool(true))]);
    assert!(matches!(User::from_json(&wrong), Err(ClientError::Decode(_))));
    assert!(matches!(User::from_json(&text("a")), Err(ClientError::Decode(_))));
    let extra = object(vec![("password", text("p")), ("x", JsonValue::Null), ("userId", text("u"))]);
    assert_eq!(User::from_json(&extra).unwrap(), User::new("u", "p"));
}

#[test]
fn login_request_posts_identity_to_login_endpoint() {
    let r = client().login_request();
    assert_eq!(r.method, Method::Post);
    assert_eq!(r.url, "https://10.90.224.175/cvpservice/login/authenticate.do");
    assert_eq!(r.body, Some(User::new("cvpadmin", "arista").to_json()));
}

#[test]
fn get_joins_base_url_and_path() {
    let r = client().get("/inventory/devices");
    assert_eq!(r.method, Method::Get);
    assert_eq!(r.url, "https://10.90.224.175/cvpservice/inventory/devices");
    assert!(r.body.is_none());
}

#[test]
fn inventory_path_without_filter() {
    assert_eq!(Client::inventory_path(false), "/inventory/devices");
}

#[test]
fn inventory_path_with_provisioned_filter_keeps_spelling() {
    assert_eq!(Client::inventory_path(true), "/inventory/devices?provisoined=true");
    let r = client().inventory_request(true);
    assert_eq!(r.method, Method::Get);
    assert_eq!(r.url, "https://10.90.224.175/cvpservice/inventory/devices?provisoined=true");
}

#[test]
fn new_client_is_not_authenticated_and_accepts_invalid_certs() {
    let mut c = client();
    assert_eq!(c.session, Session::Created);
    assert!(!c.is_authenticated());
    assert!(c.accept_invalid_certs);
    c.set_accept_invalid_certs(false);
    assert!(!c.accept_invalid_certs);
    assert_eq!(c.base_url, "https://10.90.224.175/cvpservice");
}

#[test]
fn authenticate_after_delivery_marks_session() {
    let c = client().authenticate(Ok(())).unwrap();
    assert!(c.is_authenticated());
    assert_eq!(c.user, User::new("cvpadmin", "arista"));
    assert_eq!(c.base_url, "https://10.90.224.175/cvpservice");
}

#[test]
fn authenticate_transport_failure_is_transport_error() {
    let r = client().authenticate(Err("connection refused".to_string()));
    assert_eq!(r.unwrap_err(), ClientError::Transport("connection refused".to_string()));
}

#[test]
fn inventory_transport_failure_is_transport_error() {
    let r = client().get_inventory(Reply::Unreachable("unreachable".to_string()));
    assert_eq!(r.unwrap_err(), ClientError::Transport("unreachable".to_string()));
}

#[test]
fn inventory_malformed_body_is_decode_error() {
    let r = client().get_inventory(Reply::Malformed("expected value".to_string()));
    assert_eq!(r.unwrap_err(), ClientError::Decode("expected value".to_string()));
    let not_array = client().get_inventory(Reply::Body(text("not json")));
    assert!(matches!(not_array, Err(ClientError::Decode(_))));
}

#[test]
fn device_with_no_fields_decodes_as_all_absent() {
    let d = Device::from_json(&object(vec![])).unwrap();
    assert!(absent(&d));
}

#[test]
fn device_with_null_fields_decodes_as_absent() {
    let v = object(vec![("modelName", JsonValue::Null), ("memTotal", JsonValue::Null), ("ztpMode", JsonValue::Null)]);
    let d = Device::from_json(&v).unwrap();
    assert!(absent(&d));
}

#[test]
fn device_fields_of_every_kind_decode() {
    let v = object(vec![
        ("hostname", text("leaf1")),
        ("memTotal", number(Some(8000000), "8000000")),
        ("memFree", number(Some(0), "0")),
        ("bootupTimestamp", number(None, "1546300800.5")),
        ("mlagEnabled", JsonValue::Bool(true)),
        ("complianceIndiciation", text("WARNING")),
        ("unknownField", JsonValue::Array(vec![])),
    ]);
    let d = Device::from_json(&v).unwrap();
    assert_eq!(d.hostname, Some("leaf1".to_string()));
    assert_eq!(d.mem_total, Some(8000000));
    assert_eq!(d.mem_free, Some(0));
    assert_eq!(d.bootup_timestamp, Some(JsonNumber { unsigned: None, literal: "1546300800.5".to_string() }));
    assert_eq!(d.mlag_enabled, Some(true));
    assert_eq!(d.compliance_indication, Some("WARNING".to_string()));
    assert_eq!(d.model_name, None);
}

#[test]
fn device_field_of_wrong_type_is_decode_error() {
    let v = object(vec![("hostname", JsonValue::Bool(false))]);
    assert!(matches!(Device::from_json(&v), Err(ClientError::Decode(_))));
    let negative = object(vec![("memTotal", number(None, "-1"))]);
    assert!(matches!(Device::from_json(&negative), Err(ClientError::Decode(_))));
    let flag = object(vec![("ztpMode", text("yes"))]);
    assert!(matches!(Device::from_json(&flag), Err(ClientError::Decode(_))));
    assert!(matches!(Device::from_json(&JsonValue::Null), Err(ClientError::Decode(_))));
}

#[test]
fn first_member_of_a_name_is_used() {
    let v = object(vec![("hostname", text("a")), ("hostname", JsonValue::Bool(true))]);
    assert_eq!(Device::from_json(&v).unwrap().hostname, Some("a".to_string()));
}

#[test]
fn inventory_decodes_partial_records_in_order() {
    let body = JsonValue::Array(vec![
        object(vec![("serialNumber", text("S1"))]),
        object(vec![]),
        object(vec![("serialNumber", JsonValue::Null), ("hostname", text("h3"))]),
    ]);
    let ds = client().get_inventory(Reply::Body(body)).unwrap();
    assert_eq!(ds.len(), 3);
    assert_eq!(ds[0].serial_number, Some("S1".to_string()));
    assert!(absent(&ds[1]));
    assert_eq!(ds[2].serial_number, None);
    assert_eq!(ds[2].hostname, Some("h3".to_string()));
}

#[test]
fn inventory_with_one_bad_element_is_decode_error() {
    let body = JsonValue::Array(vec![object(vec![]), text("device")]);
    assert!(matches!(client().get_inventory(Reply::Body(body)), Err(ClientError::Decode(_))));
}

#[test]
fn empty_inventory_decodes_to_no_devices() {
    let ds = client().get_inventory(Reply::Body(JsonValue::Array(vec![]))).unwrap();
    assert!(ds.is_empty());
}

#[test]
fn login_then_inventory_of_one_device() {
    let c = client().authenticate(Ok(())).unwrap();
    let body = JsonValue::Array(vec![object(vec![("modelName", text("vEOS")), ("serialNumber", text("ABC123"))])]);
    let ds = c.get_inventory(Reply::Body(body)).unwrap();
    assert_eq!(ds.len(), 1);
    let mut d = ds[0].clone();
    assert_eq!(d.model_name, Some("vEOS".to_string()));
    assert_eq!(d.serial_number, Some("ABC123".to_string()));
    d.model_name = None;
    d.serial_number = None;
    assert!(absent(&d));
}
