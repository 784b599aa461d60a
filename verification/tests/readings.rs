use tibber_optimizer::config::default_client_id;
use tibber_optimizer::config::default_mqtt_port;
use tibber_optimizer::config::MqttConfig;
use tibber_optimizer::mqtt::BatteryState;
use tibber_optimizer::telemetry::parse_mqtt_value;
use tibber_optimizer::telemetry::parse_victron_soc;
use tibber_optimizer::telemetry::read_plain_value;
use tibber_optimizer::telemetry::read_reported_soc;
use tibber_optimizer::telemetry::soc_from_micros;
use tibber_optimizer::telemetry::watts_from_micros;
use tibber_optimizer::telemetry::Channel;
use tibber_optimizer::telemetry::Json;
use tibber_optimizer::telemetry::Member;

fn object(members: Vec<(&str, Json)>) -> Json {
    Json::Object(
        members
            .into_iter()
            .map(|(name, value)| Member { name: String::from(name), value })
            .collect(),
    )
}

/// `{"value": [{"soc": 75.5, "voltage": 52.1}]}`
fn battery_report() -> Json {
    object(vec![(
        "value",
        Json::Array(vec![
            object(vec![("voltage", Json::Number(52_100_000)), ("soc", Json::Number(75_500_000))]),
            object(vec![("soc", Json::Number(1_000_000))]),
        ]),
    )])
}

/// `{"value": 80}`
fn simple(micros: i64) -> Json {
    object(vec![("value", Json::Number(micros))])
}

fn topics() -> MqttConfig {
    MqttConfig {
        host: String::from("broker"),
        port: default_mqtt_port(),
        username: None,
        password: None,
        client_id: default_client_id(),
        soc_topic: String::from("N/battery/soc"),
        grid_setpoint_read_topic: String::from("N/grid/setpoint"),
        grid_setpoint_write_topic: String::from("W/grid/setpoint"),
        price_topic: String::from("tibber/price/current"),
    }
}

#[test]
fn members_are_found_by_name() {
    let doc = object(vec![
        ("a", Json::Number(1)),
        ("value", Json::Bool(true)),
        ("value", Json::Null),
        ("", Json::Text(String::from("x"))),
    ]);
    assert_eq!(doc.get("a"), Some(&Json::Number(1)));
    assert_eq!(doc.get("value"), Some(&Json::Bool(true)));
    assert_eq!(doc.get(""), Some(&Json::Text(String::from("x"))));
    assert_eq!(doc.get("b"), None);
    assert_eq!(doc.get("valu"), None);
    assert_eq!(Json::Array(vec![Json::Null]).get("a"), None);
    assert_eq!(Json::Number(5).get("a"), None);
    assert_eq!(object(vec![]).get("a"), None);
}

#[test]
fn first_item_of_an_array() {
    let items = Json::Array(vec![Json::Number(7), Json::Null]);
    assert_eq!(items.first_item(), Some(&Json::Number(7)));
    assert_eq!(Json::Array(Vec::new()).first_item(), None);
    assert_eq!(simple(1).first_item(), None);
    assert_eq!(Json::Null.first_item(), None);
}

#[test]
fn numbers_only_from_numbers() {
    assert_eq!(Json::Number(-3).as_number(), Some(-3));
    assert_eq!(Json::Text(String::from("3")).as_number(), None);
    assert_eq!(Json::Bool(true).as_number(), None);
    assert_eq!(Json::Null.as_number(), None);
    assert_eq!(Json::Array(vec![Json::Number(1)]).as_number(), None);
}

#[test]
fn state_of_charge_from_the_battery_report() {
    assert_eq!(read_reported_soc(&battery_report()), Some(75_500_000));
    assert_eq!(read_reported_soc(&simple(80_000_000)), None);
    let empty = object(vec![("value", Json::Array(Vec::new()))]);
    assert_eq!(read_reported_soc(&empty), None);
    let no_soc = object(vec![("value", Json::Array(vec![object(vec![("v", Json::Number(1))])]))]);
    assert_eq!(read_reported_soc(&no_soc), None);
    let text = object(vec![(
        "value",
        Json::Array(vec![object(vec![("soc", Json::Text(String::from("75")))])]),
    )]);
    assert_eq!(read_reported_soc(&text), None);
    assert_eq!(read_reported_soc(&Json::Number(75_000_000)), None);
}

#[test]
fn plain_value_of_a_document() {
    assert_eq!(read_plain_value(&simple(80_000_000)), Some(80_000_000));
    assert_eq!(read_plain_value(&battery_report()), None);
    assert_eq!(read_plain_value(&object(vec![("other", Json::Number(1))])), None);
    assert_eq!(read_plain_value(&Json::Number(1)), None);
}

#[test]
fn state_of_charge_prefers_the_report_then_the_value_then_the_bare_number() {
    assert_eq!(parse_victron_soc(Some(&battery_report()), Some(1)), Some(75_500_000));
    assert_eq!(parse_victron_soc(Some(&simple(80_000_000)), Some(1)), Some(80_000_000));
    assert_eq!(parse_victron_soc(Some(&Json::Number(64_000_000)), Some(64_000_000)), Some(64_000_000));
    assert_eq!(parse_victron_soc(None, Some(12_000_000)), Some(12_000_000));
    assert_eq!(parse_victron_soc(Some(&Json::Null), None), None);
    assert_eq!(parse_victron_soc(None, None), None);
}

#[test]
fn value_prefers_the_bare_number() {
    assert_eq!(parse_mqtt_value(Some(&simple(80_000_000)), Some(1)), Some(1));
    assert_eq!(parse_mqtt_value(Some(&simple(80_000_000)), None), Some(80_000_000));
    assert_eq!(parse_mqtt_value(Some(&battery_report()), None), None);
    assert_eq!(parse_mqtt_value(None, Some(-5)), Some(-5));
    assert_eq!(parse_mqtt_value(None, None), None);
}

#[test]
fn state_of_charge_is_rounded_to_a_thousandth_of_a_percent() {
    assert_eq!(soc_from_micros(75_500_000), 75_500);
    assert_eq!(soc_from_micros(75_500_499), 75_500);
    assert_eq!(soc_from_micros(75_500_500), 75_501);
    assert_eq!(soc_from_micros(0), 0);
    assert_eq!(soc_from_micros(499), 0);
    assert_eq!(soc_from_micros(500), 1);
    assert_eq!(soc_from_micros(-1), 0);
    assert_eq!(soc_from_micros(i64::MIN), 0);
    assert_eq!(soc_from_micros(4_294_967_295_499), u32::MAX);
    assert_eq!(soc_from_micros(4_294_967_294_499), u32::MAX - 1);
    assert_eq!(soc_from_micros(i64::MAX), u32::MAX);
}

#[test]
fn watts_are_rounded_away_from_zero_at_the_half() {
    assert_eq!(watts_from_micros(200_000_000), 200);
    assert_eq!(watts_from_micros(200_499_999), 200);
    assert_eq!(watts_from_micros(200_500_000), 201);
    assert_eq!(watts_from_micros(-200_499_999), -200);
    assert_eq!(watts_from_micros(-200_500_000), -201);
    assert_eq!(watts_from_micros(0), 0);
    assert_eq!(watts_from_micros(i64::MAX), 9_223_372_036_855);
    assert_eq!(watts_from_micros(i64::MIN), -9_223_372_036_855);
}

#[test]
fn topics_are_told_apart() {
    let topics = topics();
    assert_eq!(topics.channel("N/battery/soc"), Some(Channel::StateOfCharge));
    assert_eq!(topics.channel("N/grid/setpoint"), Some(Channel::GridSetpoint));
    assert_eq!(topics.channel("W/grid/setpoint"), None);
    assert_eq!(topics.channel("N/battery/soc/"), None);
    assert_eq!(topics.channel(""), None);
    let mut shared = topics;
    shared.grid_setpoint_read_topic = String::from("N/battery/soc");
    assert_eq!(shared.channel("N/battery/soc"), Some(Channel::StateOfCharge));
}

#[test]
fn state_of_charge_message_is_taken_in() {
    let mut state = BatteryState::default();
    let taken = state.apply_message(&topics(), "N/battery/soc", Some(&battery_report()), None, 42);
    assert!(taken);
    assert_eq!(
        state,
        BatteryState {
            soc_mpct: 75_500,
            current_setpoint_w: None,
            last_soc_update: Some(42),
            last_setpoint_update: None,
        }
    );
    assert!(state.apply_message(&topics(), "N/battery/soc", None, Some(12_345_678), 43));
    assert_eq!(state.soc_mpct, 12_346);
    assert_eq!(state.last_soc_update, Some(43));
}

#[test]
fn setpoint_message_is_taken_in() {
    let mut state = BatteryState::default();
    let doc = simple(-150_000_000);
    assert!(state.apply_message(&topics(), "N/grid/setpoint", Some(&doc), None, 7));
    assert_eq!(
        state,
        BatteryState {
            soc_mpct: 0,
            current_setpoint_w: Some(-150),
            last_soc_update: None,
            last_setpoint_update: Some(7),
        }
    );
    assert!(!state.has_reported_soc());
}

#[test]
fn messages_without_a_reading_change_nothing() {
    let mut state = BatteryState::default();
    state.record_soc(50_000, 1);
    let before = state;
    assert!(!state.apply_message(&topics(), "N/battery/soc", Some(&Json::Null), None, 9));
    assert!(!state.apply_message(&topics(), "N/grid/setpoint", Some(&battery_report()), None, 9));
    assert!(!state.apply_message(&topics(), "elsewhere", Some(&simple(1)), Some(1), 9));
    assert!(!state.apply_message(&topics(), "N/battery/soc", None, None, 9));
    assert_eq!(state, before);
}
