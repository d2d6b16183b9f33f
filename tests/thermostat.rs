use thermosmart::decimal::parse_decimal;
use thermosmart::{
    decode_fields, decode_flag, decode_status, opt_f64, resolve_endpoint, status_from_response,
    DecodeError, Decimal, RawThermostatData, Thermostat, ThermostatError, MAX_REDIRECTS,
};

fn value(d: &Decimal) -> f64 {
    let mut text = String::new();
    if d.negative {
        text.push('-');
    }
    let split = d.digits.len() - d.scale;
    for (i, digit) in d.digits.iter().enumerate() {
        if i == split {
            text.push('.');
        }
        text.push((b'0' + digit) as char);
    }
    text.parse().unwrap()
}

fn document(outside: &str) -> String {
    format!(
        r#"<?xml version="1.0" encoding="utf-8"?>
        <thermostat>
                <setpoint>14.0</setpoint>
                <temperature>20.3</temperature>
                <outside>{outside}</outside>
                <pause>1</pause>
                <heating>0</heating>
        </thermostat>"#
    )
}

fn fields(pairs: &[(&str, &str)]) -> Vec<(String, String)> {
    pairs.iter().map(|(k, v)| (k.to_string(), v.to_string())).collect()
}

#[test]
fn parse_message() {
    let xml_message = r#"<?xml version="1.0" encoding="utf-8"?>
        <thermostat>
                <setpoint>14.0</setpoint>
                <temperature>20.3</temperature>
                <outside>---</outside>
                <pause>1</pause>
                <heating>0</heating>
        </thermostat>"#;

    let message: RawThermostatData = decode_status(xml_message.as_bytes()).unwrap();
    println!("{message:?}");
    assert_eq!(value(&message.setpoint), 14.0);
    assert_eq!(value(&message.temperature), 20.3);
    assert!(message.outside.is_none());
    assert!(message.pause);
    assert!(!message.heating);
}

#[test]
fn sample_document_with_outside_reading() {
    let status = decode_status(document("5.5").as_bytes()).unwrap();
    assert_eq!(value(&status.setpoint), 14.0);
    assert_eq!(value(&status.temperature), 20.3);
    assert_eq!(status.outside.as_ref().map(value), Some(5.5));
    assert!(status.pause);
    assert!(!status.heating);
}

#[test]
fn sample_document_with_bad_outside_reading() {
    match decode_status(document("warm").as_bytes()) {
        Err(DecodeError::InvalidOptionalFloat(text)) => assert!(text.contains("warm")),
        other => panic!("unexpected {other:?}"),
    }
}

#[test]
fn body_that_is_not_xml() {
    assert!(matches!(decode_status(b"not xml at all <"), Err(DecodeError::Xml(_))));
}

#[test]
fn sentinel_is_absent() {
    assert!(matches!(opt_f64("---"), Ok(None)));
}

#[test]
fn decimal_outside_is_present() {
    let d = opt_f64("-12.25").unwrap().unwrap();
    assert!(d.negative);
    assert_eq!(d.digits, vec![1, 2, 2, 5]);
    assert_eq!(d.scale, 2);
    assert_eq!(value(&d), -12.25);
    let zero = opt_f64("0").unwrap().unwrap();
    assert_eq!(value(&zero), 0.0);
}

#[test]
fn other_outside_text_is_error() {
    for text in ["", "--", "----", "1.2.3", "abc", ".", "-", "5,5"] {
        match opt_f64(text) {
            Err(DecodeError::InvalidOptionalFloat(t)) => assert_eq!(t, text),
            other => panic!("{text:?} gave {other:?}"),
        }
    }
}

#[test]
fn decimals_exact() {
    let d = parse_decimal("+007.50").unwrap();
    assert!(!d.negative);
    assert_eq!(d.digits, vec![0, 0, 7, 5, 0]);
    assert_eq!(d.scale, 2);
    let d = parse_decimal(".5").unwrap();
    assert_eq!((d.digits.clone(), d.scale), (vec![5], 1));
    let d = parse_decimal("5.").unwrap();
    assert_eq!((d.digits.clone(), d.scale), (vec![5], 0));
    let long = "1234567890123456789012345678901234567890.5";
    let d = parse_decimal(long).unwrap();
    assert_eq!(d.digits.len(), 41);
    assert_eq!(d.scale, 1);
    assert!(parse_decimal("1e3").is_none());
    assert!(parse_decimal(" 1").is_none());
}

#[test]
fn flags_one_and_zero() {
    assert_eq!(decode_flag("1"), Some(true));
    assert_eq!(decode_flag("0"), Some(false));
    assert_eq!(decode_flag("true"), Some(true));
    assert_eq!(decode_flag("false"), Some(false));
    assert_eq!(decode_flag("2"), None);
    assert_eq!(decode_flag(""), None);
}

#[test]
fn fields_decode_in_any_order() {
    let fs = fields(&[
        ("heating", "1"),
        ("outside", "-3.0"),
        ("pause", "0"),
        ("setpoint", "21"),
        ("temperature", "19.5"),
    ]);
    let st = decode_fields(&fs).unwrap();
    assert_eq!(value(&st.setpoint), 21.0);
    assert_eq!(value(&st.temperature), 19.5);
    assert_eq!(st.outside.as_ref().map(value), Some(-3.0));
    assert!(!st.pause);
    assert!(st.heating);
}

#[test]
fn missing_field_is_error() {
    let fs = fields(&[("setpoint", "21"), ("outside", "---"), ("pause", "0"), ("heating", "1")]);
    match decode_fields(&fs) {
        Err(DecodeError::MissingField(name)) => assert_eq!(name, "temperature"),
        other => panic!("unexpected {other:?}"),
    }
}

#[test]
fn bad_number_and_flag_are_errors() {
    let fs = fields(&[
        ("setpoint", "hot"),
        ("temperature", "19.5"),
        ("outside", "---"),
        ("pause", "0"),
        ("heating", "1"),
    ]);
    match decode_fields(&fs) {
        Err(DecodeError::InvalidNumber { field, value }) => {
            assert_eq!((field.as_str(), value.as_str()), ("setpoint", "hot"))
        }
        other => panic!("unexpected {other:?}"),
    }
    let fs = fields(&[
        ("setpoint", "20"),
        ("temperature", "19.5"),
        ("outside", "---"),
        ("pause", "yes"),
        ("heating", "1"),
    ]);
    match decode_fields(&fs) {
        Err(DecodeError::InvalidFlag { field, value }) => {
            assert_eq!((field.as_str(), value.as_str()), ("pause", "yes"))
        }
        other => panic!("unexpected {other:?}"),
    }
}

#[test]
fn host_without_scheme_gets_http() {
    assert_eq!(resolve_endpoint("10.0.0.5").unwrap(), "http://10.0.0.5/");
    assert_eq!(resolve_endpoint("10.0.0.5:8080").unwrap(), "http://10.0.0.5:8080/");
    assert_eq!(resolve_endpoint("thermostat.local").unwrap(), "http://thermostat.local/");
}

#[test]
fn explicit_scheme_is_kept() {
    assert_eq!(resolve_endpoint("https://10.0.0.5").unwrap(), "https://10.0.0.5/");
    assert_eq!(resolve_endpoint("http://10.0.0.5:81/").unwrap(), "http://10.0.0.5:81/");
    assert_eq!(resolve_endpoint("HTTPS://device").unwrap(), "https://device/");
}

#[test]
fn invalid_endpoint_is_parse_error() {
    assert!(resolve_endpoint("").is_err());
    assert!(resolve_endpoint("http://[::1").is_err());
    assert!(resolve_endpoint("10.0.0.5:99999").is_err());
    assert!(matches!(Thermostat::create(""), Err(ThermostatError::ParseError(_))));
    assert!(matches!(
        Thermostat::create("http://exa mple.com"),
        Err(ThermostatError::ParseError(_))
    ));
}

#[test]
fn client_status_url() {
    let t = Thermostat::create("10.0.0.5:8080").unwrap();
    assert_eq!(t.base_url(), "http://10.0.0.5:8080/");
    assert_eq!(t.status_url().unwrap(), "http://10.0.0.5:8080/thermostat.xml");
    assert_eq!(MAX_REDIRECTS, 1);
}

#[test]
fn response_body_is_decoded() {
    let st = status_from_response(Ok(document("---").into_bytes())).unwrap();
    assert!(st.outside.is_none());
    assert!(matches!(
        status_from_response(Ok(document("warm").into_bytes())),
        Err(ThermostatError::DecodeError(DecodeError::InvalidOptionalFloat(_)))
    ));
}

#[test]
fn named_host_with_port_gets_http() {
    assert_eq!(resolve_endpoint("localhost:8080").unwrap(), "http://localhost:8080/");
    assert_eq!(resolve_endpoint("Thermostat:80").unwrap(), "http://thermostat/");
    let t = Thermostat::create("localhost:8080").unwrap();
    assert_eq!(t.status_url().unwrap(), "http://localhost:8080/thermostat.xml");
    assert!(resolve_endpoint("mailto:someone").is_err());
}

#[test]
fn decode_error_messages() {
    assert_eq!(
        DecodeError::InvalidOptionalFloat("warm".to_string()).message(),
        "Unable to parse 'warm' as optional float"
    );
    assert_eq!(DecodeError::MissingField("pause".to_string()).message(), "missing field 'pause'");
    let e = DecodeError::InvalidNumber { field: "setpoint".to_string(), value: "hot".to_string() };
    assert_eq!(e.message(), "Unable to parse 'hot' as a number in 'setpoint'");
    let e = DecodeError::InvalidFlag { field: "pause".to_string(), value: "yes".to_string() };
    assert_eq!(e.message(), "Unable to parse 'yes' as a flag in 'pause'");
    match decode_status(document("warm").as_bytes()) {
        Err(e) => assert!(e.message().contains("warm")),
        Ok(_) => panic!("decoded"),
    }
}
