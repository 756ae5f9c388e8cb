use mini_power_unit::httpserver::{form_value, parse_output_request, pdo_list_json, PDOInfoSimple};

fn pdo(pdo_index: u8, voltage_mv: u16, current_ma: u16, max_power_mw: u32, is_fixed: bool) -> PDOInfoSimple {
    PDOInfoSimple { pdo_index, voltage_mv, current_ma, max_power_mw, is_fixed }
}

#[test]
fn empty_pdo_list_json() {
    assert_eq!(pdo_list_json(&vec![]), r#"{"pdos":[]}"#);
}

#[test]
fn pdo_list_json_lists_every_pdo_in_order() {
    let pdos = vec![pdo(1, 5000, 3000, 15000, true), pdo(8, 28000, 5000, 140000, false)];
    assert_eq!(
        pdo_list_json(&pdos),
        r#"{"pdos":[{"pdo_index":1,"voltage_mv":5000,"current_ma":3000,"max_power_mw":15000,"is_fixed":true},{"pdo_index":8,"voltage_mv":28000,"current_ma":5000,"max_power_mw":140000,"is_fixed":false}]}"#
    );
}

#[test]
fn output_request_bodies() {
    assert_eq!(parse_output_request(b"value=1"), Some(true));
    assert_eq!(parse_output_request(b"value=0"), Some(false));
    assert_eq!(parse_output_request(b"value=255"), Some(true));
    assert_eq!(parse_output_request(b"value=256"), None);
    assert_eq!(parse_output_request(b"value="), None);
    assert_eq!(parse_output_request(b"value=on"), None);
    assert_eq!(parse_output_request(b"val=1"), None);
    assert_eq!(parse_output_request(b""), None);
}

#[test]
fn form_value_strips_the_prefix() {
    assert_eq!(form_value(b"value=12.5"), Some(b"12.5".to_vec()));
    assert_eq!(form_value(b"value="), Some(vec![]));
    assert_eq!(form_value(b"Value=1"), None);
    assert_eq!(form_value(b"value"), None);
}
