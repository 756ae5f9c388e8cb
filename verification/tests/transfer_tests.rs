use mini_power_unit::transfer::{authorization, is_delivered, request_url, CurrentLog, ServerInfo, Transfer, MAX_BATCH};

fn server() -> ServerInfo {
    ServerInfo::new(
        "influx.local:8086".to_string(),
        "SECRET-REDACTED".to_string(),
        "/api/v2/write?org=lab&bucket=power".to_string(),
        "minipower".to_string(),
        "bench1".to_string(),
    )
}

fn sample(clock: u128) -> CurrentLog {
    CurrentLog {
        current: "0.50000".to_string(),
        voltage: "12.00000".to_string(),
        power: "6.00000".to_string(),
        battery: "0.00".to_string(),
        temp: "31.0".to_string(),
        rpm: 0,
        pwm: 12,
        clock,
    }
}

#[test]
fn server_info_new_puts_arguments_in_their_fields() {
    let s = server();
    assert_eq!(s.server, "influx.local:8086");
    assert_eq!(s.influxdb_api_key, "SECRET-REDACTED");
    assert_eq!(s.influxdb_api, "/api/v2/write?org=lab&bucket=power");
    assert_eq!(s.influxdb_measurement, "minipower");
    assert_eq!(s.influxdb_tag, "bench1");
}

#[test]
fn new_transfer_has_nothing_pending() {
    let t = Transfer::new(server());
    assert_eq!(t.pending_body(), None);
}

#[test]
fn offered_samples_become_line_protocol() {
    let mut t = Transfer::new(server());
    let n = t.set_transfer_data(&vec![sample(1700000000000000000), sample(1700000000100000000)]);
    assert_eq!(n, 2);
    assert_eq!(
        t.pending_body().unwrap(),
        "minipower,tag=bench1 current=0.50000,voltage=12.00000,power=6.00000,bat=0.00,temp=31.0,rpm=0,pwm=12 1700000000000000000\n\
         minipower,tag=bench1 current=0.50000,voltage=12.00000,power=6.00000,bat=0.00,temp=31.0,rpm=0,pwm=12 1700000000100000000\n"
    );
}

#[test]
fn empty_offer_takes_nothing() {
    let mut t = Transfer::new(server());
    assert_eq!(t.set_transfer_data(&vec![]), 0);
    assert_eq!(t.pending_body(), None);
}

#[test]
fn offer_while_pending_is_refused() {
    let mut t = Transfer::new(server());
    assert_eq!(t.set_transfer_data(&vec![sample(1)]), 1);
    let before = t.pending_body();
    assert_eq!(t.set_transfer_data(&vec![sample(2)]), 0);
    assert_eq!(t.pending_body(), before);
}

#[test]
fn one_upload_carries_at_most_128_samples() {
    let mut t = Transfer::new(server());
    let samples: Vec<CurrentLog> = (0..130).map(|i| sample(i as u128)).collect();
    assert_eq!(t.set_transfer_data(&samples), MAX_BATCH);
    let body = t.pending_body().unwrap();
    assert_eq!(body.lines().count(), 128);
    assert!(body.ends_with(" 127\n"));
}

#[test]
fn delivered_upload_reopens_the_uploader() {
    let mut t = Transfer::new(server());
    t.set_transfer_data(&vec![sample(1)]);
    t.finish_transfer(true);
    assert_eq!(t.pending_body(), None);
    assert_eq!(t.set_transfer_data(&vec![sample(2)]), 1);
    assert!(t.pending_body().unwrap().ends_with(" 2\n"));
}

#[test]
fn failed_upload_stays_pending_with_empty_body() {
    let mut t = Transfer::new(server());
    t.set_transfer_data(&vec![sample(1)]);
    t.finish_transfer(false);
    assert_eq!(t.pending_body(), Some(String::new()));
    assert_eq!(t.set_transfer_data(&vec![sample(2)]), 0);
}

#[test]
fn upload_request_url_and_header() {
    let s = server();
    assert_eq!(request_url(&s), "http://influx.local:8086/api/v2/write?org=lab&bucket=power");
    assert_eq!(authorization(&s), "Token SECRET-REDACTED");
    assert!(is_delivered(204));
    assert!(!is_delivered(200));
    assert!(!is_delivered(401));
}
