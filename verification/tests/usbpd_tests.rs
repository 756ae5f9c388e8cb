use mini_power_unit::httpserver::PDOInfoSimple;
use mini_power_unit::usbpd::{
    pdo_limits, plan_request, select_pdo, FixedVoltage, PdAction, PdControl, PdControlStage, PdError,
    PdRequest, AP33772S,
};

fn fixed(pdo_index: u8, voltage_mv: u16) -> PDOInfoSimple {
    PDOInfoSimple { pdo_index, voltage_mv, current_ma: 3000, max_power_mw: voltage_mv as u32 * 3, is_fixed: true }
}

fn variable(pdo_index: u8, voltage_mv: u16) -> PDOInfoSimple {
    PDOInfoSimple { pdo_index, voltage_mv, current_ma: 5000, max_power_mw: voltage_mv as u32 * 5, is_fixed: false }
}

#[test]
fn no_pdo_no_request() {
    assert_eq!(select_pdo(&vec![], 5000), None);
    assert_eq!(plan_request(&vec![], 5000, 3000), Err(PdError::NoSuitablePdo));
}

#[test]
fn variable_pdo_serves_exact_voltage() {
    let pdos = vec![fixed(1, 5000), fixed(2, 9000), variable(3, 21000)];
    assert_eq!(select_pdo(&pdos, 12000), Some(2));
    assert_eq!(plan_request(&pdos, 12000, 3000), Ok(PdRequest::Custom { voltage_mv: 12000, current_ma: 3000 }));
}

#[test]
fn variable_pdo_caps_at_its_maximum() {
    let pdos = vec![variable(4, 11000)];
    assert_eq!(plan_request(&pdos, 12000, 5000), Ok(PdRequest::Custom { voltage_mv: 11000, current_ma: 5000 }));
}

#[test]
fn fixed_tie_prefers_the_pdo_above_the_request() {
    let pdos = vec![fixed(1, 5000), fixed(2, 9000), fixed(3, 15000), fixed(4, 20000)];
    assert_eq!(select_pdo(&pdos, 12000), Some(2));
    assert_eq!(
        plan_request(&pdos, 12000, 3000),
        Ok(PdRequest::Fixed { voltage: FixedVoltage::V15, pdo_voltage_mv: 15000 })
    );
}

#[test]
fn closer_fixed_pdo_beats_short_variable_one() {
    let pdos = vec![fixed(1, 5000), fixed(2, 9000), fixed(3, 12000), variable(4, 11000)];
    assert_eq!(select_pdo(&pdos, 12000), Some(2));
    assert_eq!(
        plan_request(&pdos, 12000, 3000),
        Ok(PdRequest::Fixed { voltage: FixedVoltage::V12, pdo_voltage_mv: 12000 })
    );
}

#[test]
fn variable_pdo_that_reaches_the_request_beats_exact_fixed() {
    let pdos = vec![fixed(1, 12000), variable(2, 21000)];
    assert_eq!(select_pdo(&pdos, 12000), Some(1));
}

#[test]
fn short_variable_pdo_can_lose_to_closer_fixed_after_variable_switch() {
    // A variable PDO reaching the request is replaced by a closer variable
    // one below it, which a later exact fixed PDO then beats.
    let pdos = vec![variable(1, 20000), variable(2, 9000), fixed(3, 10000)];
    assert_eq!(select_pdo(&pdos, 10000), Some(2));
}

#[test]
fn fixed_voltage_thresholds() {
    assert_eq!(FixedVoltage::for_fixed_pdo(5000), FixedVoltage::V5);
    assert_eq!(FixedVoltage::for_fixed_pdo(6500), FixedVoltage::V5);
    assert_eq!(FixedVoltage::for_fixed_pdo(6501), FixedVoltage::V9);
    assert_eq!(FixedVoltage::for_fixed_pdo(10500), FixedVoltage::V9);
    assert_eq!(FixedVoltage::for_fixed_pdo(13500), FixedVoltage::V12);
    assert_eq!(FixedVoltage::for_fixed_pdo(17500), FixedVoltage::V15);
    assert_eq!(FixedVoltage::for_fixed_pdo(24000), FixedVoltage::V20);
    assert_eq!(FixedVoltage::for_fixed_pdo(24001), FixedVoltage::V28);
    assert_eq!(FixedVoltage::V28.millivolts(), 28000);
}

#[test]
fn limits_are_the_largest_voltage_and_current() {
    assert_eq!(pdo_limits(&vec![]), (0, 0));
    let pdos = vec![fixed(1, 5000), variable(2, 11000), fixed(3, 20000)];
    assert_eq!(pdo_limits(&pdos), (20000, 5000));
}

#[test]
fn reported_voltage_of_requests() {
    assert_eq!(PdRequest::Custom { voltage_mv: 7300, current_ma: 3000 }.reported_voltage_mv(), 7300);
    assert_eq!(PdRequest::Fixed { voltage: FixedVoltage::V9, pdo_voltage_mv: 9000 }.reported_voltage_mv(), 9000);
}

#[test]
fn control_sequence_custom_succeeds_first() {
    let (mut c, a) = PdControl::begin(true, 12000, false);
    assert_eq!(a, PdAction::RequestCustom { voltage_mv: 12000, current_ma: 5000 });
    assert_eq!(c.step(true, 12000), PdAction::Finish { result: Ok(12000) });
    assert_eq!(c.stage, PdControlStage::Finished);
}

#[test]
fn control_sequence_falls_back_to_3a_then_5v() {
    let (mut c, _) = PdControl::begin(true, 12000, false);
    assert_eq!(c.step(false, 0), PdAction::RequestCustom { voltage_mv: 12000, current_ma: 3000 });
    assert_eq!(c.step(false, 0), PdAction::RequestFixed { voltage: FixedVoltage::V5 });
    assert_eq!(c.step(true, 0), PdAction::Finish { result: Ok(5000) });
}

#[test]
fn control_sequence_fails_when_everything_fails() {
    let (mut c, _) = PdControl::begin(true, 9000, false);
    c.step(false, 0);
    c.step(false, 0);
    assert_eq!(c.step(false, 0), PdAction::Finish { result: Err(PdError::RequestFailed) });
    assert_eq!(c.step(true, 0), PdAction::Finish { result: Err(PdError::RequestFailed) });
}

#[test]
fn control_sequence_accepts_five_volts_without_pd() {
    let (mut c, _) = PdControl::begin(true, 5000, true);
    c.step(false, 0);
    c.step(false, 0);
    assert_eq!(c.step(false, 0), PdAction::Finish { result: Ok(5000) });
}

#[test]
fn control_sequence_refuses_non_positive_voltage() {
    let (mut c, a) = PdControl::begin(false, 0, false);
    assert_eq!(a, PdAction::RequestFixed { voltage: FixedVoltage::V5 });
    assert_eq!(c.step(true, 0), PdAction::Finish { result: Err(PdError::VoltageNotPositive) });
}

#[test]
fn new_controller_has_no_pdo() {
    let ap = AP33772S::new();
    assert!(ap.get_pdo_list().is_empty());
    assert_eq!(ap.get_max_voltage(), 0);
    assert_eq!(ap.get_pdo_limits(), (0, 0));
    assert_eq!(ap.plan_custom_voltage(9000, 3000), Err(PdError::NoSuitablePdo));
}

/// A stand-in for the AP33772S on the I2C bus: it answers register reads
/// from a fixed register file.
struct FakeChip {
    reg: u8,
    srcpdo: [u8; 26],
}

impl embedded_hal::i2c::ErrorType for FakeChip {
    type Error = embedded_hal::i2c::ErrorKind;
}

impl embedded_hal::i2c::I2c for FakeChip {
    fn transaction(
        &mut self,
        _address: u8,
        operations: &mut [embedded_hal::i2c::Operation<'_>],
    ) -> Result<(), Self::Error> {
        for op in operations {
            match op {
                embedded_hal::i2c::Operation::Write(bytes) => {
                    if let Some(r) = bytes.first() {
                        self.reg = *r;
                    }
                }
                embedded_hal::i2c::Operation::Read(buf) => {
                    if self.reg == 0x20 {
                        let n = buf.len().min(self.srcpdo.len());
                        buf[..n].copy_from_slice(&self.srcpdo[..n]);
                    } else {
                        for b in buf.iter_mut() {
                            *b = 0;
                        }
                    }
                }
            }
        }
        Ok(())
    }
}

fn enumerated_controller() -> AP33772S {
    let mut srcpdo = [0u8; 26];
    // PDO1: fixed 5 V 3 A; PDO2: fixed 9 V 3 A; PDO3: programmable up to 21 V at 5 A.
    for (i, word) in [0xA032u16, 0xA05A, 0xFCD2].iter().enumerate() {
        srcpdo[2 * i] = (*word & 0xFF) as u8;
        srcpdo[2 * i + 1] = (*word >> 8) as u8;
    }
    let mut chip = FakeChip { reg: 0, srcpdo };
    let mut ap = AP33772S::new();
    ap.driver.init(&mut chip).unwrap();
    ap
}

#[test]
fn enumerated_pdo_list_is_read_through_the_driver() {
    let ap = enumerated_controller();
    let pdos = ap.get_pdo_list();
    let view: Vec<(u8, u16, u16, u32, bool)> =
        pdos.iter().map(|p| (p.pdo_index, p.voltage_mv, p.current_ma, p.max_power_mw, p.is_fixed)).collect();
    assert_eq!(view, vec![(1, 5000, 3000, 15000, true), (2, 9000, 3000, 27000, true), (3, 21000, 5000, 105000, false)]);
    assert_eq!(ap.get_max_voltage(), 21000);
    assert_eq!(ap.get_pdo_limits(), (21000, 5000));
}

#[test]
fn enumerated_controller_plans_custom_voltage() {
    let ap = enumerated_controller();
    assert_eq!(ap.plan_custom_voltage(12000, 3000), Ok(PdRequest::Custom { voltage_mv: 12000, current_ma: 3000 }));
    assert_eq!(ap.plan_custom_voltage(25000, 3000), Ok(PdRequest::Custom { voltage_mv: 21000, current_ma: 3000 }));
}
