//! USB-PD sink control on top of the AP33772S driver: choosing the PDO that
//! serves a requested voltage, mapping fixed PDOs to the controller's standard
//! voltages, the source's limits, and the retry sequence used when a voltage
//! is applied.

use vstd::prelude::*;
use crate::httpserver::PDOInfoSimple;
use ap33772s_driver::AP33772S as GenericAP33772S;

verus! {

#[verifier::external_type_specification]
#[verifier::external_body]
pub struct ExDriver(GenericAP33772S);

/// The PDO list held by an AP33772S driver value, each entry as
/// (index, voltage in mV, current in mA, power in mW, fixed).
pub uninterp spec fn driver_pdos(d: GenericAP33772S) -> Seq<(u8, u16, u16, u32, bool)>;

/// A PDO list entry as the library's record.
pub open spec fn record_of(t: (u8, u16, u16, u32, bool)) -> PDOInfoSimple {
    PDOInfoSimple { pdo_index: t.0, voltage_mv: t.1, current_ma: t.2, max_power_mw: t.3, is_fixed: t.4 }
}

/// The driver's PDO list as library records.
pub open spec fn pdo_records(d: GenericAP33772S) -> Seq<PDOInfoSimple> {
    driver_pdos(d).map_values(|t: (u8, u16, u16, u32, bool)| record_of(t))
}

/// Largest voltage in a PDO list, 0 for an empty list.
pub open spec fn max_voltage_of(s: Seq<(u8, u16, u16, u32, bool)>) -> u16
    decreases s.len(),
{
    if s.len() == 0 {
        0
    } else {
        let m = max_voltage_of(s.drop_last());
        if s.last().1 > m { s.last().1 } else { m }
    }
}

/// `ap33772s_driver::AP33772S::new`: the source states that a new driver
/// starts with an empty PDO list.
#[verifier::external_body]
fn driver_new() -> (d: GenericAP33772S)
    ensures
        driver_pdos(d) == Seq::<(u8, u16, u16, u32, bool)>::empty(),
{
    GenericAP33772S::new()
}

/// `ap33772s_driver::AP33772S::get_pdo_list`: the driver's PDO list, entry
/// by entry, in the driver's order, converted field for field.
#[verifier::external_body]
fn driver_pdo_list(d: &GenericAP33772S) -> (v: Vec<PDOInfoSimple>)
    ensures
        v@ == pdo_records(*d),
{
    d.get_pdo_list().iter().map(|p| PDOInfoSimple {
        pdo_index: p.pdo_index,
        voltage_mv: p.voltage_mv,
        current_ma: p.current_ma,
        max_power_mw: p.max_power_mw,
        is_fixed: p.is_fixed,
    }).collect()
}

/// `ap33772s_driver::AP33772S::get_max_voltage`: the source computes the
/// largest `voltage_mv` of the PDO list, or 0 when the list is empty.
#[verifier::external_body]
fn driver_max_voltage(d: &GenericAP33772S) -> (m: u16)
    ensures
        m == max_voltage_of(driver_pdos(*d)),
{
    d.get_max_voltage()
}


/// Distance between a PDO voltage and the requested voltage, in mV.
pub open spec fn voltage_diff(pdo_mv: u16, req_mv: u16) -> u32 {
    if pdo_mv >= req_mv {
        (pdo_mv - req_mv) as u32
    } else {
        (req_mv - pdo_mv) as u32
    }
}

/// Whether entry `i` replaces the current best candidate `best` in the scan
/// for `req_mv`: variable (programmable) PDOs that reach the request beat
/// fixed ones; a fixed PDO beats a variable best only when that best falls
/// short of the request and the fixed one is strictly closer; within one kind
/// the closer voltage wins, and on a tie a variable PDO with the higher
/// maximum wins, a fixed PDO at or above the request beats one below it, of
/// two below it the higher wins, and otherwise the higher power wins.
pub open spec fn replaces(pdos: Seq<PDOInfoSimple>, best: Option<int>, i: int, req_mv: u16) -> bool {
    let p = pdos[i];
    let variable = !p.is_fixed;
    let diff = voltage_diff(p.voltage_mv, req_mv);
    match best {
        None => true,
        Some(b) => {
            let cur = pdos[b];
            let best_variable = !cur.is_fixed;
            let best_diff = voltage_diff(cur.voltage_mv, req_mv);
            if variable && !best_variable {
                p.voltage_mv >= req_mv || diff < best_diff
            } else if !variable && best_variable {
                cur.voltage_mv < req_mv && diff < best_diff
            } else if diff < best_diff {
                true
            } else if diff == best_diff {
                if variable {
                    p.voltage_mv > cur.voltage_mv
                } else if p.voltage_mv >= req_mv && cur.voltage_mv < req_mv {
                    true
                } else if p.voltage_mv < req_mv && cur.voltage_mv < req_mv {
                    p.voltage_mv > cur.voltage_mv
                } else {
                    p.max_power_mw > cur.max_power_mw
                }
            } else {
                false
            }
        },
    }
}

/// The best candidate after scanning the first `n` entries of `pdos`.
pub open spec fn best_after(pdos: Seq<PDOInfoSimple>, req_mv: u16, n: nat) -> Option<int>
    decreases n,
{
    if n == 0 {
        None
    } else {
        let prev = best_after(pdos, req_mv, (n - 1) as nat);
        if replaces(pdos, prev, n - 1, req_mv) {
            Some(n - 1)
        } else {
            prev
        }
    }
}

/// The PDO chosen for a request of `req_mv`: the best candidate after
/// scanning the whole list in order.
pub open spec fn best_pdo(pdos: Seq<PDOInfoSimple>, req_mv: u16) -> Option<int> {
    best_after(pdos, req_mv, pdos.len())
}

proof fn lemma_best_after_bound(pdos: Seq<PDOInfoSimple>, req_mv: u16, n: nat)
    requires
        n <= pdos.len(),
    ensures
        best_after(pdos, req_mv, n) is None <==> n == 0,
        best_after(pdos, req_mv, n) matches Some(b) ==> 0 <= b < n,
    decreases n,
{
    if n > 0 {
        lemma_best_after_bound(pdos, req_mv, (n - 1) as nat);
    }
}

fn diff_of(pdo_mv: u16, req_mv: u16) -> (d: u32)
    ensures
        d == voltage_diff(pdo_mv, req_mv),
{
    if pdo_mv >= req_mv {
        (pdo_mv - req_mv) as u32
    } else {
        (req_mv - pdo_mv) as u32
    }
}

/// Chooses the PDO that serves a request of `voltage_mv`, scanning the list
/// in order (see `replaces`); `None` exactly when the list is empty.
pub fn select_pdo(pdos: &Vec<PDOInfoSimple>, voltage_mv: u16) -> (r: Option<usize>)
    ensures
        r is None <==> best_pdo(pdos@, voltage_mv) is None,
        r matches Some(i) ==> best_pdo(pdos@, voltage_mv) == Some(i as int),
        r is None <==> pdos@.len() == 0,
        r matches Some(i) ==> i < pdos@.len(),
{
    let mut best: Option<usize> = None;
    let mut best_diff: u32 = u32::MAX;
    let mut best_is_variable: bool = false;
    let mut i: usize = 0;
    while i < pdos.len()
        invariant
            i <= pdos@.len(),
            best is None <==> best_after(pdos@, voltage_mv, i as nat) is None,
            best matches Some(b) ==> best_after(pdos@, voltage_mv, i as nat) == Some(b as int),
            best matches Some(b) ==> b < i && best_diff == voltage_diff(pdos@[b as int].voltage_mv, voltage_mv)
                && best_is_variable == !pdos@[b as int].is_fixed,
        decreases pdos@.len() - i,
    {
        proof {
            lemma_best_after_bound(pdos@, voltage_mv, i as nat);
        }
        let pdo = pdos[i];
        let is_variable = !pdo.is_fixed;
        let diff = diff_of(pdo.voltage_mv, voltage_mv);
        let should_select = match best {
            None => true,
            Some(b) => {
                let current_best = pdos[b];
                if is_variable && !best_is_variable {
                    if pdo.voltage_mv >= voltage_mv {
                        true
                    } else {
                        diff < best_diff
                    }
                } else if !is_variable && best_is_variable {
                    if current_best.voltage_mv >= voltage_mv {
                        false
                    } else {
                        diff < best_diff
                    }
                } else if diff < best_diff {
                    true
                } else if diff == best_diff {
                    if is_variable {
                        pdo.voltage_mv > current_best.voltage_mv
                    } else if pdo.voltage_mv >= voltage_mv && current_best.voltage_mv < voltage_mv {
                        true
                    } else if pdo.voltage_mv < voltage_mv && current_best.voltage_mv < voltage_mv {
                        pdo.voltage_mv > current_best.voltage_mv
                    } else {
                        pdo.max_power_mw > current_best.max_power_mw
                    }
                } else {
                    false
                }
            },
        };
        if should_select {
            best_diff = diff;
            best = Some(i);
            best_is_variable = is_variable;
        }
        i = i + 1;
    }
    proof {
        lemma_best_after_bound(pdos@, voltage_mv, pdos@.len());
    }
    best
}


/// The controller's standard fixed output voltages.
#[derive(Clone, Copy, Debug, PartialEq, Eq, Structural)]
pub enum FixedVoltage {
    V5,
    V9,
    V12,
    V15,
    V20,
    V28,
}

/// The standard voltage a fixed PDO of `mv` is requested as: up to 6.5 V is
/// 5 V, up to 10.5 V is 9 V, up to 13.5 V is 12 V, up to 17.5 V is 15 V, up
/// to 24 V is 20 V, and anything above is 28 V.
pub open spec fn fixed_voltage_spec(mv: u16) -> FixedVoltage {
    if mv <= 6500 {
        FixedVoltage::V5
    } else if mv <= 10500 {
        FixedVoltage::V9
    } else if mv <= 13500 {
        FixedVoltage::V12
    } else if mv <= 17500 {
        FixedVoltage::V15
    } else if mv <= 24000 {
        FixedVoltage::V20
    } else {
        FixedVoltage::V28
    }
}

impl FixedVoltage {
    /// Nominal voltage in mV.
    pub open spec fn millivolts_spec(self) -> u16 {
        match self {
            FixedVoltage::V5 => 5000,
            FixedVoltage::V9 => 9000,
            FixedVoltage::V12 => 12000,
            FixedVoltage::V15 => 15000,
            FixedVoltage::V20 => 20000,
            FixedVoltage::V28 => 28000,
        }
    }

    /// Nominal voltage in mV.
    pub fn millivolts(&self) -> (mv: u16)
        ensures
            mv == self.millivolts_spec(),
    {
        match self {
            FixedVoltage::V5 => 5000,
            FixedVoltage::V9 => 9000,
            FixedVoltage::V12 => 12000,
            FixedVoltage::V15 => 15000,
            FixedVoltage::V20 => 20000,
            FixedVoltage::V28 => 28000,
        }
    }

    /// The standard voltage that a fixed PDO of `mv` is requested as.
    pub fn for_fixed_pdo(mv: u16) -> (v: FixedVoltage)
        ensures
            v == fixed_voltage_spec(mv),
    {
        if mv <= 6500 {
            FixedVoltage::V5
        } else if mv <= 10500 {
            FixedVoltage::V9
        } else if mv <= 13500 {
            FixedVoltage::V12
        } else if mv <= 17500 {
            FixedVoltage::V15
        } else if mv <= 24000 {
            FixedVoltage::V20
        } else {
            FixedVoltage::V28
        }
    }
}

/// What is sent to the controller to obtain a requested voltage.
#[derive(Clone, Copy, Debug, PartialEq, Eq, Structural)]
pub enum PdRequest {
    /// A programmable request through a variable PDO.
    Custom { voltage_mv: u16, current_ma: u16 },
    /// A standard request, made because the chosen PDO is fixed at `pdo_voltage_mv`.
    Fixed { voltage: FixedVoltage, pdo_voltage_mv: u16 },
}

impl PdRequest {
    /// The voltage, in mV, reported as set once the request succeeds.
    pub open spec fn reported_mv(self) -> u16 {
        match self {
            PdRequest::Custom { voltage_mv, .. } => voltage_mv,
            PdRequest::Fixed { pdo_voltage_mv, .. } => pdo_voltage_mv,
        }
    }

    /// The voltage, in mV, reported as set once the request succeeds.
    pub fn reported_voltage_mv(&self) -> (mv: u16)
        ensures
            mv == self.reported_mv(),
    {
        match self {
            PdRequest::Custom { voltage_mv, .. } => *voltage_mv,
            PdRequest::Fixed { pdo_voltage_mv, .. } => *pdo_voltage_mv,
        }
    }
}

/// Errors of the USB-PD control logic.
#[derive(Clone, Copy, Debug, PartialEq, Eq, Structural)]
pub enum PdError {
    /// The source offers no PDO at all.
    NoSuitablePdo,
    /// The voltage asked for is zero or negative.
    VoltageNotPositive,
    /// Every request of the sequence failed.
    RequestFailed,
}

/// The request made for `req_mv` at `current_ma`: a variable PDO is asked
/// for the requested voltage, capped at its maximum; a fixed PDO is asked
/// for through the standard voltage it maps to.
pub open spec fn plan_spec(pdos: Seq<PDOInfoSimple>, req_mv: u16, current_ma: u16) -> Result<PdRequest, PdError> {
    match best_pdo(pdos, req_mv) {
        None => Err(PdError::NoSuitablePdo),
        Some(i) => {
            let p = pdos[i];
            if !p.is_fixed {
                if req_mv <= p.voltage_mv {
                    Ok(PdRequest::Custom { voltage_mv: req_mv, current_ma })
                } else {
                    Ok(PdRequest::Custom { voltage_mv: p.voltage_mv, current_ma })
                }
            } else {
                Ok(PdRequest::Fixed { voltage: fixed_voltage_spec(p.voltage_mv), pdo_voltage_mv: p.voltage_mv })
            }
        },
    }
}

/// Decides how a custom voltage of `voltage_mv` at `current_ma` is requested
/// from a source offering `pdos`.
pub fn plan_request(pdos: &Vec<PDOInfoSimple>, voltage_mv: u16, current_ma: u16) -> (r: Result<PdRequest, PdError>)
    ensures
        r == plan_spec(pdos@, voltage_mv, current_ma),
        r is Err <==> pdos@.len() == 0,
{
    match select_pdo(pdos, voltage_mv) {
        None => Err(PdError::NoSuitablePdo),
        Some(i) => {
            let p = pdos[i];
            if !p.is_fixed {
                if voltage_mv <= p.voltage_mv {
                    Ok(PdRequest::Custom { voltage_mv, current_ma })
                } else {
                    Ok(PdRequest::Custom { voltage_mv: p.voltage_mv, current_ma })
                }
            } else {
                Ok(PdRequest::Fixed { voltage: FixedVoltage::for_fixed_pdo(p.voltage_mv), pdo_voltage_mv: p.voltage_mv })
            }
        },
    }
}

/// Largest voltage and largest current over a PDO list (0 for none).
pub open spec fn limits_of(pdos: Seq<PDOInfoSimple>) -> (u16, u16)
    decreases pdos.len(),
{
    if pdos.len() == 0 {
        (0, 0)
    } else {
        let (v, c) = limits_of(pdos.drop_last());
        let p = pdos.last();
        (if p.voltage_mv > v { p.voltage_mv } else { v }, if p.current_ma > c { p.current_ma } else { c })
    }
}

/// Largest voltage (mV) and largest current (mA) offered by any PDO, 0 each
/// for an empty list.
pub fn pdo_limits(pdos: &Vec<PDOInfoSimple>) -> (r: (u16, u16))
    ensures
        r == limits_of(pdos@),
{
    let mut max_voltage_mv: u16 = 0;
    let mut max_current_ma: u16 = 0;
    let mut i: usize = 0;
    while i < pdos.len()
        invariant
            i <= pdos@.len(),
            (max_voltage_mv, max_current_ma) == limits_of(pdos@.subrange(0, i as int)),
        decreases pdos@.len() - i,
    {
        proof {
            assert(pdos@.subrange(0, i + 1).drop_last() =~= pdos@.subrange(0, i as int));
        }
        let pdo = pdos[i];
        if pdo.voltage_mv > max_voltage_mv {
            max_voltage_mv = pdo.voltage_mv;
        }
        if pdo.current_ma > max_current_ma {
            max_current_ma = pdo.current_ma;
        }
        i = i + 1;
    }
    assert(pdos@.subrange(0, i as int) =~= pdos@);
    (max_voltage_mv, max_current_ma)
}

/// All entries of `pdos` are of the same kind (all fixed or all variable).
pub open spec fn single_kind(pdos: Seq<PDOInfoSimple>) -> bool {
    forall|i: int, j: int| 0 <= i < pdos.len() && 0 <= j < pdos.len() ==> (#[trigger] pdos[i]).is_fixed == (#[trigger] pdos[j]).is_fixed
}

proof fn lemma_single_kind_closest_prefix(pdos: Seq<PDOInfoSimple>, req_mv: u16, n: nat)
    requires
        single_kind(pdos),
        n <= pdos.len(),
    ensures
        best_after(pdos, req_mv, n) matches Some(b) ==> forall|j: int| 0 <= j < n ==>
            voltage_diff(pdos[b].voltage_mv, req_mv) <= voltage_diff(#[trigger] pdos[j].voltage_mv, req_mv),
    decreases n,
{
    if n > 0 {
        lemma_single_kind_closest_prefix(pdos, req_mv, (n - 1) as nat);
        lemma_best_after_bound(pdos, req_mv, (n - 1) as nat);
        let prev = best_after(pdos, req_mv, (n - 1) as nat);
        let last = n - 1;
        if let Some(pb) = prev {
            assert(pdos[pb].is_fixed == pdos[last].is_fixed);
            let dpb = voltage_diff(pdos[pb].voltage_mv, req_mv);
            let dl = voltage_diff(pdos[last].voltage_mv, req_mv);
            if replaces(pdos, prev, last, req_mv) {
                assert(dl <= dpb);
                assert forall|j: int| 0 <= j < n implies dl <= voltage_diff(#[trigger] pdos[j].voltage_mv, req_mv) by {
                    if j < last {
                        assert(dpb <= voltage_diff(pdos[j].voltage_mv, req_mv));
                    }
                }
            } else {
                assert(dpb <= dl);
                assert forall|j: int| 0 <= j < n implies dpb <= voltage_diff(#[trigger] pdos[j].voltage_mv, req_mv) by {
                    if j < last {
                        assert(dpb <= voltage_diff(pdos[j].voltage_mv, req_mv));
                    }
                }
            }
        }
    }
}

/// When every PDO is of the same kind (all fixed, or all variable), the
/// chosen PDO is one whose voltage is closest to the requested voltage.
pub proof fn lemma_single_kind_selects_closest(pdos: Seq<PDOInfoSimple>, req_mv: u16)
    requires
        single_kind(pdos),
        pdos.len() > 0,
    ensures
        best_pdo(pdos, req_mv) matches Some(b) && 0 <= b < pdos.len() && forall|j: int| 0 <= j < pdos.len() ==>
            voltage_diff(pdos[b].voltage_mv, req_mv) <= voltage_diff(#[trigger] pdos[j].voltage_mv, req_mv),
{
    lemma_best_after_bound(pdos, req_mv, pdos.len());
    lemma_single_kind_closest_prefix(pdos, req_mv, pdos.len());
}

/// Some PDO of `pdos` is variable, and every variable PDO reaches `req_mv`.
pub open spec fn variable_pdos_cover(pdos: Seq<PDOInfoSimple>, req_mv: u16) -> bool {
    &&& exists|i: int| 0 <= i < pdos.len() && !(#[trigger] pdos[i]).is_fixed
    &&& forall|i: int| 0 <= i < pdos.len() && !(#[trigger] pdos[i]).is_fixed ==> pdos[i].voltage_mv >= req_mv
}

proof fn lemma_cover_prefix(pdos: Seq<PDOInfoSimple>, req_mv: u16, n: nat)
    requires
        n <= pdos.len(),
        forall|i: int| 0 <= i < pdos.len() && !(#[trigger] pdos[i]).is_fixed ==> pdos[i].voltage_mv >= req_mv,
    ensures
        (exists|i: int| 0 <= i < n && !(#[trigger] pdos[i]).is_fixed) ==>
            (best_after(pdos, req_mv, n) matches Some(b) && !pdos[b].is_fixed && pdos[b].voltage_mv >= req_mv),
    decreases n,
{
    if n > 0 {
        lemma_cover_prefix(pdos, req_mv, (n - 1) as nat);
        lemma_best_after_bound(pdos, req_mv, (n - 1) as nat);
        let last = n - 1;
        let prev = best_after(pdos, req_mv, (n - 1) as nat);
        if exists|i: int| 0 <= i < n && !(#[trigger] pdos[i]).is_fixed {
            let earlier = exists|i: int| 0 <= i < n - 1 && !(#[trigger] pdos[i]).is_fixed;
            if !earlier {
                let i = choose|i: int| 0 <= i < n && !(#[trigger] pdos[i]).is_fixed;
                assert(i == last);
                assert(!pdos[last].is_fixed);
                assert(pdos[last].voltage_mv >= req_mv);
                if let Some(pb) = prev {
                    assert(pdos[pb].is_fixed);
                }
                assert(replaces(pdos, prev, last, req_mv));
            } else {
                let pb = prev->0;
                assert(!pdos[pb].is_fixed && pdos[pb].voltage_mv >= req_mv);
                if pdos[last].is_fixed {
                    assert(!replaces(pdos, prev, last, req_mv));
                } else {
                    assert(pdos[last].voltage_mv >= req_mv);
                }
            }
        }
    }
}

/// When the source offers at least one variable PDO and every variable PDO
/// reaches the requested voltage, the request is a programmable request for
/// exactly the requested voltage.
pub proof fn lemma_covered_request_is_exact(pdos: Seq<PDOInfoSimple>, req_mv: u16, current_ma: u16)
    requires
        variable_pdos_cover(pdos, req_mv),
    ensures
        plan_spec(pdos, req_mv, current_ma) == Ok::<PdRequest, PdError>(PdRequest::Custom { voltage_mv: req_mv, current_ma }),
{
    lemma_cover_prefix(pdos, req_mv, pdos.len());
}

/// A programmable request never asks for more than was requested, and the
/// voltage reported for any request is that of a PDO or the requested one.
pub proof fn lemma_plan_reports_offered_voltage(pdos: Seq<PDOInfoSimple>, req_mv: u16, current_ma: u16)
    ensures
        plan_spec(pdos, req_mv, current_ma) matches Ok(r) ==> {
            &&& r matches PdRequest::Custom { voltage_mv, .. } ==> voltage_mv <= req_mv
            &&& (r.reported_mv() == req_mv || exists|i: int| 0 <= i < pdos.len() && (#[trigger] pdos[i]).voltage_mv == r.reported_mv())
        },
{
    lemma_best_after_bound(pdos, req_mv, pdos.len());
}

/// Mapping fixed PDOs to standard voltages keeps their order.
pub proof fn lemma_fixed_voltage_monotonic(mv1: u16, mv2: u16)
    requires
        mv1 <= mv2,
    ensures
        fixed_voltage_spec(mv1).millivolts_spec() <= fixed_voltage_spec(mv2).millivolts_spec(),
{
}

/// The limits bound every PDO of the list and are each 0 or offered by some PDO.
pub proof fn lemma_limits_bound(pdos: Seq<PDOInfoSimple>)
    ensures
        forall|i: int| 0 <= i < pdos.len() ==> (#[trigger] pdos[i]).voltage_mv <= limits_of(pdos).0 && pdos[i].current_ma <= limits_of(pdos).1,
        limits_of(pdos).0 == 0 || exists|i: int| 0 <= i < pdos.len() && (#[trigger] pdos[i]).voltage_mv == limits_of(pdos).0,
        limits_of(pdos).1 == 0 || exists|i: int| 0 <= i < pdos.len() && (#[trigger] pdos[i]).current_ma == limits_of(pdos).1,
    decreases pdos.len(),
{
    if pdos.len() > 0 {
        let init = pdos.drop_last();
        lemma_limits_bound(init);
        assert forall|i: int| 0 <= i < pdos.len() implies (#[trigger] pdos[i]).voltage_mv <= limits_of(pdos).0 && pdos[i].current_ma <= limits_of(pdos).1 by {
            if i < pdos.len() - 1 {
                assert(pdos[i] == init[i]);
            }
        }
        if limits_of(pdos).0 != 0 && limits_of(pdos).0 != pdos.last().voltage_mv {
            let i = choose|i: int| 0 <= i < init.len() && (#[trigger] init[i]).voltage_mv == limits_of(init).0;
            assert(pdos[i] == init[i]);
        }
        if limits_of(pdos).1 != 0 && limits_of(pdos).1 != pdos.last().current_ma {
            let i = choose|i: int| 0 <= i < init.len() && (#[trigger] init[i]).current_ma == limits_of(init).1;
            assert(pdos[i] == init[i]);
        }
    }
}

/// Where the sequence that applies an output voltage stands.
#[derive(Clone, Copy, Debug, PartialEq, Eq, Structural)]
pub enum PdControlStage {
    /// The voltage asked for was not positive; 5 V is being requested before giving up.
    DisablingOutput,
    /// A programmable request with a 5 A current limit is under way.
    Custom5A,
    /// A programmable request with a 3 A current limit is under way.
    Custom3A,
    /// The standard 5 V fallback is under way.
    Fallback5V,
    /// The sequence is over.
    Finished,
}

/// What the caller does next for the sequence that applies a voltage.
#[derive(Clone, Copy, Debug, PartialEq, Eq)]
pub enum PdAction {
    /// Request `voltage_mv` at `current_ma` through a programmable PDO.
    RequestCustom { voltage_mv: u16, current_ma: u16 },
    /// Request a standard voltage.
    RequestFixed { voltage: FixedVoltage },
    /// Stop: the output voltage now in force (mV), or why none is.
    Finish { result: Result<u16, PdError> },
}

/// The sequence that applies an output voltage: a programmable request with
/// a 5 A limit, then with a 3 A limit, then the standard 5 V; a source that
/// refuses even that still counts as success when exactly 5 V was asked for.
#[derive(Clone, Copy, Debug)]
pub struct PdControl {
    pub stage: PdControlStage,
    pub voltage_mv: u16,
    pub exactly_five_volts: bool,
    pub outcome: Result<u16, PdError>,
}

impl PdControl {
    /// The sequence and its first action, for a voltage that is positive or
    /// not, `voltage_mv` once capped to what the source offers, and whether
    /// exactly 5 V was asked for.
    pub open spec fn begin_spec(voltage_positive: bool, voltage_mv: u16, exactly_five_volts: bool) -> (PdControl, PdAction) {
        if !voltage_positive {
            (PdControl { stage: PdControlStage::DisablingOutput, voltage_mv, exactly_five_volts, outcome: Err(PdError::VoltageNotPositive) },
             PdAction::RequestFixed { voltage: FixedVoltage::V5 })
        } else {
            (PdControl { stage: PdControlStage::Custom5A, voltage_mv, exactly_five_volts, outcome: Err(PdError::RequestFailed) },
             PdAction::RequestCustom { voltage_mv, current_ma: 5000 })
        }
    }

    /// The next state and action once the last request has `succeeded` (a
    /// programmable request reporting `actual_mv`).
    pub open spec fn step_spec(self, succeeded: bool, actual_mv: u16) -> (PdControl, PdAction) {
        let finish = |r: Result<u16, PdError>| (PdControl { stage: PdControlStage::Finished, outcome: r, ..self }, PdAction::Finish { result: r });
        match self.stage {
            PdControlStage::DisablingOutput => finish(Err(PdError::VoltageNotPositive)),
            PdControlStage::Custom5A => if succeeded {
                finish(Ok(actual_mv))
            } else {
                (PdControl { stage: PdControlStage::Custom3A, ..self }, PdAction::RequestCustom { voltage_mv: self.voltage_mv, current_ma: 3000 })
            },
            PdControlStage::Custom3A => if succeeded {
                finish(Ok(actual_mv))
            } else {
                (PdControl { stage: PdControlStage::Fallback5V, ..self }, PdAction::RequestFixed { voltage: FixedVoltage::V5 })
            },
            PdControlStage::Fallback5V => if succeeded || self.exactly_five_volts {
                finish(Ok(5000))
            } else {
                finish(Err(PdError::RequestFailed))
            },
            PdControlStage::Finished => (self, PdAction::Finish { result: self.outcome }),
        }
    }

    /// Begins the sequence.
    pub fn begin(voltage_positive: bool, voltage_mv: u16, exactly_five_volts: bool) -> (r: (PdControl, PdAction))
        ensures
            r == Self::begin_spec(voltage_positive, voltage_mv, exactly_five_volts),
    {
        if !voltage_positive {
            (PdControl { stage: PdControlStage::DisablingOutput, voltage_mv, exactly_five_volts, outcome: Err(PdError::VoltageNotPositive) },
             PdAction::RequestFixed { voltage: FixedVoltage::V5 })
        } else {
            (PdControl { stage: PdControlStage::Custom5A, voltage_mv, exactly_five_volts, outcome: Err(PdError::RequestFailed) },
             PdAction::RequestCustom { voltage_mv, current_ma: 5000 })
        }
    }

    /// Advances the sequence with the outcome of the request just made.
    pub fn step(&mut self, succeeded: bool, actual_mv: u16) -> (a: PdAction)
        ensures
            (*final(self), a) == old(self).step_spec(succeeded, actual_mv),
    {
        match self.stage {
            PdControlStage::DisablingOutput => {
                self.stage = PdControlStage::Finished;
                self.outcome = Err(PdError::VoltageNotPositive);
            },
            PdControlStage::Custom5A => {
                if succeeded {
                    self.stage = PdControlStage::Finished;
                    self.outcome = Ok(actual_mv);
                } else {
                    self.stage = PdControlStage::Custom3A;
                    return PdAction::RequestCustom { voltage_mv: self.voltage_mv, current_ma: 3000 };
                }
            },
            PdControlStage::Custom3A => {
                if succeeded {
                    self.stage = PdControlStage::Finished;
                    self.outcome = Ok(actual_mv);
                } else {
                    self.stage = PdControlStage::Fallback5V;
                    return PdAction::RequestFixed { voltage: FixedVoltage::V5 };
                }
            },
            PdControlStage::Fallback5V => {
                self.stage = PdControlStage::Finished;
                if succeeded || self.exactly_five_volts {
                    self.outcome = Ok(5000);
                } else {
                    self.outcome = Err(PdError::RequestFailed);
                }
            },
            PdControlStage::Finished => {},
        }
        PdAction::Finish { result: self.outcome }
    }

    /// Number of further requests the sequence can still make.
    pub open spec fn requests_left(self) -> nat {
        match self.stage {
            PdControlStage::DisablingOutput => 0,
            PdControlStage::Custom5A => 2,
            PdControlStage::Custom3A => 1,
            PdControlStage::Fallback5V => 0,
            PdControlStage::Finished => 0,
        }
    }
}

/// The sequence never asks for more than three requests: every step either
/// finishes or makes a request with fewer requests left after it.
pub proof fn lemma_pd_control_terminates(c: PdControl, succeeded: bool, actual_mv: u16)
    requires
        c.stage != PdControlStage::Finished,
    ensures
        ({
            let (n, a) = c.step_spec(succeeded, actual_mv);
            (a is Finish && n.stage == PdControlStage::Finished) || (n.requests_left() < c.requests_left())
        }),
{
}

/// A sequence that ends in success reports either what a programmable
/// request reported or 5 V, and a programmable request is for the voltage
/// the sequence was started with.
pub proof fn lemma_pd_control_outcome(c: PdControl, succeeded: bool, actual_mv: u16)
    requires
        c.stage != PdControlStage::Finished,
    ensures
        ({
            let (n, a) = c.step_spec(succeeded, actual_mv);
            &&& a matches PdAction::Finish { result: Ok(v) } ==> (v == actual_mv && succeeded) || v == 5000
            &&& a matches PdAction::RequestCustom { voltage_mv, .. } ==> voltage_mv == c.voltage_mv
            &&& n.voltage_mv == c.voltage_mv
        }),
{
}

/// A programmable request that succeeds ends the sequence with the voltage
/// that request reported, whether it was the 5 A or the 3 A attempt; one
/// that fails moves on to the next fallback (3 A, then standard 5 V).
pub proof fn lemma_custom_request_outcome(c: PdControl, actual_mv: u16)
    requires
        c.stage == PdControlStage::Custom5A || c.stage == PdControlStage::Custom3A,
    ensures
        c.step_spec(true, actual_mv).1 == (PdAction::Finish { result: Ok(actual_mv) }),
        c.step_spec(true, actual_mv).0.outcome == Ok::<u16, PdError>(actual_mv),
        c.stage == PdControlStage::Custom5A ==> c.step_spec(false, actual_mv).1
            == (PdAction::RequestCustom { voltage_mv: c.voltage_mv, current_ma: 3000 }),
        c.stage == PdControlStage::Custom3A ==> c.step_spec(false, actual_mv).1
            == (PdAction::RequestFixed { voltage: FixedVoltage::V5 }),
{
}

/// The fallbacks of the sequence: a voltage that is not positive ends in
/// `VoltageNotPositive` whatever the 5 V request did; the standard 5 V
/// fallback ends in 5 V when it succeeds or when exactly 5 V was asked
/// for, and in `RequestFailed` otherwise; a positive voltage starts with a
/// programmable request for it at 5 A, any other with a 5 V request.
pub proof fn lemma_pd_control_fallbacks(c: PdControl, succeeded: bool, actual_mv: u16, positive: bool, mv: u16, five: bool)
    ensures
        c.stage == PdControlStage::DisablingOutput ==> c.step_spec(succeeded, actual_mv).1
            == (PdAction::Finish { result: Err(PdError::VoltageNotPositive) }),
        c.stage == PdControlStage::Fallback5V ==> c.step_spec(succeeded, actual_mv).1
            == (PdAction::Finish { result: if succeeded || c.exactly_five_volts { Ok(5000) } else { Err(PdError::RequestFailed) } }),
        positive ==> PdControl::begin_spec(positive, mv, five).1 == (PdAction::RequestCustom { voltage_mv: mv, current_ma: 5000 }),
        !positive ==> PdControl::begin_spec(positive, mv, five).1 == (PdAction::RequestFixed { voltage: FixedVoltage::V5 }),
{
}

/// When every PDO is variable, of the PDOs closest to the request the one
/// with the highest maximum voltage is chosen.
pub proof fn lemma_variable_tie_prefers_higher(pdos: Seq<PDOInfoSimple>, req_mv: u16)
    requires
        forall|i: int| 0 <= i < pdos.len() ==> !(#[trigger] pdos[i]).is_fixed,
    ensures
        best_pdo(pdos, req_mv) matches Some(b) ==> forall|j: int| 0 <= j < pdos.len()
            && voltage_diff((#[trigger] pdos[j]).voltage_mv, req_mv) == voltage_diff(pdos[b].voltage_mv, req_mv)
            ==> pdos[j].voltage_mv <= pdos[b].voltage_mv,
{
    lemma_variable_tie_prefix(pdos, req_mv, pdos.len());
}

proof fn lemma_variable_tie_prefix(pdos: Seq<PDOInfoSimple>, req_mv: u16, n: nat)
    requires
        n <= pdos.len(),
        forall|i: int| 0 <= i < pdos.len() ==> !(#[trigger] pdos[i]).is_fixed,
    ensures
        best_after(pdos, req_mv, n) matches Some(b) ==> forall|j: int| 0 <= j < n ==> {
            let dj = voltage_diff((#[trigger] pdos[j]).voltage_mv, req_mv);
            let db = voltage_diff(pdos[b].voltage_mv, req_mv);
            db <= dj && (dj == db ==> pdos[j].voltage_mv <= pdos[b].voltage_mv)
        },
    decreases n,
{
    if n > 0 {
        let last = n - 1;
        lemma_variable_tie_prefix(pdos, req_mv, (n - 1) as nat);
        lemma_best_after_bound(pdos, req_mv, (n - 1) as nat);
        let prev = best_after(pdos, req_mv, (n - 1) as nat);
        if let Some(pb) = prev {
            assert(!pdos[pb].is_fixed && !pdos[last].is_fixed);
            let dpb = voltage_diff(pdos[pb].voltage_mv, req_mv);
            let dl = voltage_diff(pdos[last].voltage_mv, req_mv);
            if replaces(pdos, prev, last, req_mv) {
                assert(dl < dpb || (dl == dpb && pdos[last].voltage_mv > pdos[pb].voltage_mv));
                assert forall|j: int| 0 <= j < n implies ({
                    let dj = voltage_diff((#[trigger] pdos[j]).voltage_mv, req_mv);
                    dl <= dj && (dj == dl ==> pdos[j].voltage_mv <= pdos[last].voltage_mv)
                }) by {
                    if j < last {
                        assert(dpb <= voltage_diff(pdos[j].voltage_mv, req_mv));
                    }
                }
            } else {
                assert(dpb < dl || (dl == dpb && pdos[last].voltage_mv <= pdos[pb].voltage_mv));
            }
        }
    }
}

/// With at most one variable PDO offered, a fixed PDO is chosen only when
/// the variable PDO is no closer to the request: a variable PDO strictly
/// closer than the chosen fixed one would have been chosen instead, whether
/// the fixed PDO lies above or below the request.
pub proof fn lemma_fixed_choice_not_beaten_by_variable(pdos: Seq<PDOInfoSimple>, req_mv: u16)
    requires
        forall|i: int, j: int| 0 <= i < pdos.len() && 0 <= j < pdos.len() && !(#[trigger] pdos[i]).is_fixed
            && !(#[trigger] pdos[j]).is_fixed ==> i == j,
    ensures
        best_pdo(pdos, req_mv) matches Some(b) ==> (pdos[b].is_fixed ==> forall|j: int| 0 <= j < pdos.len() && !(#[trigger] pdos[j]).is_fixed
            ==> voltage_diff(pdos[b].voltage_mv, req_mv) <= voltage_diff(pdos[j].voltage_mv, req_mv)),
{
    lemma_fixed_choice_prefix(pdos, req_mv, pdos.len());
}

proof fn lemma_fixed_choice_prefix(pdos: Seq<PDOInfoSimple>, req_mv: u16, n: nat)
    requires
        n <= pdos.len(),
        forall|i: int, j: int| 0 <= i < pdos.len() && 0 <= j < pdos.len() && !(#[trigger] pdos[i]).is_fixed
            && !(#[trigger] pdos[j]).is_fixed ==> i == j,
    ensures
        best_after(pdos, req_mv, n) matches Some(b) ==> (pdos[b].is_fixed ==> forall|j: int| 0 <= j < n && !(#[trigger] pdos[j]).is_fixed
            ==> voltage_diff(pdos[b].voltage_mv, req_mv) <= voltage_diff(pdos[j].voltage_mv, req_mv)),
    decreases n,
{
    if n > 0 {
        let last = n - 1;
        lemma_fixed_choice_prefix(pdos, req_mv, (n - 1) as nat);
        lemma_best_after_bound(pdos, req_mv, (n - 1) as nat);
        lemma_best_after_bound(pdos, req_mv, n);
        let prev = best_after(pdos, req_mv, (n - 1) as nat);
        if let Some(b) = best_after(pdos, req_mv, n) {
            if pdos[b].is_fixed {
                let db = voltage_diff(pdos[b].voltage_mv, req_mv);
                assert forall|j: int| 0 <= j < n && !(#[trigger] pdos[j]).is_fixed implies db <= voltage_diff(pdos[j].voltage_mv, req_mv) by {
                    if replaces(pdos, prev, last, req_mv) {
                        assert(b == last);
                        if let Some(pb) = prev {
                            if !pdos[pb].is_fixed {
                                assert(j == pb);
                            } else {
                                assert(j < last);
                            }
                        }
                    } else {
                        assert(prev == Some(b));
                        if j == last {
                            assert(!replaces(pdos, prev, last, req_mv));
                        }
                    }
                }
            }
        }
    }
}

/// The AP33772S sink controller: the driver, whose I2C transactions the
/// caller runs, and the decisions made over the PDO list it has read.
pub struct AP33772S {
    pub driver: GenericAP33772S,
}

impl AP33772S {
    /// A controller whose driver has not read any PDO yet.
    pub fn new() -> (r: AP33772S)
        ensures
            driver_pdos(r.driver) == Seq::<(u8, u16, u16, u32, bool)>::empty(),
    {
        AP33772S { driver: driver_new() }
    }

    /// The PDO list as the driver holds it.
    pub fn get_pdo_list(&self) -> (v: Vec<PDOInfoSimple>)
        ensures
            v@ == pdo_records(self.driver),
    {
        driver_pdo_list(&self.driver)
    }

    /// Largest voltage (mV) offered by the source, 0 when it offers none.
    pub fn get_max_voltage(&self) -> (m: u16)
        ensures
            m == max_voltage_of(driver_pdos(self.driver)),
    {
        driver_max_voltage(&self.driver)
    }

    /// Largest voltage (mV) and largest current (mA) over the PDO list.
    pub fn get_pdo_limits(&self) -> (r: (u16, u16))
        ensures
            r == limits_of(pdo_records(self.driver)),
    {
        let v = self.get_pdo_list();
        pdo_limits(&v)
    }

    /// How a custom voltage of `voltage_mv` at `current_ma` is requested
    /// from the source the driver has enumerated.
    pub fn plan_custom_voltage(&self, voltage_mv: u16, current_ma: u16) -> (r: Result<PdRequest, PdError>)
        ensures
            r == plan_spec(pdo_records(self.driver), voltage_mv, current_ma),
    {
        let v = self.get_pdo_list();
        plan_request(&v, voltage_mv, current_ma)
    }
}

} // verus!
