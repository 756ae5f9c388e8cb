//! The status screen's decisions that rest on integers and text: which WiFi
//! icon is shown, the signal and address labels, the watermark bar, the
//! blinking of the set-point while it changes, the PDO pages shown at
//! start-up, and when the screen must be redrawn.

use vstd::prelude::*;
use crate::text::{ascii_bytes, decimal, lemma_decimal_digits, lemma_decimal_injective, push_decimal};

verus! {

/// A PDO as the voltage bar shows it.
#[derive(Clone, Copy, Debug)]
pub struct PDODisplayInfo {
    pub voltage_mv: u16,
    pub is_fixed: bool,
}

/// Whether the output is on, as the screen shows it.
#[derive(Clone, Copy, Debug, PartialEq, Eq, Structural)]
pub enum LoggingStatus {
    Start,
    Stop,
}

/// The WiFi link, as the screen shows it.
#[derive(Clone, Copy, Debug, PartialEq, Eq, Structural)]
pub enum WifiStatus {
    Disconnected,
    Connecting,
    Connected,
}

/// The signal icon (0 to 4 bars) shown for an RSSI in dBm while connected:
/// -100..=-80 is 0, -79..=-75 is 1, -74..=-70 is 2, -69..=-65 is 3,
/// -64..=-30 is 4; outside -100..=-30 no icon is drawn.
pub open spec fn signal_level_spec(rssi: i32) -> Option<u8> {
    if -100 <= rssi <= -80 {
        Some(0)
    } else if -79 <= rssi <= -75 {
        Some(1)
    } else if -74 <= rssi <= -70 {
        Some(2)
    } else if -69 <= rssi <= -65 {
        Some(3)
    } else if -64 <= rssi <= -30 {
        Some(4)
    } else {
        None
    }
}

/// The signal icon shown for `rssi` while connected.
pub fn signal_level(rssi: i32) -> (r: Option<u8>)
    ensures
        r == signal_level_spec(rssi),
{
    if -100 <= rssi && rssi <= -80 {
        Some(0)
    } else if -79 <= rssi && rssi <= -75 {
        Some(1)
    } else if -74 <= rssi && rssi <= -70 {
        Some(2)
    } else if -69 <= rssi && rssi <= -65 {
        Some(3)
    } else if -64 <= rssi && rssi <= -30 {
        Some(4)
    } else {
        None
    }
}

/// The animation frame (icon 0 to 4) shown while connecting, at step
/// `loopcount` of the screen's 16-step cycle.
pub open spec fn connecting_frame_spec(loopcount: u32) -> Option<u8> {
    if loopcount <= 2 {
        Some(0)
    } else if loopcount <= 5 {
        Some(1)
    } else if loopcount <= 8 {
        Some(2)
    } else if loopcount <= 11 {
        Some(3)
    } else if loopcount <= 15 {
        Some(4)
    } else {
        None
    }
}

/// The animation frame shown while connecting.
pub fn connecting_frame(loopcount: u32) -> (r: Option<u8>)
    ensures
        r == connecting_frame_spec(loopcount),
{
    if loopcount <= 2 {
        Some(0)
    } else if loopcount <= 5 {
        Some(1)
    } else if loopcount <= 8 {
        Some(2)
    } else if loopcount <= 11 {
        Some(3)
    } else if loopcount <= 15 {
        Some(4)
    } else {
        None
    }
}

/// The next step of the screen's cycle: one more, wrapping to 0 past 15.
pub fn next_loopcount(loopcount: u32) -> (r: u32)
    ensures
        r == if loopcount + 1 > 15 { 0 } else { loopcount + 1 },
{
    if loopcount >= 15 {
        0
    } else {
        loopcount + 1
    }
}

/// The signal label: the RSSI with its sign and `dBm`, or `NO SIG` for 0.
pub open spec fn rssi_label_spec(rssi: i32) -> Seq<char> {
    if rssi == 0 {
        "NO SIG"@
    } else if rssi > 0 {
        "+"@ + decimal(rssi as nat) + "dBm"@
    } else {
        "-"@ + decimal((-rssi) as nat) + "dBm"@
    }
}

/// The signal label shown while connected.
pub fn rssi_label(rssi: i32) -> (r: String)
    ensures
        r@ == rssi_label_spec(rssi),
{
    let mut r = String::new();
    if rssi == 0 {
        r.append("NO SIG");
        assert(r@ =~= rssi_label_spec(rssi));
        return r;
    }
    let magnitude: u128 = if rssi > 0 {
        r.append("+");
        rssi as u128
    } else {
        r.append("-");
        (-(rssi as i64)) as u128
    };
    push_decimal(&mut r, magnitude);
    r.append("dBm");
    assert(r@ =~= rssi_label_spec(rssi));
    r
}

/// A message shown with a timeout of `timeout_ms` (0: no timeout) has
/// expired once more than `timeout_ms` have passed since it was set.
pub fn message_expired(timeout_ms: u32, elapsed_ms: u128) -> (r: bool)
    ensures
        r == (timeout_ms > 0 && elapsed_ms > timeout_ms as u128),
{
    timeout_ms > 0 && elapsed_ms > timeout_ms as u128
}

/// Position of the last `c` among the first `end` characters of `s`.
pub open spec fn last_index_of(s: Seq<char>, c: char, end: int) -> Option<int>
    decreases end,
{
    if end <= 0 {
        None
    } else if s[end - 1] == c {
        Some(end - 1)
    } else {
        last_index_of(s, c, end - 1)
    }
}

/// What of an IP address the screen shows: the part after its second-last
/// dot (the last two octets of a dotted quad), or the whole text when it
/// has fewer than two dots.
pub open spec fn ip_display_spec(ip: Seq<char>) -> Seq<char> {
    match last_index_of(ip, '.', ip.len() as int) {
        Some(pos) => match last_index_of(ip, '.', pos) {
            Some(pos2) => ip.skip(pos2 + 1),
            None => ip,
        },
        None => ip,
    }
}

proof fn lemma_last_index_bound(s: Seq<char>, c: char, end: int)
    requires
        end <= s.len(),
    ensures
        last_index_of(s, c, end) matches Some(i) ==> 0 <= i < end && s[i] == c,
    decreases end,
{
    if end > 0 && s[end - 1] != c {
        lemma_last_index_bound(s, c, end - 1);
    }
}

fn find_last(s: &str, c: char, end: usize) -> (r: Option<usize>)
    requires
        end <= s@.len(),
    ensures
        match r {
            Some(i) => last_index_of(s@, c, end as int) == Some(i as int),
            None => last_index_of(s@, c, end as int) is None,
        },
{
    let mut k: usize = end;
    while k > 0
        invariant
            k <= end <= s@.len(),
            last_index_of(s@, c, end as int) == last_index_of(s@, c, k as int),
        decreases k,
    {
        if s.get_char(k - 1) == c {
            return Some(k - 1);
        }
        k = k - 1;
    }
    None
}

/// The part of `ip` that the screen shows after `IP:`.
pub fn ip_display(ip: &str) -> (r: String)
    ensures
        r@ == ip_display_spec(ip@),
{
    let len = ip.unicode_len();
    match find_last(ip, '.', len) {
        Some(pos) => {
            proof {
                lemma_last_index_bound(ip@, '.', len as int);
            }
            match find_last(ip, '.', pos) {
                Some(pos2) => {
                    proof {
                        lemma_last_index_bound(ip@, '.', pos as int);
                    }
                    let tail = ip.substring_char(pos2 + 1, len);
                    let r = String::from_str(tail);
                    assert(r@ =~= ip@.skip(pos2 + 1));
                    r
                },
                None => String::from_str(ip),
            }
        },
        None => String::from_str(ip),
    }
}

/// Width in pixels of the filled part of the 60-pixel watermark bar for a
/// buffer filled to `wm` percent.
pub fn watermark_fill_width(wm: u32) -> (r: u32)
    requires
        58 * wm <= u32::MAX,
    ensures
        r == 58 * wm / 100,
{
    58 * wm / 100
}

/// Records the buffer holds at most.
pub const RECORD_MAX: usize = 127;

/// How full the sample buffer is, in percent of `RECORD_MAX`, rounded down.
pub fn buffer_watermark(records: usize) -> (r: u32)
    requires
        records * 100 <= u32::MAX,
    ensures
        r == records * 100 / 127,
{
    (records as u32) * 100 / 127
}

/// The set-point's blinking while it changes: a blink runs for six screen
/// steps, inverted on every other one.
#[derive(Clone, Copy, Debug, PartialEq, Eq, Structural)]
pub struct Blink {
    pub is_blinking: bool,
    pub inverted: bool,
    pub count: u32,
}

/// One screen step of the blink, given whether the set-point is flagged as
/// changing: a flagged set-point starts a blink when none runs; a running
/// blink flips the inversion and counts each return to normal, and after
/// the third it stops and the flag is to be cleared (second component).
pub open spec fn blink_step_spec(b: Blink, changing: bool) -> (Blink, bool) {
    let b1 = if changing && !b.is_blinking { Blink { is_blinking: true, count: 0, inverted: false } } else { b };
    if b1.is_blinking {
        let inv = !b1.inverted;
        let count = if !inv { b1.count + 1 } else { b1.count as int };
        if count >= 3 {
            (Blink { is_blinking: false, inverted: false, count: count as u32 }, true)
        } else {
            (Blink { is_blinking: true, inverted: inv, count: count as u32 }, false)
        }
    } else {
        (b1, false)
    }
}

impl Blink {
    /// No blink running.
    pub fn new() -> (r: Blink)
        ensures
            r == (Blink { is_blinking: false, inverted: false, count: 0 }),
    {
        Blink { is_blinking: false, inverted: false, count: 0 }
    }

    /// Well-formedness: a blink counts at most to three, and a running one
    /// has not reached three.
    pub open spec fn wf(self) -> bool {
        self.count <= 3 && (self.is_blinking ==> self.count < 3)
    }

    /// Advances the blink by one screen step; returns whether the changing
    /// flag is to be cleared.
    pub fn step(&mut self, changing: bool) -> (clear: bool)
        requires
            old(self).wf(),
        ensures
            (*final(self), clear) == blink_step_spec(*old(self), changing),
            final(self).wf(),
    {
        if changing && !self.is_blinking {
            self.is_blinking = true;
            self.count = 0;
            self.inverted = false;
        }
        if self.is_blinking {
            self.inverted = !self.inverted;
            if !self.inverted {
                self.count = self.count + 1;
            }
            if self.count >= 3 {
                self.is_blinking = false;
                self.inverted = false;
                return true;
            }
        }
        false
    }
}

/// A set-point flagged as changing from an idle screen blinks for exactly
/// six steps, inverted on the first, third and fifth, and the flag is
/// cleared on the sixth.
pub proof fn lemma_blink_lasts_six_steps()
    ensures
        ({
            let b0 = Blink { is_blinking: false, inverted: false, count: 0 };
            let (b1, c1) = blink_step_spec(b0, true);
            let (b2, c2) = blink_step_spec(b1, true);
            let (b3, c3) = blink_step_spec(b2, true);
            let (b4, c4) = blink_step_spec(b3, true);
            let (b5, c5) = blink_step_spec(b4, true);
            let (b6, c6) = blink_step_spec(b5, true);
            &&& !c1 && !c2 && !c3 && !c4 && !c5 && c6
            &&& b1.inverted && !b2.inverted && b3.inverted && !b4.inverted && b5.inverted && !b6.inverted
            &&& b1.is_blinking && b5.is_blinking && !b6.is_blinking
        }),
{
}

/// A stronger signal never shows fewer bars: within -100..=-30 dBm the icon
/// level does not decrease as the RSSI rises.
pub proof fn lemma_signal_level_monotonic(r1: i32, r2: i32)
    requires
        -100 <= r1 <= r2 <= -30,
    ensures
        signal_level_spec(r1) matches Some(l1) && signal_level_spec(r2) matches Some(l2) && l1 <= l2,
{
}

/// The screen's cycle stays within 0..=15, and every step of it has a
/// connecting animation frame.
pub proof fn lemma_loopcount_cycle(loopcount: u32)
    requires
        loopcount <= 15,
    ensures
        (if loopcount + 1 > 15 { 0 } else { loopcount + 1 }) <= 15,
        connecting_frame_spec(loopcount) is Some,
{
}

/// Whether the WiFi part of the screen changed since it was last drawn: a
/// change of link state, a new animation step while connecting, or a new
/// RSSI while connected.
pub open spec fn wifi_changed_spec(cur: WifiStatus, prev: WifiStatus, loopcount: u32, prev_loopcount: u32, rssi: i32, prev_rssi: i32) -> bool {
    match (cur, prev) {
        (WifiStatus::Disconnected, WifiStatus::Disconnected) => false,
        (WifiStatus::Connecting, WifiStatus::Connecting) => loopcount != prev_loopcount,
        (WifiStatus::Connected, WifiStatus::Connected) => rssi != prev_rssi,
        _ => true,
    }
}

/// Whether the WiFi part of the screen changed since it was last drawn.
pub fn wifi_changed(cur: WifiStatus, prev: WifiStatus, loopcount: u32, prev_loopcount: u32, rssi: i32, prev_rssi: i32) -> (r: bool)
    ensures
        r == wifi_changed_spec(cur, prev, loopcount, prev_loopcount, rssi, prev_rssi),
{
    match (cur, prev) {
        (WifiStatus::Disconnected, WifiStatus::Disconnected) => false,
        (WifiStatus::Connecting, WifiStatus::Connecting) => loopcount != prev_loopcount,
        (WifiStatus::Connected, WifiStatus::Connected) => rssi != prev_rssi,
        _ => true,
    }
}

/// Whether the output status shown changed since it was last drawn.
pub fn status_changed(cur: LoggingStatus, prev: LoggingStatus) -> (r: bool)
    ensures
        r == (cur != prev),
{
    match (cur, prev) {
        (LoggingStatus::Start, LoggingStatus::Start) => false,
        (LoggingStatus::Stop, LoggingStatus::Stop) => false,
        _ => true,
    }
}

/// Largest voltage (mV) of the variable PDOs of the list, 0 when there is none.
pub open spec fn max_variable_mv_spec(pdos: Seq<PDODisplayInfo>) -> u16
    decreases pdos.len(),
{
    if pdos.len() == 0 {
        0
    } else {
        let m = max_variable_mv_spec(pdos.drop_last());
        let p = pdos.last();
        if !p.is_fixed && p.voltage_mv > m { p.voltage_mv } else { m }
    }
}

/// Largest voltage (mV) of the variable PDOs of the list, 0 when there is
/// none: the top of the filled part of the voltage bar.
pub fn max_variable_mv(pdos: &Vec<PDODisplayInfo>) -> (r: u16)
    ensures
        r == max_variable_mv_spec(pdos@),
{
    let mut m: u16 = 0;
    let mut i: usize = 0;
    while i < pdos.len()
        invariant
            i <= pdos@.len(),
            m == max_variable_mv_spec(pdos@.take(i as int)),
        decreases pdos@.len() - i,
    {
        proof {
            assert(pdos@.take(i + 1).drop_last() =~= pdos@.take(i as int));
        }
        let p = pdos[i];
        if !p.is_fixed && p.voltage_mv > m {
            m = p.voltage_mv;
        }
        i = i + 1;
    }
    assert(pdos@.take(i as int) =~= pdos@);
    m
}

/// PDOs listed on one start-up page.
pub const PDOS_PER_PAGE: usize = 6;

/// Number of start-up pages for `n` PDOs.
pub fn pdo_page_count(n: usize) -> (r: usize)
    requires
        n + 5 <= usize::MAX,
    ensures
        r == (n + 5) / 6,
{
    (n + 5) / PDOS_PER_PAGE
}

/// The PDOs on start-up page `page`, as the range `start..end` of the list.
pub fn pdo_page_range(page: usize, n: usize) -> (r: (usize, usize))
    requires
        (page + 1) * 6 <= usize::MAX,
    ensures
        r.0 == page * 6,
        r.1 == if (page + 1) * 6 < n { (page + 1) * 6 } else { n as int },
{
    let start = page * PDOS_PER_PAGE;
    let upto = (page + 1) * PDOS_PER_PAGE;
    let end = if upto < n { upto } else { n };
    (start, end)
}

/// The title of start-up page `page` (from 0) of `total`.
pub open spec fn page_title_spec(page: usize, total: usize) -> Seq<char> {
    if total > 1 {
        "PDOs (Page "@ + decimal((page + 1) as nat) + "/"@ + decimal(total as nat) + ")"@
    } else {
        "Available PDOs:"@
    }
}

/// When there are several start-up pages, different pages get different
/// titles, and page `page` (from 0) is numbered `page + 1` of `total`: the
/// title is `PDOs (Page ` followed by the page's number and then by
/// `/TOTAL)`, where a number is read up to the first non-digit.
pub proof fn lemma_page_titles_distinct(p1: usize, p2: usize, total: usize)
    requires
        total > 1,
        p1 != p2,
    ensures
        page_title_spec(p1, total) != page_title_spec(p2, total),
{
    reveal_strlit("PDOs (Page ");
    reveal_strlit("/");
    let a = "PDOs (Page "@;
    let d1 = decimal((p1 + 1) as nat);
    let d2 = decimal((p2 + 1) as nat);
    let tail = "/"@ + decimal(total as nat) + ")"@;
    let t1 = page_title_spec(p1, total);
    let t2 = page_title_spec(p2, total);
    assert(t1 =~= a + d1 + tail);
    assert(t2 =~= a + d2 + tail);
    lemma_decimal_digits((p1 + 1) as nat);
    lemma_decimal_digits((p2 + 1) as nat);
    if t1 == t2 {
        if d1.len() < d2.len() {
            let k: int = (a.len() + d1.len()) as int;
            assert(t1[k] == '/');
            assert(t2[k] == d2[d1.len() as int]);
            assert(ascii_bytes(d2)[d1.len() as int] == d2[d1.len() as int] as u8);
        } else if d2.len() < d1.len() {
            let k: int = (a.len() + d2.len()) as int;
            assert(t2[k] == '/');
            assert(t1[k] == d1[d2.len() as int]);
            assert(ascii_bytes(d1)[d2.len() as int] == d1[d2.len() as int] as u8);
        } else {
            assert forall|i: int| 0 <= i < d1.len() implies d1[i] == d2[i] by {
                assert(t1[a.len() + i] == d1[i]);
                assert(t2[a.len() + i] == d2[i]);
            }
            assert(d1 =~= d2);
            lemma_decimal_injective((p1 + 1) as nat, (p2 + 1) as nat);
        }
    }
}

/// The last of several start-up pages is numbered as the total: both
/// numbers of its title are the page count.
pub proof fn lemma_last_page_title(total: usize)
    requires
        total > 1,
    ensures
        page_title_spec((total - 1) as usize, total)
            == "PDOs (Page "@ + decimal(total as nat) + "/"@ + decimal(total as nat) + ")"@,
{
}

/// The title of start-up page `page` (from 0) of `total`.
pub fn pdo_page_title(page: usize, total: usize) -> (r: String)
    requires
        page < usize::MAX,
    ensures
        r@ == page_title_spec(page, total),
{
    let mut r = String::new();
    if total > 1 {
        r.append("PDOs (Page ");
        push_decimal(&mut r, (page + 1) as u128);
        r.append("/");
        push_decimal(&mut r, total as u128);
        r.append(")");
    } else {
        r.append("Available PDOs:");
    }
    assert(r@ =~= page_title_spec(page, total));
    r
}

/// The short kind label of a PDO on the start-up pages: fixed or
/// programmable, from the standard (index below 8) or extended range.
pub open spec fn pdo_kind_label_spec(pdo_index: u8, is_fixed: bool) -> Seq<char> {
    if is_fixed {
        if pdo_index >= 8 { "F-EPR"@ } else { "F-SPR"@ }
    } else {
        if pdo_index >= 8 { "AVS"@ } else { "PPS"@ }
    }
}

/// The short kind label of a PDO on the start-up pages.
pub fn pdo_kind_label(pdo_index: u8, is_fixed: bool) -> (r: &'static str)
    ensures
        r@ == pdo_kind_label_spec(pdo_index, is_fixed),
{
    if is_fixed {
        if pdo_index >= 8 { "F-EPR" } else { "F-SPR" }
    } else {
        if pdo_index >= 8 { "AVS" } else { "PPS" }
    }
}

} // verus!
