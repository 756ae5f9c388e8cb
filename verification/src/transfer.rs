//! Batching telemetry samples into an InfluxDB line-protocol body and the
//! bookkeeping of the upload that sends it.

use vstd::prelude::*;
use crate::text::{decimal, push_decimal};

verus! {

/// Where and how samples are uploaded.
pub struct ServerInfo {
    pub server: String,
    pub influxdb_measurement: String,
    pub influxdb_api_key: String,
    pub influxdb_api: String,
    pub influxdb_tag: String,
}

impl Clone for ServerInfo {
    fn clone(&self) -> (r: ServerInfo)
        ensures
            r == *self,
    {
        ServerInfo {
            server: self.server.clone(),
            influxdb_measurement: self.influxdb_measurement.clone(),
            influxdb_api_key: self.influxdb_api_key.clone(),
            influxdb_api: self.influxdb_api.clone(),
            influxdb_tag: self.influxdb_tag.clone(),
        }
    }
}

impl ServerInfo {
    /// Gathers the upload settings; note the order of the arguments, which
    /// differs from that of the fields.
    pub fn new(server: String, api_key: String, api: String, measurement: String, tag: String) -> (r: ServerInfo)
        ensures
            r.server@ == server@,
            r.influxdb_api_key@ == api_key@,
            r.influxdb_api@ == api@,
            r.influxdb_measurement@ == measurement@,
            r.influxdb_tag@ == tag@,
    {
        ServerInfo {
            server: server,
            influxdb_measurement: measurement,
            influxdb_api_key: api_key,
            influxdb_api: api,
            influxdb_tag: tag,
        }
    }
}

/// One telemetry sample. The measured quantities are held as the decimal
/// text they are uploaded as: current, voltage and power with five
/// fractional digits, battery voltage with two and temperature with one.
pub struct CurrentLog {
    pub current: String,
    pub voltage: String,
    pub power: String,
    pub battery: String,
    pub temp: String,
    pub rpm: u32,
    pub pwm: u32,
    /// Time of the sample, in nanoseconds since the Unix epoch.
    pub clock: u128,
}

/// The line-protocol line of one sample:
/// `measurement,tag=TAG current=..,voltage=..,power=..,bat=..,temp=..,rpm=..,pwm=.. CLOCK` and a newline.
pub open spec fn line_of(server: ServerInfo, s: CurrentLog) -> Seq<char> {
    server.influxdb_measurement@ + ",tag="@ + server.influxdb_tag@
        + " current="@ + s.current@ + ",voltage="@ + s.voltage@ + ",power="@ + s.power@
        + ",bat="@ + s.battery@ + ",temp="@ + s.temp@
        + ",rpm="@ + decimal(s.rpm as nat) + ",pwm="@ + decimal(s.pwm as nat)
        + " "@ + decimal(s.clock as nat) + "\n"@
}

/// The lines of `samples`, one after the other.
pub open spec fn lines_of(server: ServerInfo, samples: Seq<CurrentLog>) -> Seq<char>
    decreases samples.len(),
{
    if samples.len() == 0 {
        Seq::empty()
    } else {
        lines_of(server, samples.drop_last()) + line_of(server, samples.last())
    }
}

/// Most samples one upload carries.
pub const MAX_BATCH: usize = 128;

/// How many of `n` samples go into one upload.
pub open spec fn batch_len(n: nat) -> nat {
    if n < MAX_BATCH { n } else { MAX_BATCH as nat }
}

/// Effect of offering `samples` to an uploader in state `v` (body, pending):
/// nothing when no sample is offered or an upload is pending; otherwise the
/// lines of the first `batch_len` samples are appended and an upload becomes
/// pending. The second component is the number of samples taken.
pub open spec fn offer_spec(v: (Seq<char>, bool), server: ServerInfo, samples: Seq<CurrentLog>) -> ((Seq<char>, bool), nat) {
    if samples.len() == 0 || v.1 {
        (v, 0)
    } else {
        let n = batch_len(samples.len());
        ((v.0 + lines_of(server, samples.take(n as int)), true), n)
    }
}

/// Effect of the end of an upload attempt on state `v`: the body is emptied,
/// and the upload stops being pending only when it was delivered.
pub open spec fn finish_spec(v: (Seq<char>, bool), delivered: bool) -> (Seq<char>, bool) {
    (Seq::empty(), if delivered { false } else { v.1 })
}

/// Once an upload is delivered, the next non-empty offer is taken: its
/// first `batch_len` samples are queued on an empty body.
pub proof fn lemma_delivery_reopens(v: (Seq<char>, bool), server: ServerInfo, samples: Seq<CurrentLog>)
    requires
        samples.len() > 0,
    ensures
        ({
            let n = batch_len(samples.len());
            offer_spec(finish_spec(v, true), server, samples)
                == ((lines_of(server, samples.take(n as int)), true), n)
        }),
{
    assert(Seq::<char>::empty() + lines_of(server, samples.take(batch_len(samples.len()) as int))
        =~= lines_of(server, samples.take(batch_len(samples.len()) as int)));
}

/// One upload cycle: an accepted offer makes an upload pending whose body
/// is the lines offered (appended to what was waiting); once that upload is
/// delivered nothing is pending and the body is empty, so the next offer is
/// accepted again; while nothing is pending no body is handed out.
pub proof fn lemma_upload_cycle(v: (Seq<char>, bool), server: ServerInfo, samples: Seq<CurrentLog>)
    requires
        !v.1,
        samples.len() > 0,
    ensures
        ({
            let (w, n) = offer_spec(v, server, samples);
            &&& w.1 && n == batch_len(samples.len()) && n > 0
            &&& w.0 == v.0 + lines_of(server, samples.take(n as int))
            &&& finish_spec(w, true) == (Seq::<char>::empty(), false)
            &&& offer_spec(finish_spec(w, true), server, samples).1 == n
        }),
{
}

/// An upload that fails stays pending with an empty body, so every later
/// offer is refused until an upload is delivered.
pub proof fn lemma_failure_keeps_pending(v: (Seq<char>, bool), server: ServerInfo, samples: Seq<CurrentLog>)
    requires
        v.1,
    ensures
        offer_spec(finish_spec(v, false), server, samples) == (finish_spec(v, false), 0nat),
        finish_spec(v, false) == (Seq::<char>::empty(), true),
{
}

/// An offer never takes more than `MAX_BATCH` samples nor more than are
/// offered, and what it takes is the lines of those samples in order.
pub proof fn lemma_offer_takes_prefix(v: (Seq<char>, bool), server: ServerInfo, samples: Seq<CurrentLog>)
    ensures
        ({
            let (w, n) = offer_spec(v, server, samples);
            &&& n <= MAX_BATCH && n <= samples.len()
            &&& w.0 == v.0 + lines_of(server, samples.take(n as int))
        }),
{
    let (w, n) = offer_spec(v, server, samples);
    if n == 0 {
        assert(samples.take(0) =~= Seq::<CurrentLog>::empty());
        assert(v.0 + Seq::<char>::empty() =~= v.0);
    }
}

/// The uploader: the body awaiting upload, whether an upload is pending,
/// and the server it goes to.
pub struct Transfer {
    body: String,
    txreq: bool,
    server: ServerInfo,
}

impl View for Transfer {
    type V = (Seq<char>, bool);

    closed spec fn view(&self) -> (Seq<char>, bool) {
        (self.body@, self.txreq)
    }
}

impl Transfer {
    /// The server the uploader sends to.
    pub closed spec fn server_spec(&self) -> ServerInfo {
        self.server
    }

    /// An uploader with an empty body and nothing pending.
    pub fn new(server: ServerInfo) -> (r: Transfer)
        ensures
            r@ == (Seq::<char>::empty(), false),
            r.server_spec() == server,
    {
        Transfer { body: String::new(), txreq: false, server: server }
    }

    /// The server the uploader sends to.
    pub fn server(&self) -> (r: &ServerInfo)
        ensures
            *r == self.server_spec(),
    {
        &self.server
    }

    fn push_line(&mut self, it: &CurrentLog)
        ensures
            final(self)@ == (old(self)@.0 + line_of(old(self).server_spec(), *it), old(self)@.1),
            final(self).server_spec() == old(self).server_spec(),
    {
        let ghost before = self.body@;
        self.body.append(self.server.influxdb_measurement.as_str());
        self.body.append(",tag=");
        self.body.append(self.server.influxdb_tag.as_str());
        self.body.append(" current=");
        self.body.append(it.current.as_str());
        self.body.append(",voltage=");
        self.body.append(it.voltage.as_str());
        self.body.append(",power=");
        self.body.append(it.power.as_str());
        self.body.append(",bat=");
        self.body.append(it.battery.as_str());
        self.body.append(",temp=");
        self.body.append(it.temp.as_str());
        self.body.append(",rpm=");
        push_decimal(&mut self.body, it.rpm as u128);
        self.body.append(",pwm=");
        push_decimal(&mut self.body, it.pwm as u128);
        self.body.append(" ");
        push_decimal(&mut self.body, it.clock);
        self.body.append("\n");
        assert(self.body@ =~= before + line_of(self.server, *it));
    }

    /// Offers samples for upload and returns how many were taken: none when
    /// `data` is empty or an upload is still pending; otherwise the first
    /// samples, at most `MAX_BATCH` of them, whose lines are appended to the
    /// body, and an upload becomes pending.
    pub fn set_transfer_data(&mut self, data: &Vec<CurrentLog>) -> (count: usize)
        ensures
            (final(self)@, count as nat) == offer_spec(old(self)@, old(self).server_spec(), data@),
            final(self).server_spec() == old(self).server_spec(),
    {
        if data.len() == 0 {
            return 0;
        }
        if self.txreq {
            return 0;
        }
        let ghost start = self.body@;
        let ghost server = self.server;
        let ghost n = batch_len(data@.len());
        let mut count: usize = 0;
        while count < data.len() && count < MAX_BATCH
            invariant
                count <= data@.len(),
                count <= MAX_BATCH,
                n == batch_len(data@.len()),
                self.server == server,
                !self.txreq,
                self.body@ == start + lines_of(server, data@.take(count as int)),
            decreases data@.len() - count,
        {
            self.push_line(&data[count]);
            proof {
                assert(data@.take(count + 1).drop_last() =~= data@.take(count as int));
                assert(data@.take(count + 1).last() == data@[count as int]);
            }
            count = count + 1;
        }
        self.txreq = true;
        count
    }

    /// The body to upload when an upload is pending.
    pub fn pending_body(&self) -> (r: Option<String>)
        ensures
            match r {
                Some(b) => self@.1 && b@ == self@.0,
                None => !self@.1,
            },
    {
        if self.txreq {
            Some(self.body.clone())
        } else {
            None
        }
    }

    /// Records the end of an upload attempt: the body is emptied, and the
    /// upload stops being pending only when it was `delivered`.
    pub fn finish_transfer(&mut self, delivered: bool)
        ensures
            final(self)@ == finish_spec(old(self)@, delivered),
            final(self).server_spec() == old(self).server_spec(),
    {
        if delivered {
            self.txreq = false;
        }
        self.body = String::new();
    }
}

/// `http://` followed by the server and the API path.
pub open spec fn url_of(server: ServerInfo) -> Seq<char> {
    "http://"@ + server.server@ + server.influxdb_api@
}

/// The URL an upload is posted to.
pub fn request_url(server: &ServerInfo) -> (r: String)
    ensures
        r@ == url_of(*server),
{
    let mut r = String::new();
    r.append("http://");
    r.append(server.server.as_str());
    r.append(server.influxdb_api.as_str());
    assert(r@ =~= url_of(*server));
    r
}

/// The `Authorization` header value of an upload: `Token ` and the API key.
pub fn authorization(server: &ServerInfo) -> (r: String)
    ensures
        r@ == "Token "@ + server.influxdb_api_key@,
{
    let mut r = String::new();
    r.append("Token ");
    r.append(server.influxdb_api_key.as_str());
    assert(r@ =~= "Token "@ + server.influxdb_api_key@);
    r
}

/// An upload is delivered exactly when the server answers 204 (No Content).
pub fn is_delivered(status: u16) -> (r: bool)
    ensures
        r == (status == 204),
{
    status == 204
}

} // verus!
