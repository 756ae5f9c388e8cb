//! The HTTP control API: the PDO record it publishes, the JSON document of the
//! PDO list, and the parsing of the form bodies that set the output.

use vstd::prelude::*;
use crate::text::{ascii_bytes, decimal, lemma_parse_u8_decimal, parse_u8, parse_u8_spec, push_decimal};

verus! {

/// One power data object offered by the source, as plain values.
#[derive(Clone, Copy, Debug)]
pub struct PDOInfoSimple {
    pub pdo_index: u8,
    pub voltage_mv: u16,
    pub current_ma: u16,
    pub max_power_mw: u32,
    pub is_fixed: bool,
}

impl PDOInfoSimple {
    /// The record's fields in declaration order, index first.
    pub open spec fn as_tuple(self) -> (u8, u16, u16, u32, bool) {
        (self.pdo_index, self.voltage_mv, self.current_ma, self.max_power_mw, self.is_fixed)
    }
}


/// `true` or `false`, as JSON writes a boolean.
pub open spec fn json_bool(b: bool) -> Seq<char> {
    if b { "true"@ } else { "false"@ }
}

/// The JSON object of one PDO.
pub open spec fn pdo_json(p: PDOInfoSimple) -> Seq<char> {
    "{\"pdo_index\":"@ + decimal(p.pdo_index as nat)
        + ",\"voltage_mv\":"@ + decimal(p.voltage_mv as nat)
        + ",\"current_ma\":"@ + decimal(p.current_ma as nat)
        + ",\"max_power_mw\":"@ + decimal(p.max_power_mw as nat)
        + ",\"is_fixed\":"@ + json_bool(p.is_fixed) + "}"@
}

/// The JSON objects of `pdos`, separated by commas.
pub open spec fn pdo_items_json(pdos: Seq<PDOInfoSimple>) -> Seq<char>
    decreases pdos.len(),
{
    if pdos.len() == 0 {
        Seq::empty()
    } else if pdos.len() == 1 {
        pdo_json(pdos[0])
    } else {
        pdo_items_json(pdos.drop_last()) + ","@ + pdo_json(pdos.last())
    }
}

/// Each further PDO adds a comma and its object: the items are the PDO
/// objects in order, joined by single commas.
pub proof fn lemma_pdo_items_joined(pdos: Seq<PDOInfoSimple>, n: int)
    requires
        1 <= n < pdos.len(),
    ensures
        pdo_items_json(pdos.take(n + 1)) == pdo_items_json(pdos.take(n)) + ","@ + pdo_json(pdos[n]),
        pdo_items_json(pdos.take(1)) == pdo_json(pdos[0]),
{
    assert(pdos.take(n + 1).drop_last() =~= pdos.take(n));
    assert(pdos.take(n + 1).last() == pdos[n]);
    assert(pdos.take(1)[0] == pdos[0]);
}

/// The document served for the PDO list: `{"pdos":[...]}`.
pub open spec fn pdo_list_json_spec(pdos: Seq<PDOInfoSimple>) -> Seq<char> {
    "{\"pdos\":["@ + pdo_items_json(pdos) + "]}"@
}

fn push_pdo_json(json: &mut String, p: &PDOInfoSimple)
    ensures
        final(json)@ == old(json)@ + pdo_json(*p),
{
    let ghost before = json@;
    json.append("{\"pdo_index\":");
    push_decimal(json, p.pdo_index as u128);
    json.append(",\"voltage_mv\":");
    push_decimal(json, p.voltage_mv as u128);
    json.append(",\"current_ma\":");
    push_decimal(json, p.current_ma as u128);
    json.append(",\"max_power_mw\":");
    push_decimal(json, p.max_power_mw as u128);
    json.append(",\"is_fixed\":");
    if p.is_fixed {
        json.append("true");
    } else {
        json.append("false");
    }
    json.append("}");
    assert(json@ =~= before + pdo_json(*p));
}

/// Renders the PDO list as the JSON document of the `/api/pdos` endpoint.
pub fn pdo_list_json(pdos: &Vec<PDOInfoSimple>) -> (json: String)
    ensures
        json@ == pdo_list_json_spec(pdos@),
{
    let mut json = String::new();
    json.append("{\"pdos\":[");
    let ghost head = json@;
    let mut i: usize = 0;
    while i < pdos.len()
        invariant
            i <= pdos@.len(),
            json@ == head + pdo_items_json(pdos@.take(i as int)),
        decreases pdos@.len() - i,
    {
        let ghost prefix = pdos@.take(i as int);
        proof {
            assert(pdos@.take(i + 1).drop_last() =~= prefix);
            assert(pdos@.take(i + 1).last() == pdos@[i as int]);
        }
        if i > 0 {
            json.append(",");
        } else {
            assert(pdos@.take(1) =~= seq![pdos@[0]]);
            assert(prefix =~= Seq::<PDOInfoSimple>::empty());
        }
        push_pdo_json(&mut json, &pdos[i]);
        assert(json@ =~= head + pdo_items_json(pdos@.take(i + 1)));
        i = i + 1;
    }
    json.append("]}");
    assert(pdos@.take(i as int) =~= pdos@);
    assert(json@ =~= pdo_list_json_spec(pdos@));
    json
}

/// The bytes of `value=`.
pub open spec fn value_prefix() -> Seq<u8> {
    seq![118u8, 97u8, 108u8, 117u8, 101u8, 61u8]
}

/// What follows `value=` in a form body, when the body starts with it.
pub open spec fn form_value_spec(body: Seq<u8>) -> Option<Seq<u8>> {
    if body.len() >= 6 && body.take(6) == value_prefix() {
        Some(body.skip(6))
    } else {
        None
    }
}

/// The value of a `value=...` form body: the bytes after `value=`, or
/// `None` when the body does not start with `value=`.
pub fn form_value(body: &[u8]) -> (r: Option<Vec<u8>>)
    ensures
        match r {
            Some(v) => form_value_spec(body@) == Some(v@),
            None => form_value_spec(body@) is None,
        },
{
    if body.len() < 6 || body[0] != 118u8 || body[1] != 97u8 || body[2] != 108u8 || body[3] != 117u8
        || body[4] != 101u8 || body[5] != 61u8 {
        proof {
            if body@.len() >= 6 && body@.take(6) == value_prefix() {
                assert(body@.take(6)[0] == body@[0]);
                assert(body@.take(6)[1] == body@[1]);
                assert(body@.take(6)[2] == body@[2]);
                assert(body@.take(6)[3] == body@[3]);
                assert(body@.take(6)[4] == body@[4]);
                assert(body@.take(6)[5] == body@[5]);
            }
        }
        return None;
    }
    assert(body@.take(6) =~= value_prefix());
    let mut v: Vec<u8> = Vec::new();
    let mut i: usize = 6;
    while i < body.len()
        invariant
            6 <= i <= body@.len(),
            v@ == body@.subrange(6, i as int),
        decreases body@.len() - i,
    {
        v.push(body[i]);
        assert(v@ =~= body@.subrange(6, i + 1));
        i = i + 1;
    }
    assert(v@ =~= body@.skip(6));
    Some(v)
}

/// What the `/api/output` endpoint makes of a body: `value=` then a `u8`
/// switches the output on when the number is not 0 and off when it is 0;
/// any other body is refused.
pub open spec fn output_request_spec(body: Seq<u8>) -> Option<bool> {
    match form_value_spec(body) {
        Some(v) => match parse_u8_spec(v) {
            Some(n) => Some(n != 0),
            None => None,
        },
        None => None,
    }
}

/// A form body `value=N`, with `N` written in decimal and at most 255, is
/// accepted and switches the output on exactly when `N` is not 0.
pub proof fn lemma_output_request_roundtrip(n: u8)
    ensures
        output_request_spec(value_prefix() + ascii_bytes(decimal(n as nat))) == Some(n != 0),
{
    let body = value_prefix() + ascii_bytes(decimal(n as nat));
    assert(body.take(6) =~= value_prefix());
    assert(body.skip(6) =~= ascii_bytes(decimal(n as nat)));
    lemma_parse_u8_decimal(n);
}

/// Parses the body of a request to the `/api/output` endpoint: `Some(on)`
/// for a valid request, `None` for one answered with 400.
pub fn parse_output_request(body: &[u8]) -> (r: Option<bool>)
    ensures
        r == output_request_spec(body@),
{
    match form_value(body) {
        Some(v) => match parse_u8(v.as_slice()) {
            Some(n) => Some(n != 0),
            None => None,
        },
        None => None,
    }
}

} // verus!
