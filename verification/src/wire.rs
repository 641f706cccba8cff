//! Inbound wire boundary. What one line of input means is a function of its
//! text alone, so each reading serde_json makes of a line stands under a
//! name (`json_parses`, `device_id_of`, ...), given by a trusted wrapper
//! whose body makes the call; everything the client decides about a line —
//! heartbeat detection, the handshake token, the light and AC record arrays
//! — is then verified exactly against those names.

use vstd::prelude::*;
use crate::engine::{is_echo_device_id, LineClass, ECHO_DEVICE_ID};
use crate::errors::ClientError;
use crate::models::{fold_spec, light_name_chars, lights_from_raw, ACData, ACDatum, ACDatumView,
    Light};

verus! {

/// Whether a line of text parses as JSON.
pub uninterp spec fn json_parses(line: Seq<char>) -> bool;

/// The numeric device id nested under `data.id` of the parsed line, when
/// the line parses and carries one.
pub uninterp spec fn device_id_of(line: Seq<char>) -> Option<u64>;

/// Whether the parsed line carries a `data` section.
pub uninterp spec fn has_data_of(line: Seq<char>) -> bool;

/// The compact JSON rendering of the parsed line's `data` section; an
/// absent section renders as the null value's text.
pub uninterp spec fn data_rendering_of(line: Seq<char>) -> Seq<char>;

/// The compact JSON rendering of the parsed line's `meta.authID` field; an
/// absent field renders as the null value's text.
pub uninterp spec fn token_rendering_of(line: Seq<char>) -> Seq<char>;

/// The raw `(id, isActive)` pairs of a text that decodes as an array of
/// light records; None for a text of any other shape.
pub uninterp spec fn light_records_of(text: Seq<char>) -> Option<Seq<(u64, bool)>>;

/// The raw `(id, isActive, readValue)` triples of a text that decodes as an
/// array of AC attribute records, a missing `readValue` standing for empty
/// text; None for a text of any other shape.
pub uninterp spec fn ac_records_of(text: Seq<char>) -> Option<Seq<(u64, bool, Seq<char>)>>;

/// Relies on serde_json::from_str::<Value>: whether the line parses.
#[verifier::external_body]
fn parse_check(line: &str) -> (r: bool)
    ensures
        r == json_parses(line@),
{
    serde_json::from_str::<serde_json::Value>(line).is_ok()
}

/// Relies on serde_json::from_str, Value::get and Value::as_u64: the device
/// id under `data.id`, when the line parses and carries one.
#[verifier::external_body]
fn line_device_id(line: &str) -> (r: Option<u64>)
    ensures
        r == device_id_of(line@),
{
    let parsed: serde_json::Value = serde_json::from_str(line).ok()?;
    parsed.get("data")?.get("id")?.as_u64()
}

/// Relies on serde_json::from_str and Value::get: whether the parsed line
/// carries a `data` key.
#[verifier::external_body]
fn line_has_data(line: &str) -> (r: bool)
    ensures
        r == has_data_of(line@),
{
    match serde_json::from_str::<serde_json::Value>(line) {
        Ok(v) => v.get("data").is_some(),
        Err(_) => false,
    }
}

/// Relies on serde_json::from_str, Value::get and Value's Display impl: the
/// rendering of the line's `data` section.
#[verifier::external_body]
fn line_data_rendering(line: &str) -> (r: String)
    ensures
        r@ == data_rendering_of(line@),
{
    match serde_json::from_str::<serde_json::Value>(line) {
        Ok(v) => v.get("data").unwrap_or(&serde_json::Value::Null).to_string(),
        Err(_) => serde_json::Value::Null.to_string(),
    }
}

/// Relies on serde_json::from_str, Value::get and Value's Display impl: the
/// rendering of the line's `meta.authID` field.
#[verifier::external_body]
fn line_token_rendering(line: &str) -> (r: String)
    ensures
        r@ == token_rendering_of(line@),
{
    match serde_json::from_str::<serde_json::Value>(line) {
        Ok(v) => v
            .get("meta")
            .and_then(|m| m.get("authID"))
            .unwrap_or(&serde_json::Value::Null)
            .to_string(),
        Err(_) => serde_json::Value::Null.to_string(),
    }
}

/// Relies on serde_json::from_str, Value::as_array, Value::get, Value::as_u64
/// and Value::as_bool: the raw light records of the text, None when the text
/// does not parse as an array of elements each carrying a numeric `id` and a
/// boolean `isActive`.
#[verifier::external_body]
fn light_records_from(text: &str) -> (r: Option<Vec<(u64, bool)>>)
    ensures
        match r {
            Some(v) => light_records_of(text@) == Some(v@),
            None => light_records_of(text@) is None,
        },
{
    let parsed: serde_json::Value = serde_json::from_str(text).ok()?;
    let mut out = Vec::new();
    for elem in parsed.as_array()? {
        out.push((elem.get("id")?.as_u64()?, elem.get("isActive")?.as_bool()?));
    }
    Some(out)
}

/// Relies on serde_json::from_str, Value::as_array, Value::get, Value::as_u64,
/// Value::as_bool and Value::as_str: the raw AC attribute records of the
/// text, a missing `readValue` read as empty text, None when any element
/// lacks the record shape.
#[verifier::external_body]
fn ac_records_from(text: &str) -> (r: Option<Vec<(u64, bool, String)>>)
    ensures
        match r {
            Some(v) => ac_records_of(text@) == Some(v.deep_view()),
            None => ac_records_of(text@) is None,
        },
{
    let parsed: serde_json::Value = serde_json::from_str(text).ok()?;
    let mut out = Vec::new();
    for elem in parsed.as_array()? {
        let value = match elem.get("readValue") {
            Some(v) => v.as_str()?.to_owned(),
            None => String::new(),
        };
        out.push((elem.get("id")?.as_u64()?, elem.get("isActive")?.as_bool()?, value));
    }
    Some(out)
}

/// Sorts one inbound line: unparseable, a spontaneous heartbeat echo (the
/// nested device id equals the hub's echo identifier), or a real reply.
pub fn classify_line(line: &str) -> (r: LineClass)
    ensures
        r == (if !json_parses(line@) {
            LineClass::Malformed
        } else if device_id_of(line@) == Some(ECHO_DEVICE_ID) {
            LineClass::Echo
        } else {
            LineClass::Reply
        }),
{
    if !parse_check(line) {
        LineClass::Malformed
    } else if is_echo_device_id(line_device_id(line)) {
        LineClass::Echo
    } else {
        LineClass::Reply
    }
}

/// Whether a probe reply line has the hub's "no-op acknowledgement" shape:
/// it parses and carries no `data` section.
pub fn probe_line_no_data(line: &str) -> (r: bool)
    ensures
        r == (json_parses(line@) && !has_data_of(line@)),
{
    parse_check(line) && !line_has_data(line)
}

/// The `data` section of a reply line, rendered back as text for the
/// command-specific decoders; a line that does not parse is malformed.
pub fn reply_data(line: &str) -> (r: Result<String, ClientError>)
    ensures
        match r {
            Ok(s) => json_parses(line@) && s@ == data_rendering_of(line@),
            Err(e) => !json_parses(line@) && e == ClientError::MalformedResponse,
        },
{
    if parse_check(line) {
        Ok(line_data_rendering(line))
    } else {
        Err(ClientError::MalformedResponse)
    }
}

/// The session token of a handshake reply: the rendering of the value under
/// `meta.authID`. A line that does not parse counts as a transport failure
/// of the handshake.
pub fn extract_token(line: &str) -> (r: Result<String, ClientError>)
    ensures
        match r {
            Ok(s) => json_parses(line@) && s@ == token_rendering_of(line@),
            Err(e) => !json_parses(line@) && e == ClientError::Transport,
        },
{
    if parse_check(line) {
        Ok(line_token_rendering(line))
    } else {
        Err(ClientError::Transport)
    }
}

/// Whether every raw light record's id fits the 16-bit device-id range.
pub open spec fn light_ids_in_range(raw: Seq<(u64, bool)>) -> bool {
    forall|i: int| 0 <= i < raw.len() ==> (#[trigger] raw[i]).0 <= 65535
}

/// The raw light records of a query reply's data section: exactly the named
/// records of the text, each id narrowed to the 16-bit device-id range; a
/// text of any other shape, or an id out of range, is a malformed response.
pub fn decode_light_records(data: &str) -> (r: Result<Vec<(u16, bool)>, ClientError>)
    ensures
        match light_records_of(data@) {
            Some(raw) => if light_ids_in_range(raw) {
                r matches Ok(v) && v@.len() == raw.len() && (forall|i: int|
                    0 <= i < raw.len() ==> (#[trigger] v@[i]).0 as u64 == raw[i].0 && v@[i].1
                        == raw[i].1)
            } else {
                r == Err::<Vec<(u16, bool)>, ClientError>(ClientError::MalformedResponse)
            },
            None => r == Err::<Vec<(u16, bool)>, ClientError>(ClientError::MalformedResponse),
        },
{
    let raw = match light_records_from(data) {
        Some(v) => v,
        None => {
            return Err(ClientError::MalformedResponse);
        },
    };
    let mut out: Vec<(u16, bool)> = Vec::new();
    let mut i: usize = 0;
    while i < raw.len()
        invariant
            i <= raw@.len(),
            light_records_of(data@) == Some(raw@),
            out@.len() == i,
            forall|j: int|
                0 <= j < i ==> (#[trigger] raw@[j]).0 <= 65535 && out@[j].0 as u64 == raw@[j].0
                    && out@[j].1 == raw@[j].1,
        decreases raw@.len() - i,
    {
        let (id, active) = raw[i];
        proof {
            assert((id, active) == raw@[i as int]);
        }
        if id > 65535 {
            proof {
                assert(!light_ids_in_range(raw@)) by {
                    assert(raw@[i as int].0 > 65535);
                }
            }
            return Err(ClientError::MalformedResponse);
        }
        out.push((id as u16, active));
        proof {
            assert forall|j: int|
                0 <= j < i + 1 implies (#[trigger] raw@[j]).0 <= 65535 && out@[j].0 as u64
                == raw@[j].0 && out@[j].1 == raw@[j].1 by {
                if j == i {
                    assert(out@[j] == (id as u16, active));
                }
            }
        }
        i = i + 1;
    }
    Ok(out)
}

/// Decodes a lights query reply: exactly one Light per named record of the
/// text, its symbolic name decoded from the record's numeric id — unknown
/// ids decode to the sentinel name rather than failing — and its activity
/// flag carried through.
pub fn decode_lights(data: &str) -> (r: Result<Vec<Light>, ClientError>)
    ensures
        match light_records_of(data@) {
            Some(raw) => if light_ids_in_range(raw) {
                r matches Ok(lights) && lights@.len() == raw.len() && (forall|i: int|
                    0 <= i < raw.len() ==> (#[trigger] lights@[i]).id@ == light_name_chars(
                        raw[i].0 as nat,
                    ) && lights@[i].active == raw[i].1)
            } else {
                r == Err::<Vec<Light>, ClientError>(ClientError::MalformedResponse)
            },
            None => r == Err::<Vec<Light>, ClientError>(ClientError::MalformedResponse),
        },
{
    match decode_light_records(data) {
        Ok(raw) => Ok(lights_from_raw(&raw)),
        Err(e) => Err(e),
    }
}

/// Whether every raw AC record's id fits the 8-bit attribute-id range.
pub open spec fn ac_ids_in_range(raw: Seq<(u64, bool, Seq<char>)>) -> bool {
    forall|i: int| 0 <= i < raw.len() ==> (#[trigger] raw[i]).0 <= 255
}

/// The attribute record a raw `(id, isActive, readValue)` triple stands for,
/// once its id fits the attribute range.
pub open spec fn datum_of(t: (u64, bool, Seq<char>)) -> ACDatumView {
    ACDatumView { id: t.0 as u8, active: t.1, value: t.2 }
}

/// The raw AC attribute records of a query reply's data section: exactly the
/// named records of the text, each id narrowed to the 8-bit attribute range;
/// a text of any other shape, or an id out of range, is a malformed
/// response.
pub fn decode_ac_records(data: &str) -> (r: Result<Vec<ACDatum>, ClientError>)
    ensures
        match ac_records_of(data@) {
            Some(raw) => if ac_ids_in_range(raw) {
                r matches Ok(v) && v.deep_view().len() == raw.len() && (forall|i: int|
                    0 <= i < raw.len() ==> v.deep_view()[i] == datum_of(#[trigger] raw[i]))
            } else {
                r == Err::<Vec<ACDatum>, ClientError>(ClientError::MalformedResponse)
            },
            None => r == Err::<Vec<ACDatum>, ClientError>(ClientError::MalformedResponse),
        },
{
    let raw = match ac_records_from(data) {
        Some(v) => v,
        None => {
            return Err(ClientError::MalformedResponse);
        },
    };
    let mut out: Vec<ACDatum> = Vec::new();
    let mut i: usize = 0;
    while i < raw.len()
        invariant
            i <= raw@.len(),
            ac_records_of(data@) == Some(raw.deep_view()),
            raw.deep_view().len() == raw@.len(),
            forall|j: int|
                0 <= j < raw@.len() ==> #[trigger] raw.deep_view()[j] == (
                raw@[j].0,
                raw@[j].1,
                raw@[j].2@,
            ),
            out@.len() == i,
            forall|j: int|
                0 <= j < i ==> (#[trigger] raw@[j]).0 <= 255 && out@[j].id as u64 == raw@[j].0
                    && out@[j].active == raw@[j].1 && out@[j].value@ == raw@[j].2@,
        decreases raw@.len() - i,
    {
        let id = raw[i].0;
        let active = raw[i].1;
        if id > 255 {
            proof {
                assert(!ac_ids_in_range(raw.deep_view())) by {
                    assert(raw.deep_view()[i as int].0 > 255);
                }
            }
            return Err(ClientError::MalformedResponse);
        }
        let value = raw[i].2.clone();
        let ghost valv = value@;
        out.push(ACDatum { id: id as u8, active, value });
        proof {
            assert forall|j: int|
                0 <= j < i + 1 implies (#[trigger] raw@[j]).0 <= 255 && out@[j].id as u64
                == raw@[j].0 && out@[j].active == raw@[j].1 && out@[j].value@ == raw@[j].2@ by {
                if j == i {
                    assert(out@[j].id == id as u8 && out@[j].active == active && out@[j].value@
                        == valv);
                    assert(valv == raw@[j].2@);
                }
            }
        }
        i = i + 1;
    }
    proof {
        let rawv = raw.deep_view();
        assert forall|i: int| 0 <= i < rawv.len() implies out.deep_view()[i] == datum_of(
            #[trigger] rawv[i],
        ) by {
            assert(out.deep_view()[i] == out@[i].deep_view());
        }
    }
    Ok(out)
}

/// Decodes an AC query reply into one folded AC state: exactly the fold of
/// the named attribute records of the text.
pub fn decode_ac_info(data: &str) -> (r: Result<ACData, ClientError>)
    ensures
        match ac_records_of(data@) {
            Some(raw) => if ac_ids_in_range(raw) {
                r matches Ok(d) && d.deep_view() == fold_spec(
                    raw.map_values(|t: (u64, bool, Seq<char>)| datum_of(t)),
                )
            } else {
                r == Err::<ACData, ClientError>(ClientError::MalformedResponse)
            },
            None => r == Err::<ACData, ClientError>(ClientError::MalformedResponse),
        },
{
    match decode_ac_records(data) {
        Ok(records) => {
            let ghost recs = records.deep_view();
            let folded = ACData::from(records);
            proof {
                match ac_records_of(data@) {
                    Some(raw) => {
                        assert(recs =~= raw.map_values(|t: (u64, bool, Seq<char>)| datum_of(t)));
                    },
                    None => {
                        assert(false);
                    },
                }
            }
            Ok(folded)
        },
        Err(e) => Err(e),
    }
}

} // verus!
