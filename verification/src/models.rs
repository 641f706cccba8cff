//! Device model translator: the domain types (light fixtures, AC attributes)
//! and their mapping to and from the numeric ids and field shapes the hub
//! protocol uses.

use vstd::prelude::*;
use crate::codec::{all_digits, dec_value, is_digit, str_eq, check_digits, dec_value_capped};
use crate::errors::ClientError;

verus! {

/// The kinds of device groups a room query can address.
pub enum DeviceType {
    Ac,
    Lights,
}

impl DeviceType {
    /// Numeric object-type code carried in a query payload.
    pub fn id(&self) -> (r: u8)
        ensures
            r == (match self {
                DeviceType::Ac => 4u8,
                DeviceType::Lights => 1u8,
            }),
    {
        match self {
            DeviceType::Ac => 4,
            DeviceType::Lights => 1,
        }
    }
}

/// A serializable message body.
pub struct Example {
    pub message: String,
}

/// A caller-facing error body: one plain message.
#[derive(Debug, Clone)]
pub struct CustomError {
    pub message: String,
}

/// Symbolic name of a light fixture's numeric device id: 13 is the ceiling
/// fixture, 146 the shelf fixture, anything else the unknown sentinel.
pub open spec fn light_name_chars(id: nat) -> Seq<char> {
    if id == 13 {
        "ceilingLights"@
    } else if id == 146 {
        "shelfLight"@
    } else {
        "???"@
    }
}

/// Numeric device id of a symbolic light name, if the name is known.
pub open spec fn light_id_of_name(name: Seq<char>) -> Option<u16> {
    if name == "ceilingLights"@ {
        Some(13u16)
    } else if name == "shelfLight"@ {
        Some(146u16)
    } else {
        None
    }
}

/// One light fixture: its symbolic id and whether it is on.
#[derive(Debug, Clone)]
pub struct Light {
    pub id: String,
    pub active: bool,
}

impl Light {
    /// The fixture's numeric device id; an `UnknownDevice` validation error
    /// for a symbolic id outside the two known fixtures.
    pub fn id_u16(&self) -> (r: Result<u16, ClientError>)
        ensures
            r == (match light_id_of_name(self.id@) {
                Some(id) => Ok::<u16, ClientError>(id),
                None => Err::<u16, ClientError>(ClientError::UnknownDevice),
            }),
    {
        if str_eq(self.id.as_str(), "ceilingLights") {
            Ok(13)
        } else if str_eq(self.id.as_str(), "shelfLight") {
            Ok(146)
        } else {
            Err(ClientError::UnknownDevice)
        }
    }
}

/// Decodes a numeric light device id into its symbolic name.
pub fn light_name(id: u16) -> (r: String)
    ensures
        r@ == light_name_chars(id as nat),
{
    if id == 13 {
        "ceilingLights".to_owned()
    } else if id == 146 {
        "shelfLight".to_owned()
    } else {
        "???".to_owned()
    }
}

/// Builds the Light records for a list of raw `(device id, is active)` pairs
/// as reported by the hub; unknown ids decode to the sentinel name rather
/// than failing, so the result is always fully populated.
pub fn lights_from_raw(raw: &Vec<(u16, bool)>) -> (r: Vec<Light>)
    ensures
        r@.len() == raw@.len(),
        forall|i: int|
            0 <= i < raw@.len() ==> (#[trigger] r@[i]).id@ == light_name_chars(raw@[i].0 as nat)
                && r@[i].active == raw@[i].1,
{
    let mut out: Vec<Light> = Vec::new();
    let mut i: usize = 0;
    while i < raw.len()
        invariant
            i <= raw@.len(),
            out@.len() == i,
            forall|j: int|
                0 <= j < i ==> (#[trigger] out@[j]).id@ == light_name_chars(raw@[j].0 as nat)
                    && out@[j].active == raw@[j].1,
        decreases raw@.len() - i,
    {
        let (id, active) = raw[i];
        out.push(Light { id: light_name(id), active });
        i = i + 1;
    }
    out
}

/// Decoding a light id and asking the decoded record for its numeric id
/// round-trips for the two known fixtures, and every other id decodes to the
/// unknown sentinel, whose numeric id is refused.
pub proof fn lemma_light_round_trip(id: u16)
    ensures
        id == 13 || id == 146 ==> light_id_of_name(light_name_chars(id as nat)) == Some(id),
        id != 13 && id != 146 ==> light_name_chars(id as nat) == "???"@ && light_id_of_name(
            light_name_chars(id as nat),
        ) is None,
{
    reveal_strlit("ceilingLights");
    reveal_strlit("shelfLight");
    reveal_strlit("???");
    assert("ceilingLights"@.len() == 13);
    assert("shelfLight"@.len() == 10);
    assert("???"@.len() == 3);
}

/// First index among `lights` whose symbolic id equals `id`, if any: how a
/// single fixture is looked up out of a room query's result.
pub fn find_light(lights: &Vec<Light>, id: &str) -> (r: Option<usize>)
    ensures
        match r {
            Some(i) => i < lights@.len() && lights@[i as int].id@ == id@ && (forall|j: int|
                0 <= j < i ==> (#[trigger] lights@[j]).id@ != id@),
            None => forall|j: int| 0 <= j < lights@.len() ==> (#[trigger] lights@[j]).id@ != id@,
        },
{
    let mut i: usize = 0;
    while i < lights.len()
        invariant
            i <= lights@.len(),
            forall|j: int| 0 <= j < i ==> (#[trigger] lights@[j]).id@ != id@,
        decreases lights@.len() - i,
    {
        if str_eq(lights[i].id.as_str(), id) {
            return Some(i);
        }
        i = i + 1;
    }
    None
}

/// Fan speed selection of the AC unit.
#[derive(Clone, Copy, PartialEq, Eq, Structural, Debug)]
pub enum FanSpeed {
    Auto,
    Slow,
    Medium,
    Fast,
}

/// The fan speed a raw hub attribute value stands for, if any.
pub open spec fn fan_speed_from_chars(s: Seq<char>) -> Option<FanSpeed> {
    if s == "00"@ {
        Some(FanSpeed::Auto)
    } else if s == "01"@ {
        Some(FanSpeed::Slow)
    } else if s == "02"@ {
        Some(FanSpeed::Medium)
    } else if s == "03"@ {
        Some(FanSpeed::Fast)
    } else {
        None
    }
}

impl FanSpeed {
    /// Decodes the raw attribute value the hub reports for fan speed.
    pub fn from(value: &str) -> (r: Option<FanSpeed>)
        ensures
            r == fan_speed_from_chars(value@),
    {
        if str_eq(value, "00") {
            Some(FanSpeed::Auto)
        } else if str_eq(value, "01") {
            Some(FanSpeed::Slow)
        } else if str_eq(value, "02") {
            Some(FanSpeed::Medium)
        } else if str_eq(value, "03") {
            Some(FanSpeed::Fast)
        } else {
            None
        }
    }
}

/// One raw attribute record as emitted by the hub: the attribute id, an
/// activity flag, and the reported value text.
#[derive(Debug, Clone, PartialEq, Eq)]
pub struct ACDatum {
    pub id: u8,
    pub active: bool,
    pub value: String,
}

/// Mathematical image of an `ACDatum`.
pub struct ACDatumView {
    pub id: u8,
    pub active: bool,
    pub value: Seq<char>,
}

impl DeepView for ACDatum {
    type V = ACDatumView;

    open spec fn deep_view(&self) -> ACDatumView {
        ACDatumView { id: self.id, active: self.active, value: self.value@ }
    }
}

/// AC state with every attribute independently optional: absence means "not
/// reported" on the read path and "leave unchanged" on the write path. The
/// room temperature is kept as the raw text the hub reported.
#[derive(Debug, Clone)]
pub struct ACData {
    pub room_temp: Option<String>,
    pub set_temp: Option<u8>,
    pub fan_speed: Option<FanSpeed>,
    pub active: Option<bool>,
}

/// Mathematical image of an `ACData`.
pub struct ACDataView {
    pub room_temp: Option<Seq<char>>,
    pub set_temp: Option<u8>,
    pub fan_speed: Option<FanSpeed>,
    pub active: Option<bool>,
}

impl DeepView for ACData {
    type V = ACDataView;

    open spec fn deep_view(&self) -> ACDataView {
        ACDataView {
            room_temp: match self.room_temp {
                Some(ref s) => Some(s@),
                None => None,
            },
            set_temp: self.set_temp,
            fan_speed: self.fan_speed,
            active: self.active,
        }
    }
}

/// Length of the leading digit run of `s`.
pub open spec fn int_part_len(s: Seq<char>) -> int
    decreases s.len(),
{
    if s.len() == 0 {
        0
    } else if !is_digit(s[0]) {
        0
    } else {
        1 + int_part_len(s.drop_first())
    }
}

/// The leading digit run ends exactly where the digits stop.
pub proof fn lemma_int_part_len_at(s: Seq<char>, k: int)
    requires
        0 <= k <= s.len(),
        forall|j: int| 0 <= j < k ==> is_digit(s[j]),
        k < s.len() ==> !is_digit(s[k]),
    ensures
        int_part_len(s) == k,
    decreases s.len(),
{
    if k == 0 {
    } else {
        assert(is_digit(s[0]));
        assert forall|j: int| 0 <= j < k - 1 implies is_digit(s.drop_first()[j]) by {
            assert(s.drop_first()[j] == s[j + 1]);
        }
        if k - 1 < s.drop_first().len() {
            assert(s.drop_first()[k - 1] == s[k]);
        }
        lemma_int_part_len_at(s.drop_first(), k - 1);
    }
}

/// Saturation of a numeral value to the 8-bit range.
pub open spec fn sat_u8(n: nat) -> u8 {
    if n > 255 {
        255u8
    } else {
        n as u8
    }
}

/// The set-temperature a raw attribute value stands for: the integer part of
/// an unsigned decimal numeral (digits, optionally followed by a point and
/// further digits), saturated to the 8-bit range; anything else is treated
/// as not reported.
pub open spec fn parse_temp_chars(s: Seq<char>) -> Option<u8> {
    let k = int_part_len(s);
    if k > 0 && (k == s.len() || (s[k] == '.' && all_digits(s.skip(k + 1)))) {
        Some(sat_u8(dec_value(s.take(k))))
    } else {
        None
    }
}

/// Length of the leading digit run of `s`.
fn digit_run_len(s: &str) -> (k: usize)
    ensures
        k as int == int_part_len(s@),
        k <= s@.len(),
        forall|j: int| 0 <= j < k ==> is_digit(s@[j]),
{
    let len = s.unicode_len();
    let mut k: usize = 0;
    loop
        invariant
            k <= len,
            len == s@.len(),
            forall|j: int| 0 <= j < k ==> is_digit(s@[j]),
        decreases len - k,
    {
        if k == len {
            proof {
                lemma_int_part_len_at(s@, k as int);
            }
            return k;
        }
        let c = s.get_char(k);
        if !(c >= '0' && c <= '9') {
            proof {
                lemma_int_part_len_at(s@, k as int);
            }
            return k;
        }
        k = k + 1;
    }
}

/// Parses a raw temperature value reported by the hub.
pub fn parse_temp(s: &str) -> (r: Option<u8>)
    ensures
        r == parse_temp_chars(s@),
{
    let len = s.unicode_len();
    let k = digit_run_len(s);
    if k == 0 {
        return None;
    }
    if k < len {
        if s.get_char(k) != '.' {
            return None;
        }
        if !check_digits(s, k + 1, len) {
            proof {
                assert(s@.subrange(k + 1, len as int) =~= s@.skip(k + 1));
            }
            return None;
        }
        proof {
            assert(s@.subrange(k + 1, len as int) =~= s@.skip(k + 1));
        }
    }
    proof {
        assert(s@.subrange(0, k as int) =~= s@.take(k as int));
        assert forall|j: int| 0 <= j < s@.take(k as int).len() implies is_digit(
            s@.take(k as int)[j],
        ) by {
            assert(s@.take(k as int)[j] == s@[j]);
        }
    }
    let v = dec_value_capped(s, 0, k);
    if v > 255 {
        Some(255)
    } else {
        Some(v as u8)
    }
}

/// The first record in `s` carrying attribute id `id`, if any.
pub open spec fn find_datum(s: Seq<ACDatumView>, id: u8) -> Option<ACDatumView>
    decreases s.len(),
{
    if s.len() == 0 {
        None
    } else if s[0].id == id {
        Some(s[0])
    } else {
        find_datum(s.drop_first(), id)
    }
}

pub proof fn lemma_find_datum_at(s: Seq<ACDatumView>, id: u8, j: int)
    requires
        0 <= j < s.len(),
        s[j].id == id,
        forall|l: int| 0 <= l < j ==> s[l].id != id,
    ensures
        find_datum(s, id) == Some(s[j]),
    decreases j,
{
    if j > 0 {
        assert forall|l: int| 0 <= l < j - 1 implies s.drop_first()[l].id != id by {
            assert(s.drop_first()[l] == s[l + 1]);
        }
        assert(s.drop_first()[j - 1] == s[j]);
        lemma_find_datum_at(s.drop_first(), id, j - 1);
    }
}

pub proof fn lemma_find_datum_none(s: Seq<ACDatumView>, id: u8)
    requires
        forall|l: int| 0 <= l < s.len() ==> s[l].id != id,
    ensures
        find_datum(s, id) is None,
    decreases s.len(),
{
    if s.len() > 0 {
        assert forall|l: int| 0 <= l < s.drop_first().len() implies s.drop_first()[l].id != id by {
            assert(s.drop_first()[l] == s[l + 1]);
        }
        lemma_find_datum_none(s.drop_first(), id);
    }
}

/// Attribute id under which the hub reports the room temperature.
pub const ATTR_ROOM_TEMP: u8 = 60;

/// Attribute id under which the hub reports the set temperature.
pub const ATTR_SET_TEMP: u8 = 62;

/// Attribute id under which the hub reports the fan speed.
pub const ATTR_FAN_SPEED: u8 = 67;

/// Attribute id under which the hub reports whether the unit is on.
pub const ATTR_ACTIVE: u8 = 57;

/// Folding a batch of raw attribute records into one AC state: for each
/// attribute, the first record carrying its id decides the field; a missing
/// id leaves the field absent.
pub open spec fn fold_spec(s: Seq<ACDatumView>) -> ACDataView {
    ACDataView {
        room_temp: match find_datum(s, ATTR_ROOM_TEMP) {
            Some(d) => Some(d.value),
            None => None,
        },
        set_temp: match find_datum(s, ATTR_SET_TEMP) {
            Some(d) => parse_temp_chars(d.value),
            None => None,
        },
        fan_speed: match find_datum(s, ATTR_FAN_SPEED) {
            Some(d) => fan_speed_from_chars(d.value),
            None => None,
        },
        active: match find_datum(s, ATTR_ACTIVE) {
            Some(d) => Some(d.active),
            None => None,
        },
    }
}

/// First index of `records` carrying attribute id `id`, if any.
fn find_first(records: &Vec<ACDatum>, id: u8) -> (r: Option<usize>)
    ensures
        match r {
            Some(j) => j < records@.len() && find_datum(records.deep_view(), id) == Some(
                records.deep_view()[j as int],
            ),
            None => find_datum(records.deep_view(), id) is None,
        },
{
    let ghost s = records.deep_view();
    let mut i: usize = 0;
    while i < records.len()
        invariant
            i <= records@.len(),
            s == records.deep_view(),
            s.len() == records@.len(),
            forall|l: int| 0 <= l < s.len() ==> #[trigger] s[l] == records@[l].deep_view(),
            forall|l: int| 0 <= l < i ==> #[trigger] s[l].id != id,
        decreases records@.len() - i,
    {
        if records[i].id == id {
            proof {
                lemma_find_datum_at(s, id, i as int);
            }
            return Some(i);
        }
        i = i + 1;
    }
    proof {
        lemma_find_datum_none(s, id);
    }
    None
}

impl ACData {
    /// Folds the raw attribute records of one hub exchange into an AC state.
    pub fn from(records: Vec<ACDatum>) -> (r: ACData)
        ensures
            r.deep_view() == fold_spec(records.deep_view()),
    {
        let room_temp: Option<String> = match find_first(&records, ATTR_ROOM_TEMP) {
            Some(j) => Some(records[j].value.clone()),
            None => None,
        };
        let set_temp: Option<u8> = match find_first(&records, ATTR_SET_TEMP) {
            Some(j) => parse_temp(records[j].value.as_str()),
            None => None,
        };
        let fan_speed: Option<FanSpeed> = match find_first(&records, ATTR_FAN_SPEED) {
            Some(j) => FanSpeed::from(records[j].value.as_str()),
            None => None,
        };
        let active: Option<bool> = match find_first(&records, ATTR_ACTIVE) {
            Some(j) => Some(records[j].active),
            None => None,
        };
        ACData { room_temp, set_temp, fan_speed, active }
    }
}

/// `find_datum` respects membership: a found record is in the batch, and a
/// miss means no record carries the id.
proof fn lemma_find_datum_membership(s: Seq<ACDatumView>, id: u8)
    ensures
        match find_datum(s, id) {
            Some(d) => s.contains(d) && d.id == id,
            None => forall|l: int| 0 <= l < s.len() ==> (#[trigger] s[l]).id != id,
        },
    decreases s.len(),
{
    if s.len() > 0 && s[0].id != id {
        lemma_find_datum_membership(s.drop_first(), id);
        match find_datum(s.drop_first(), id) {
            Some(d) => {
                let j = choose|j: int|
                    0 <= j < s.drop_first().len() && s.drop_first()[j] == d;
                assert(s[j + 1] == d);
            },
            None => {
                assert forall|l: int| 0 <= l < s.len() implies (#[trigger] s[l]).id != id by {
                    if l > 0 {
                        assert(s.drop_first()[l - 1] == s[l]);
                    }
                }
            },
        }
    }
}

/// Under per-id uniqueness, `find_datum` is decided by membership alone.
proof fn lemma_find_datum_permutation(s1: Seq<ACDatumView>, s2: Seq<ACDatumView>, id: u8)
    requires
        s1.to_multiset() == s2.to_multiset(),
        forall|i: int, j: int|
            0 <= i < s1.len() && 0 <= j < s1.len() && (#[trigger] s1[i]).id == (
            #[trigger] s1[j]).id ==> s1[i] == s1[j],
    ensures
        find_datum(s1, id) == find_datum(s2, id),
{
    broadcast use vstd::seq_lib::to_multiset_contains;

    lemma_find_datum_membership(s1, id);
    lemma_find_datum_membership(s2, id);
    match find_datum(s1, id) {
        Some(d1) => {
            assert(s1.to_multiset().count(d1) > 0);
            assert(s2.to_multiset().count(d1) > 0);
            assert(s2.contains(d1));
            match find_datum(s2, id) {
                Some(d2) => {
                    assert(s2.to_multiset().count(d2) > 0);
                    assert(s1.to_multiset().count(d2) > 0);
                    assert(s1.contains(d2));
                    let i = choose|i: int| 0 <= i < s1.len() && s1[i] == d1;
                    let j = choose|j: int| 0 <= j < s1.len() && s1[j] == d2;
                    assert(s1[i] == s1[j]);
                },
                None => {
                    let j = choose|j: int| 0 <= j < s2.len() && s2[j] == d1;
                    assert(s2[j].id != id);
                },
            }
        },
        None => {
            match find_datum(s2, id) {
                Some(d2) => {
                    assert(s2.to_multiset().count(d2) > 0);
                    assert(s1.to_multiset().count(d2) > 0);
                    assert(s1.contains(d2));
                    let j = choose|j: int| 0 <= j < s1.len() && s1[j] == d2;
                    assert(s1[j].id != id);
                },
                None => {},
            }
        },
    }
}

/// Folding a set of attribute records is order-independent: two batches that
/// hold the same records (as a multiset), with at most one record per
/// attribute id, fold to the same AC state.
pub proof fn lemma_fold_order_independent(s1: Seq<ACDatumView>, s2: Seq<ACDatumView>)
    requires
        s1.to_multiset() == s2.to_multiset(),
        forall|i: int, j: int|
            0 <= i < s1.len() && 0 <= j < s1.len() && (#[trigger] s1[i]).id == (
            #[trigger] s1[j]).id ==> s1[i] == s1[j],
    ensures
        fold_spec(s1) == fold_spec(s2),
{
    lemma_find_datum_permutation(s1, s2, ATTR_ROOM_TEMP);
    lemma_find_datum_permutation(s1, s2, ATTR_SET_TEMP);
    lemma_find_datum_permutation(s1, s2, ATTR_FAN_SPEED);
    lemma_find_datum_permutation(s1, s2, ATTR_ACTIVE);
}

} // verus!
