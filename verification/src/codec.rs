//! Wire codec: turns a command into exactly one line of the hub's frame
//! syntax. A frame is a two-part envelope of `data` and `meta`; `meta` always
//! carries the session token, the request-kind tag and optional flags, with
//! the unused keys written as explicit nulls. Encoding is pure given a token,
//! and every encoder's contract pins the exact character sequence produced.

use vstd::prelude::*;

verus! {

/// The decimal digit character for `d` (meaningful for `d < 10`).
pub open spec fn dec_digit(d: nat) -> char {
    if d == 0 {
        '0'
    } else if d == 1 {
        '1'
    } else if d == 2 {
        '2'
    } else if d == 3 {
        '3'
    } else if d == 4 {
        '4'
    } else if d == 5 {
        '5'
    } else if d == 6 {
        '6'
    } else if d == 7 {
        '7'
    } else if d == 8 {
        '8'
    } else {
        '9'
    }
}

/// The usual decimal numeral for `n`, without sign or padding.
pub open spec fn dec_chars(n: nat) -> Seq<char>
    decreases n,
{
    if n < 10 {
        seq![dec_digit(n)]
    } else {
        dec_chars(n / 10).push(dec_digit(n % 10))
    }
}

/// One-character string for a single decimal digit.
fn dec_digit_str(d: u8) -> (r: &'static str)
    requires
        d < 10,
    ensures
        r@ == seq![dec_digit(d as nat)],
{
    proof {
        reveal_strlit("0");
        reveal_strlit("1");
        reveal_strlit("2");
        reveal_strlit("3");
        reveal_strlit("4");
        reveal_strlit("5");
        reveal_strlit("6");
        reveal_strlit("7");
        reveal_strlit("8");
        reveal_strlit("9");
    }
    let r: &'static str = match d {
        0 => "0",
        1 => "1",
        2 => "2",
        3 => "3",
        4 => "4",
        5 => "5",
        6 => "6",
        7 => "7",
        8 => "8",
        _ => "9",
    };
    proof {
        assert(r@ =~= seq![dec_digit(d as nat)]);
    }
    r
}

/// Renders `n` as its decimal numeral.
pub fn u64_dec(n: u64) -> (r: String)
    ensures
        r@ == dec_chars(n as nat),
    decreases n,
{
    if n < 10 {
        let r = dec_digit_str(n as u8).to_owned();
        proof {
            assert(r@ =~= dec_chars(n as nat));
        }
        r
    } else {
        let mut r = u64_dec(n / 10);
        r.append(dec_digit_str((n % 10) as u8));
        proof {
            assert(r@ =~= dec_chars(n as nat));
        }
        r
    }
}

/// Character-for-character equality of two strings.
pub fn str_eq(a: &str, b: &str) -> (r: bool)
    ensures
        r == (a@ == b@),
{
    let a_len = a.unicode_len();
    let b_len = b.unicode_len();
    if a_len != b_len {
        return false;
    }
    let mut i: usize = 0;
    while i < a_len
        invariant
            a_len == a@.len(),
            b_len == b@.len(),
            a_len == b_len,
            i <= a_len,
            forall|j: int| 0 <= j < i ==> a@[j] == b@[j],
        decreases a_len - i,
    {
        if a.get_char(i) != b.get_char(i) {
            return false;
        }
        i = i + 1;
    }
    proof {
        assert(a@ =~= b@);
    }
    true
}

/// Whether `c` is a decimal digit.
pub open spec fn is_digit(c: char) -> bool {
    '0' <= c && c <= '9'
}

/// Numeric value of a digit character (meaningful when `is_digit(c)`).
pub open spec fn digit_val(c: char) -> nat {
    (c as int - '0' as int) as nat
}

/// Whether every character of `s` is a decimal digit.
pub open spec fn all_digits(s: Seq<char>) -> bool {
    forall|i: int| 0 <= i < s.len() ==> is_digit(s[i])
}

/// Value of `s` read as a decimal numeral (meaningful when `all_digits(s)`).
pub open spec fn dec_value(s: Seq<char>) -> nat
    decreases s.len(),
{
    if s.len() == 0 {
        0
    } else {
        dec_value(s.drop_last()) * 10 + digit_val(s.last())
    }
}

pub proof fn lemma_dec_value_take_step(s: Seq<char>, i: int)
    requires
        0 <= i < s.len(),
    ensures
        dec_value(s.take(i + 1)) == dec_value(s.take(i)) * 10 + digit_val(s[i]),
{
    assert(s.take(i + 1).drop_last() =~= s.take(i));
    assert(s.take(i + 1).last() == s[i]);
}

/// Saturation bound for `dec_value_capped`: large enough to tell apart every
/// in-range port or temperature value from an overflowing numeral.
pub const DEC_VALUE_CAP: u32 = 100000;

/// Whether the characters of `s` in `[from, to)` are all decimal digits.
pub fn check_digits(s: &str, from: usize, to: usize) -> (r: bool)
    requires
        from <= to <= s@.len(),
    ensures
        r == all_digits(s@.subrange(from as int, to as int)),
{
    let mut i: usize = from;
    while i < to
        invariant
            from <= i <= to <= s@.len(),
            forall|j: int| from <= j < i ==> is_digit(s@[j]),
        decreases to - i,
    {
        let c = s.get_char(i);
        if !(c >= '0' && c <= '9') {
            proof {
                assert(s@.subrange(from as int, to as int)[i - from] == s@[i as int]);
            }
            return false;
        }
        i = i + 1;
    }
    proof {
        let sub = s@.subrange(from as int, to as int);
        assert forall|k: int| 0 <= k < sub.len() implies is_digit(sub[k]) by {
            assert(sub[k] == s@[from + k]);
        }
    }
    true
}

/// Value of the digit run of `s` in `[from, to)`, saturating at
/// `DEC_VALUE_CAP`.
pub fn dec_value_capped(s: &str, from: usize, to: usize) -> (r: u32)
    requires
        from <= to <= s@.len(),
        all_digits(s@.subrange(from as int, to as int)),
    ensures
        ({
            let v = dec_value(s@.subrange(from as int, to as int));
            if v > DEC_VALUE_CAP {
                r == DEC_VALUE_CAP
            } else {
                r == v
            }
        }),
{
    let ghost sub = s@.subrange(from as int, to as int);
    let mut acc: u32 = 0;
    let mut i: usize = from;
    while i < to
        invariant
            from <= i <= to <= s@.len(),
            sub == s@.subrange(from as int, to as int),
            all_digits(sub),
            acc <= DEC_VALUE_CAP,
            acc < DEC_VALUE_CAP ==> acc == dec_value(sub.take(i - from)),
            acc == DEC_VALUE_CAP ==> dec_value(sub.take(i - from)) >= DEC_VALUE_CAP,
        decreases to - i,
    {
        let c = s.get_char(i);
        proof {
            assert(sub[i - from] == s@[i as int]);
            lemma_dec_value_take_step(sub, i - from);
        }
        let d: u32 = (c as u32) - ('0' as u32);
        if acc >= DEC_VALUE_CAP / 10 + 1 {
            acc = DEC_VALUE_CAP;
        } else {
            acc = acc * 10 + d;
            if acc > DEC_VALUE_CAP {
                acc = DEC_VALUE_CAP;
            }
        }
        i = i + 1;
    }
    proof {
        assert(sub.take(to - from) =~= sub);
    }
    acc
}

/// A payload that may be absent; the wire writes `null` in its place.
pub open spec fn opt_or_null(s: Option<Seq<char>>) -> Seq<char> {
    match s {
        Some(cs) => cs,
        None => "null"@,
    }
}

/// View of an optional string argument.
pub open spec fn opt_view(s: Option<&str>) -> Option<Seq<char>> {
    match s {
        Some(cs) => Some(cs@),
        None => None,
    }
}

/// The full frame envelope: `data` section, then a `meta` section carrying
/// the session token under `authID`, the request-kind tag and the flags,
/// with every other meta key an explicit null, closed by a newline.
pub open spec fn frame_chars(
    data: Option<Seq<char>>,
    token: Seq<char>,
    request_type: nat,
    flags: Option<Seq<char>>,
) -> Seq<char> {
    "{'data':"@ + opt_or_null(data) + ",'meta':{'authID':"@ + token
        + ",'content_type':null,'error':null,'errorCode':null,'flags':"@ + opt_or_null(flags)
        + ",'requestType':"@ + dec_chars(request_type)
        + ",'scheme':null,'serverDateTime':null,'server_version':null,'version':null}}\n"@
}

/// Encodes one command frame: a newline-terminated envelope of `data` and
/// `meta`, the latter holding the current session token, the request-kind
/// tag and the optional flags.
pub fn encode_frame(data: Option<&str>, request_type: u16, token: &str, flags: Option<&str>) -> (r:
    String)
    ensures
        r@ == frame_chars(opt_view(data), token@, request_type as nat, opt_view(flags)),
{
    let mut r = String::new();
    r.append("{'data':");
    match data {
        Some(d) => r.append(d),
        None => r.append("null"),
    }
    r.append(",'meta':{'authID':");
    r.append(token);
    r.append(",'content_type':null,'error':null,'errorCode':null,'flags':");
    match flags {
        Some(f) => r.append(f),
        None => r.append("null"),
    }
    r.append(",'requestType':");
    let rt = u64_dec(request_type as u64);
    r.append(rt.as_str());
    r.append(",'scheme':null,'serverDateTime':null,'server_version':null,'version':null}}\n");
    proof {
        assert(r@ =~= frame_chars(opt_view(data), token@, request_type as nat, opt_view(flags)));
    }
    r
}

/// The authentication payload: the credentials under `userName` and
/// `password`, in the hub's single-quoted shape.
pub open spec fn auth_payload_chars(user: Seq<char>, pass: Seq<char>) -> Seq<char> {
    "{'userName':'"@ + user + "','password':'"@ + pass + "'}"@
}

/// Request-kind tag that signals "login" to the hub.
pub const AUTH_REQUEST_TYPE: u16 = 500;

/// Request-kind tag for an actuation command.
pub const ACTUATE_REQUEST_TYPE: u16 = 14;

/// Request-kind tag for a state query.
pub const QUERY_REQUEST_TYPE: u16 = 20;

/// Encodes the authentication handshake frame: the credentials as the data
/// section, no session token yet (`authID` null), and the login request kind.
pub fn encode_auth_frame(username: &str, password: &str) -> (r: String)
    ensures
        r@ == frame_chars(
            Some(auth_payload_chars(username@, password@)),
            "null"@,
            AUTH_REQUEST_TYPE as nat,
            None,
        ),
{
    let mut payload = String::new();
    payload.append("{'userName':'");
    payload.append(username);
    payload.append("','password':'");
    payload.append(password);
    payload.append("'}");
    proof {
        assert(payload@ =~= auth_payload_chars(username@, password@));
    }
    encode_frame(Some(payload.as_str()), AUTH_REQUEST_TYPE, "null", None)
}

/// The keepalive probe frame: an empty envelope on a line of its own.
pub fn probe_frame() -> (r: String)
    ensures
        r@ == "{}\n"@,
{
    "{}\n".to_owned()
}

/// A light switch payload: action 1 turns the fixture on, action 2 off,
/// addressed to the fixture's numeric device id.
pub open spec fn switch_light_payload_chars(id: nat, enable: bool) -> Seq<char> {
    "{'actionType':'"@ + (if enable {
        "1"@
    } else {
        "2"@
    }) + "','id':'"@ + dec_chars(id) + "','url':null,'value':'0'}"@
}

/// Encodes the payload of a light switch command.
pub fn encode_switch_light_payload(id: u16, enable: bool) -> (r: String)
    ensures
        r@ == switch_light_payload_chars(id as nat, enable),
{
    let mut r = String::new();
    r.append("{'actionType':'");
    if enable {
        r.append("1");
    } else {
        r.append("2");
    }
    r.append("','id':'");
    let id_str = u64_dec(id as u64);
    r.append(id_str.as_str());
    r.append("','url':null,'value':'0'}");
    proof {
        assert(r@ =~= switch_light_payload_chars(id as nat, enable));
    }
    r
}

/// A room query payload: the room id and the object-type code of the device
/// group being asked about.
pub open spec fn query_payload_chars(room_id: nat, object_type: nat) -> Seq<char> {
    "{'id':'"@ + dec_chars(room_id) + "','objectType':'"@ + dec_chars(object_type) + "'}"@
}

/// Encodes the payload of a room state query.
pub fn encode_query_payload(room_id: u16, object_type: u8) -> (r: String)
    ensures
        r@ == query_payload_chars(room_id as nat, object_type as nat),
{
    let mut r = String::new();
    r.append("{'id':'");
    let room_str = u64_dec(room_id as u64);
    r.append(room_str.as_str());
    r.append("','objectType':'");
    let ot_str = u64_dec(object_type as u64);
    r.append(ot_str.as_str());
    r.append("'}");
    proof {
        assert(r@ =~= query_payload_chars(room_id as nat, object_type as nat));
    }
    r
}

/// An AC actuation payload: action 13 addressed to the attribute's device id.
pub open spec fn action_payload_chars(device_id: nat) -> Seq<char> {
    "{'actionType':13,'id':'"@ + dec_chars(device_id) + "','url':null,'value':'0'}"@
}

/// Encodes the payload of an AC actuation command.
pub fn encode_action_payload(device_id: u8) -> (r: String)
    ensures
        r@ == action_payload_chars(device_id as nat),
{
    let mut r = String::new();
    r.append("{'actionType':13,'id':'");
    let id_str = u64_dec(device_id as u64);
    r.append(id_str.as_str());
    r.append("','url':null,'value':'0'}");
    proof {
        assert(r@ =~= action_payload_chars(device_id as nat));
    }
    r
}

} // verus!
