//! The UDP lamp vendor's wire protocol.
//!
//! A request travels as a textual JSON envelope `{"msg":{"cmd":...,"data":...}}`.
//! The only command that is answered is `devStatus`; its reply carries the
//! device's state, with the on/off flag as the integer `0` or `1`, never as a
//! native boolean. Numbers travel as canonical decimal numerals. The encoder
//! and the decoder are both pinned to the same wire specification, and the
//! decoder recognizes exactly the canonical status reply.
use vstd::prelude::*;
use vstd::string::StrSliceExecFns;
use vstd::string::StringExecFns;

use crate::error::LightError;
use crate::numeral::dec_rep;
use crate::numeral::digit_val;
use crate::numeral::is_ascii_digit;
use crate::numeral::lemma_parse_at_concat;
use crate::numeral::lemma_parse_canonical;
use crate::numeral::lemma_parse_single_digit;
use crate::numeral::parse_number;
use crate::numeral::push_dec_u64;
use crate::numeral::spec_parse_number;

verus! {

/// Topic selector of the broadcast scan command.
#[derive(Debug, Clone, Copy, PartialEq, Eq, Structural)]
pub enum AccountTopic {
    Reserve,
}

/// An RGB triple as the device reports and accepts it.
#[derive(Debug, Clone, Copy, PartialEq, Eq, Structural)]
pub struct DeviceColor {
    pub r: u8,
    pub g: u8,
    pub b: u8,
}

/// The device state carried by a `devStatus` reply.
#[derive(Debug, Clone, Copy, PartialEq, Eq, Structural)]
pub struct DeviceStatus {
    /// Wire integer `1` decodes to `true`, `0` to `false`.
    pub on: bool,
    pub brightness: u8,
    pub color: DeviceColor,
    pub color_temperature_kelvin: u32,
}

/// The commands a client can send.
#[derive(Debug, Clone, Copy, PartialEq, Eq, Structural)]
pub enum Request {
    Scan { topic: AccountTopic },
    DevStatus {},
    Turn { value: u8 },
    Brightness { value: u8 },
    Color { color: DeviceColor },
}

/// A device announcing itself to a broadcast scan.
#[derive(Debug, Clone)]
pub struct LanDevice {
    pub ip: String,
    pub device: String,
    pub sku: String,
    pub ble_version_hard: String,
    pub ble_version_soft: String,
    pub wifi_version_hard: String,
    pub wifi_version_soft: String,
}

/// What can come back from a device. Commands that are fire-and-forget
/// yield `Void`.
#[derive(Debug, Clone)]
pub enum Response {
    Scan(LanDevice),
    DevStatus(DeviceStatus),
    Void,
}

/// The request envelope.
#[derive(Debug, Clone, Copy, PartialEq, Eq, Structural)]
pub struct RequestMessage {
    pub msg: Request,
}

impl RequestMessage {
    /// The exact wire form of this envelope.
    pub fn encode(&self) -> (s: String)
        ensures
            s@ == wire_request(self.msg),
    {
        encode_request(&self.msg)
    }
}

/// The response envelope.
#[derive(Debug, Clone)]
pub struct ResponseMessage {
    pub msg: Response,
}

/// The wire integer for the on/off flag.
pub open spec fn on_off_wire(on: bool) -> nat {
    if on {
        1
    } else {
        0
    }
}

/// The exact character sequence a request is sent as.
pub open spec fn wire_request(m: Request) -> Seq<char> {
    match m {
        Request::Scan { topic } => "{\"msg\":{\"cmd\":\"scan\",\"data\":{\"topic\":\"reserve\"}}}"@,
        Request::DevStatus {  } => "{\"msg\":{\"cmd\":\"devStatus\",\"data\":{}}}"@,
        Request::Turn { value } => "{\"msg\":{\"cmd\":\"turn\",\"data\":{\"value\":"@ + (dec_rep(
            value as nat,
        ) + "}}}"@),
        Request::Brightness { value } => "{\"msg\":{\"cmd\":\"brightness\",\"data\":{\"value\":"@
            + (dec_rep(value as nat) + "}}}"@),
        Request::Color { color } => "{\"msg\":{\"cmd\":\"colorwc\",\"data\":{\"color\":{\"r\":"@ + (
        dec_rep(color.r as nat) + (",\"g\":"@ + (dec_rep(color.g as nat) + (",\"b\":"@ + (dec_rep(
            color.b as nat,
        ) + "}}}}"@))))),
    }
}

/// The exact character sequence of a canonical `devStatus` reply.
pub open spec fn wire_status(st: DeviceStatus) -> Seq<char> {
    "{\"msg\":{\"cmd\":\"devStatus\",\"data\":{\"onOff\":"@ + (dec_rep(on_off_wire(st.on)) + (
    ",\"brightness\":"@ + (dec_rep(st.brightness as nat) + (",\"color\":{\"r\":"@ + (dec_rep(
        st.color.r as nat,
    ) + (",\"g\":"@ + (dec_rep(st.color.g as nat) + (",\"b\":"@ + (dec_rep(st.color.b as nat) + (
    "},\"colorTemInKelvin\":"@ + (dec_rep(st.color_temperature_kelvin as nat) + "}}}"@)))))))))))
}

/// Literal match at position `i`: the index just past the literal, or
/// nothing when `s` does not carry `l` there.
pub open spec fn match_lit(s: Seq<char>, i: int, l: Seq<char>) -> Option<int> {
    if 0 <= i && i + l.len() <= s.len() && s.subrange(i, i + l.len() as int) == l {
        Option::Some(i + l.len() as int)
    } else {
        Option::None
    }
}

/// Matching at the seam of a concatenation: at offset `o` the input carries
/// `l` and then `t`.
pub proof fn lemma_match_lit_at_concat(s: Seq<char>, o: int, l: Seq<char>, t: Seq<char>)
    requires
        0 <= o <= s.len(),
        s.skip(o) == l + t,
    ensures
        match_lit(s, o, l) == Option::Some(o + l.len() as int),
        s.skip(o + l.len() as int) =~= t,
{
    assert(s.skip(o).len() == s.len() - o);
    assert(s.subrange(o, o + l.len() as int) =~= l) by {
        assert forall|k: int| 0 <= k < l.len() implies #[trigger] s.subrange(
            o,
            o + l.len() as int,
        )[k] == l[k] by {
            assert(s[o + k] == s.skip(o)[k]);
        }
    }
    assert forall|k: int| 0 <= k < t.len() implies #[trigger] s.skip(o + l.len() as int)[k]
        == t[k] by {
        assert(s.skip(o + l.len() as int)[k] == s[o + l.len() + k]);
        assert(s[o + l.len() + k] == s.skip(o)[l.len() + k]);
    }
}

/// Compare the characters of `s` at position `i` against the literal `l`,
/// exactly as [`match_lit`] describes.
fn expect_lit(s: &str, i: usize, l: &str) -> (r: Option<usize>)
    ensures
        (match match_lit(s@, i as int, l@) {
            Option::None => r is None,
            Option::Some(j) => r is Some && r->0 as int == j,
        }),
{
    let n = s.unicode_len();
    let m = l.unicode_len();
    if i > n || m > n - i {
        return Option::None;
    }
    let mut k: usize = 0;
    while k < m
        invariant
            i + m <= n,
            n == s@.len(),
            m == l@.len(),
            k <= m,
            forall|t: int| 0 <= t < k ==> s@[i + t] == #[trigger] l@[t],
        decreases m - k,
    {
        let cs = s.get_char(i + k);
        let cl = l.get_char(k);
        if cs != cl {
            proof {
                assert(s@.subrange(i as int, i as int + l@.len() as int)[k as int] == s@[
                    i + k
                ]);
            }
            return Option::None;
        }
        k = k + 1;
    }
    proof {
        assert(s@.subrange(i as int, i as int + l@.len() as int) =~= l@);
    }
    Option::Some(i + m)
}

/// Parse of the canonical `devStatus` reply: the carried device state, or
/// nothing when the input is not such a reply from start to end.
pub open spec fn spec_parse_status(s: Seq<char>) -> Option<DeviceStatus> {
    match match_lit(s, 0, "{\"msg\":{\"cmd\":\"devStatus\",\"data\":{\"onOff\":"@) {
        Option::None => Option::None,
        Option::Some(i1) => match spec_parse_number(s, i1) {
            Option::None => Option::None,
            Option::Some((on, i2)) => if on > 1 {
                Option::None
            } else {
                match match_lit(s, i2, ",\"brightness\":"@) {
                    Option::None => Option::None,
                    Option::Some(i3) => match spec_parse_number(s, i3) {
                        Option::None => Option::None,
                        Option::Some((bright, i4)) => if bright > 255 {
                            Option::None
                        } else {
                            match match_lit(s, i4, ",\"color\":{\"r\":"@) {
                                Option::None => Option::None,
                                Option::Some(i5) => match spec_parse_number(s, i5) {
                                    Option::None => Option::None,
                                    Option::Some((red, i6)) => if red > 255 {
                                        Option::None
                                    } else {
                                        spec_parse_status_tail(s, on, bright, red, i6)
                                    },
                                },
                            }
                        },
                    },
                }
            },
        },
    }
}

/// Continuation of [`spec_parse_status`] after the red channel.
pub open spec fn spec_parse_status_tail(
    s: Seq<char>,
    on: nat,
    bright: nat,
    red: nat,
    i6: int,
) -> Option<DeviceStatus> {
    match match_lit(s, i6, ",\"g\":"@) {
        Option::None => Option::None,
        Option::Some(i7) => match spec_parse_number(s, i7) {
            Option::None => Option::None,
            Option::Some((green, i8)) => if green > 255 {
                Option::None
            } else {
                match match_lit(s, i8, ",\"b\":"@) {
                    Option::None => Option::None,
                    Option::Some(i9) => match spec_parse_number(s, i9) {
                        Option::None => Option::None,
                        Option::Some((blue, i10)) => if blue > 255 {
                            Option::None
                        } else {
                            match match_lit(s, i10, "},\"colorTemInKelvin\":"@) {
                                Option::None => Option::None,
                                Option::Some(i11) => match spec_parse_number(s, i11) {
                                    Option::None => Option::None,
                                    Option::Some((kelvin, i12)) => if kelvin > 4294967295 {
                                        Option::None
                                    } else {
                                        match match_lit(s, i12, "}}}"@) {
                                            Option::None => Option::None,
                                            Option::Some(i13) => if i13 == s.len() {
                                                Option::Some(
                                                    (DeviceStatus {
                                                        on: on == 1,
                                                        brightness: bright as u8,
                                                        color: (DeviceColor {
                                                            r: red as u8,
                                                            g: green as u8,
                                                            b: blue as u8,
                                                        }),
                                                        color_temperature_kelvin: kelvin as u32,
                                                    }),
                                                )
                                            } else {
                                                Option::None
                                            },
                                        }
                                    },
                                },
                            }
                        },
                    },
                }
            },
        },
    }
}

/// Decode a `devStatus` reply, exactly as [`spec_parse_status`] describes.
pub fn decode_status(s: &str) -> (r: Option<DeviceStatus>)
    ensures
        r == spec_parse_status(s@),
{
    let i1 = match expect_lit(s, 0, "{\"msg\":{\"cmd\":\"devStatus\",\"data\":{\"onOff\":") {
        Option::Some(i) => i,
        Option::None => {
            return Option::None;
        },
    };
    let (on, i2) = match parse_number(s, i1) {
        Option::Some(p) => p,
        Option::None => {
            return Option::None;
        },
    };
    if on > 1 {
        return Option::None;
    }
    let i3 = match expect_lit(s, i2, ",\"brightness\":") {
        Option::Some(i) => i,
        Option::None => {
            return Option::None;
        },
    };
    let (bright, i4) = match parse_number(s, i3) {
        Option::Some(p) => p,
        Option::None => {
            return Option::None;
        },
    };
    if bright > 255 {
        return Option::None;
    }
    let i5 = match expect_lit(s, i4, ",\"color\":{\"r\":") {
        Option::Some(i) => i,
        Option::None => {
            return Option::None;
        },
    };
    let (red, i6) = match parse_number(s, i5) {
        Option::Some(p) => p,
        Option::None => {
            return Option::None;
        },
    };
    if red > 255 {
        return Option::None;
    }
    let i7 = match expect_lit(s, i6, ",\"g\":") {
        Option::Some(i) => i,
        Option::None => {
            return Option::None;
        },
    };
    let (green, i8) = match parse_number(s, i7) {
        Option::Some(p) => p,
        Option::None => {
            return Option::None;
        },
    };
    if green > 255 {
        return Option::None;
    }
    let i9 = match expect_lit(s, i8, ",\"b\":") {
        Option::Some(i) => i,
        Option::None => {
            return Option::None;
        },
    };
    let (blue, i10) = match parse_number(s, i9) {
        Option::Some(p) => p,
        Option::None => {
            return Option::None;
        },
    };
    if blue > 255 {
        return Option::None;
    }
    let i11 = match expect_lit(s, i10, "},\"colorTemInKelvin\":") {
        Option::Some(i) => i,
        Option::None => {
            return Option::None;
        },
    };
    let (kelvin, i12) = match parse_number(s, i11) {
        Option::Some(p) => p,
        Option::None => {
            return Option::None;
        },
    };
    if kelvin > 4294967295 {
        return Option::None;
    }
    let i13 = match expect_lit(s, i12, "}}}") {
        Option::Some(i) => i,
        Option::None => {
            return Option::None;
        },
    };
    if i13 != s.unicode_len() {
        return Option::None;
    }
    Option::Some(
        DeviceStatus {
            on: on == 1,
            brightness: bright as u8,
            color: DeviceColor { r: red as u8, g: green as u8, b: blue as u8 },
            color_temperature_kelvin: kelvin as u32,
        },
    )
}

/// Decode what came back from a device after a `devStatus` exchange.
/// Only the canonical status reply is recognized; anything else is a
/// protocol error.
pub fn decode_response(s: &str) -> (r: Result<ResponseMessage, LightError>)
    ensures
        (match spec_parse_status(s@) {
            Option::Some(st) => r == Ok::<ResponseMessage, LightError>(
                (ResponseMessage { msg: Response::DevStatus(st) }),
            ),
            Option::None => r == Err::<ResponseMessage, LightError>(LightError::Protocol),
        }),
{
    match decode_status(s) {
        Option::Some(st) => Ok(ResponseMessage { msg: Response::DevStatus(st) }),
        Option::None => Err(LightError::Protocol),
    }
}

/// Encode a request into its exact wire form.
pub fn encode_request(m: &Request) -> (s: String)
    ensures
        s@ == wire_request(*m),
{
    match m {
        Request::Scan { topic } => {
            String::from_str("{\"msg\":{\"cmd\":\"scan\",\"data\":{\"topic\":\"reserve\"}}}")
        },
        Request::DevStatus {  } => {
            String::from_str("{\"msg\":{\"cmd\":\"devStatus\",\"data\":{}}}")
        },
        Request::Turn { value } => {
            let mut out = String::from_str("{\"msg\":{\"cmd\":\"turn\",\"data\":{\"value\":");
            push_dec_u64(&mut out, *value as u64);
            out.append("}}}");
            proof {
                assert(out@ =~= wire_request(*m));
            }
            out
        },
        Request::Brightness { value } => {
            let mut out = String::from_str("{\"msg\":{\"cmd\":\"brightness\",\"data\":{\"value\":");
            push_dec_u64(&mut out, *value as u64);
            out.append("}}}");
            proof {
                assert(out@ =~= wire_request(*m));
            }
            out
        },
        Request::Color { color } => {
            let mut out = String::from_str("{\"msg\":{\"cmd\":\"colorwc\",\"data\":{\"color\":{\"r\":");
            push_dec_u64(&mut out, color.r as u64);
            out.append(",\"g\":");
            push_dec_u64(&mut out, color.g as u64);
            out.append(",\"b\":");
            push_dec_u64(&mut out, color.b as u64);
            out.append("}}}}");
            proof {
                assert(out@ =~= wire_request(*m));
            }
            out
        },
    }
}

/// Concatenation of character sequences is associative.
proof fn lemma_assoc(a: Seq<char>, b: Seq<char>, c: Seq<char>)
    ensures
        a + b + c == a + (b + c),
{
    assert(a + b + c =~= a + (b + c));
}

/// The status wire form regrouped as a flat, left-nested concatenation,
/// the shape in which an encoder builds it piece by piece.
proof fn lemma_wire_status_flat(st: DeviceStatus)
    ensures
        wire_status(st) == "{\"msg\":{\"cmd\":\"devStatus\",\"data\":{\"onOff\":"@ + dec_rep(
            on_off_wire(st.on),
        ) + ",\"brightness\":"@ + dec_rep(st.brightness as nat) + ",\"color\":{\"r\":"@ + dec_rep(
            st.color.r as nat,
        ) + ",\"g\":"@ + dec_rep(st.color.g as nat) + ",\"b\":"@ + dec_rep(st.color.b as nat)
            + "},\"colorTemInKelvin\":"@ + dec_rep(st.color_temperature_kelvin as nat) + "}}}"@,
{
    let l0 = "{\"msg\":{\"cmd\":\"devStatus\",\"data\":{\"onOff\":"@;
    let l1 = ",\"brightness\":"@;
    let l2 = ",\"color\":{\"r\":"@;
    let l3 = ",\"g\":"@;
    let l4 = ",\"b\":"@;
    let l5 = "},\"colorTemInKelvin\":"@;
    let l6 = "}}}"@;
    let d0 = dec_rep(on_off_wire(st.on));
    let d1 = dec_rep(st.brightness as nat);
    let d2 = dec_rep(st.color.r as nat);
    let d3 = dec_rep(st.color.g as nat);
    let d4 = dec_rep(st.color.b as nat);
    let d5 = dec_rep(st.color_temperature_kelvin as nat);
    let t12 = d5 + l6;
    let t11 = l5 + t12;
    let t10 = d4 + t11;
    let t9 = l4 + t10;
    let t8 = d3 + t9;
    let t7 = l3 + t8;
    let t6 = d2 + t7;
    let t5 = l2 + t6;
    let t4 = d1 + t5;
    let t3 = l1 + t4;
    assert(wire_status(st) == l0 + (d0 + t3));
    lemma_assoc(l0, d0, t3);
    lemma_assoc(l0 + d0, l1, t4);
    lemma_assoc(l0 + d0 + l1, d1, t5);
    lemma_assoc(l0 + d0 + l1 + d1, l2, t6);
    lemma_assoc(l0 + d0 + l1 + d1 + l2, d2, t7);
    lemma_assoc(l0 + d0 + l1 + d1 + l2 + d2, l3, t8);
    lemma_assoc(l0 + d0 + l1 + d1 + l2 + d2 + l3, d3, t9);
    lemma_assoc(l0 + d0 + l1 + d1 + l2 + d2 + l3 + d3, l4, t10);
    lemma_assoc(l0 + d0 + l1 + d1 + l2 + d2 + l3 + d3 + l4, d4, t11);
    lemma_assoc(l0 + d0 + l1 + d1 + l2 + d2 + l3 + d3 + l4 + d4, l5, t12);
    lemma_assoc(l0 + d0 + l1 + d1 + l2 + d2 + l3 + d3 + l4 + d4 + l5, d5, l6);
}

/// Encode a device state into the exact wire form of a `devStatus` reply,
/// as a device itself would; test doubles stand in for a device with it.
#[verifier::rlimit(100)]
pub fn encode_status_response(st: &DeviceStatus) -> (s: String)
    ensures
        s@ == wire_status(*st),
{
    let mut out = String::from_str("{\"msg\":{\"cmd\":\"devStatus\",\"data\":{\"onOff\":");
    push_dec_u64(&mut out, if st.on { 1 } else { 0 });
    out.append(",\"brightness\":");
    push_dec_u64(&mut out, st.brightness as u64);
    out.append(",\"color\":{\"r\":");
    push_dec_u64(&mut out, st.color.r as u64);
    out.append(",\"g\":");
    push_dec_u64(&mut out, st.color.g as u64);
    out.append(",\"b\":");
    push_dec_u64(&mut out, st.color.b as u64);
    out.append("},\"colorTemInKelvin\":");
    push_dec_u64(&mut out, st.color_temperature_kelvin as u64);
    out.append("}}}");
    proof {
        lemma_wire_status_flat(*st);
    }
    out
}

/// Parsing the tail of a canonical status reply, from the green channel
/// on, recovers the remaining fields and ends exactly at the end.
#[verifier::rlimit(100)]
proof fn lemma_status_tail_parse(s: Seq<char>, st: DeviceStatus, o6: int)
    requires
        0 <= o6 <= s.len(),
        s.skip(o6) == ",\"g\":"@ + (dec_rep(st.color.g as nat) + (",\"b\":"@ + (dec_rep(
            st.color.b as nat,
        ) + ("},\"colorTemInKelvin\":"@ + (dec_rep(st.color_temperature_kelvin as nat)
            + "}}}"@))))),
    ensures
        spec_parse_status_tail(
            s,
            on_off_wire(st.on),
            st.brightness as nat,
            st.color.r as nat,
            o6,
        ) == Option::Some(st),
{
    let d_g = dec_rep(st.color.g as nat);
    let d_bl = dec_rep(st.color.b as nat);
    let d_k = dec_rep(st.color_temperature_kelvin as nat);
    let l3 = ",\"g\":"@;
    let l4 = ",\"b\":"@;
    let l5 = "},\"colorTemInKelvin\":"@;
    let l6 = "}}}"@;
    reveal_strlit(",\"g\":");
    reveal_strlit(",\"b\":");
    reveal_strlit("},\"colorTemInKelvin\":");
    reveal_strlit("}}}");
    let t12 = d_k + l6;
    let t11 = l5 + t12;
    let t10 = d_bl + t11;
    let t9 = l4 + t10;
    let t8 = d_g + t9;
    lemma_match_lit_at_concat(s, o6, l3, t8);
    let o7 = o6 + l3.len() as int;
    assert(t9[0] == ',' && !is_ascii_digit(t9[0]));
    lemma_parse_at_concat(s, o7, st.color.g as nat, t9);
    let o8 = o7 + d_g.len() as int;
    lemma_match_lit_at_concat(s, o8, l4, t10);
    let o9 = o8 + l4.len() as int;
    assert(t11[0] == '}' && !is_ascii_digit(t11[0]));
    lemma_parse_at_concat(s, o9, st.color.b as nat, t11);
    let o10 = o9 + d_bl.len() as int;
    lemma_match_lit_at_concat(s, o10, l5, t12);
    let o11 = o10 + l5.len() as int;
    assert(l6[0] == '}' && !is_ascii_digit(l6[0]));
    assert(t12 == d_k + (l6 + Seq::<char>::empty())) by {
        assert(l6 + Seq::<char>::empty() =~= l6);
    }
    lemma_parse_at_concat(s, o11, st.color_temperature_kelvin as nat, l6 + Seq::<char>::empty());
    let o12 = o11 + d_k.len() as int;
    lemma_match_lit_at_concat(s, o12, l6, Seq::<char>::empty());
    let o13 = o12 + l6.len() as int;
    assert(s.skip(o13).len() == 0);
    assert(o13 == s.len());
}

/// Round trip: every field of a device state survives an encode of the
/// status reply followed by a decode.
#[verifier::rlimit(100)]
pub proof fn lemma_status_round_trip(st: DeviceStatus)
    ensures
        spec_parse_status(wire_status(st)) == Option::Some(st),
{
    let s = wire_status(st);
    let d_on = dec_rep(on_off_wire(st.on));
    let d_b = dec_rep(st.brightness as nat);
    let d_r = dec_rep(st.color.r as nat);
    let l0 = "{\"msg\":{\"cmd\":\"devStatus\",\"data\":{\"onOff\":"@;
    let l1 = ",\"brightness\":"@;
    let l2 = ",\"color\":{\"r\":"@;
    reveal_strlit(",\"brightness\":");
    reveal_strlit(",\"color\":{\"r\":");
    reveal_strlit(",\"g\":");
    let t7 = ",\"g\":"@ + (dec_rep(st.color.g as nat) + (",\"b\":"@ + (dec_rep(st.color.b as nat)
        + ("},\"colorTemInKelvin\":"@ + (dec_rep(st.color_temperature_kelvin as nat)
        + "}}}"@)))));
    let t6 = d_r + t7;
    let t5 = l2 + t6;
    let t4 = d_b + t5;
    let t3 = l1 + t4;
    let t2 = d_on + t3;
    assert(s == l0 + t2);
    assert(s.skip(0) =~= s);
    lemma_match_lit_at_concat(s, 0, l0, t2);
    let o1 = l0.len() as int;
    assert(t3[0] == ',' && !is_ascii_digit(t3[0]));
    lemma_parse_at_concat(s, o1, on_off_wire(st.on), t3);
    let o2 = o1 + d_on.len() as int;
    lemma_match_lit_at_concat(s, o2, l1, t4);
    let o3 = o2 + l1.len() as int;
    assert(t5[0] == ',' && !is_ascii_digit(t5[0]));
    lemma_parse_at_concat(s, o3, st.brightness as nat, t5);
    let o4 = o3 + d_b.len() as int;
    lemma_match_lit_at_concat(s, o4, l2, t6);
    let o5 = o4 + l2.len() as int;
    assert(t7[0] == ',' && !is_ascii_digit(t7[0]));
    lemma_parse_at_concat(s, o5, st.color.r as nat, t7);
    let o6 = o5 + d_r.len() as int;
    assert(s.skip(o6).len() == s.len() - o6);
    lemma_status_tail_parse(s, st, o6);
}

/// Soundness of the tail of the status parse: what it accepted is, from
/// the green channel on, exactly the canonical wire form of what it
/// decoded.
#[verifier::rlimit(100)]
proof fn lemma_status_tail_sound(
    s: Seq<char>,
    on: nat,
    bright: nat,
    red: nat,
    i6: int,
    st: DeviceStatus,
)
    requires
        0 <= i6 <= s.len(),
        spec_parse_status_tail(s, on, bright, red, i6) == Option::Some(st),
    ensures
        s.skip(i6) == ",\"g\":"@ + (dec_rep(st.color.g as nat) + (",\"b\":"@ + (dec_rep(
            st.color.b as nat,
        ) + ("},\"colorTemInKelvin\":"@ + (dec_rep(st.color_temperature_kelvin as nat)
            + "}}}"@))))),
        st.on == (on == 1),
        st.brightness == bright as u8,
        st.color.r == red as u8,
{
    let l3 = ",\"g\":"@;
    let l4 = ",\"b\":"@;
    let l5 = "},\"colorTemInKelvin\":"@;
    let l6 = "}}}"@;
    assert(match_lit(s, i6, l3) is Some);
    let i7 = match_lit(s, i6, l3)->Some_0;
    assert(spec_parse_number(s, i7) is Some);
    let green = spec_parse_number(s, i7)->Some_0.0;
    let i8 = spec_parse_number(s, i7)->Some_0.1;
    assert(green <= 255);
    assert(match_lit(s, i8, l4) is Some);
    let i9 = match_lit(s, i8, l4)->Some_0;
    assert(spec_parse_number(s, i9) is Some);
    let blue = spec_parse_number(s, i9)->Some_0.0;
    let i10 = spec_parse_number(s, i9)->Some_0.1;
    assert(blue <= 255);
    assert(match_lit(s, i10, l5) is Some);
    let i11 = match_lit(s, i10, l5)->Some_0;
    assert(spec_parse_number(s, i11) is Some);
    let kelvin = spec_parse_number(s, i11)->Some_0.0;
    let i12 = spec_parse_number(s, i11)->Some_0.1;
    assert(kelvin <= 4294967295);
    assert(match_lit(s, i12, l6) is Some);
    let i13 = match_lit(s, i12, l6)->Some_0;
    assert(i13 == s.len());
    lemma_parse_canonical(s, i7, green, i8);
    lemma_parse_canonical(s, i9, blue, i10);
    lemma_parse_canonical(s, i11, kelvin, i12);
    assert(st.color.g == green as u8 && st.color.b == blue as u8 && st.color_temperature_kelvin
        == kelvin as u32);
    assert(st.color.g as nat == green && st.color.b as nat == blue
        && st.color_temperature_kelvin as nat == kelvin);
    assert(s.skip(i6) =~= l3 + (dec_rep(green) + (l4 + (dec_rep(blue) + (l5 + (dec_rep(kelvin)
        + l6))))));
}

/// Soundness of the decoder: a reply that decodes at all is exactly the
/// canonical wire form of the state it decodes to — together with the
/// round trip, the decoder recognizes the canonical status replies and
/// nothing else.
#[verifier::rlimit(100)]
pub proof fn lemma_status_parse_sound(s: Seq<char>, st: DeviceStatus)
    requires
        spec_parse_status(s) == Option::Some(st),
    ensures
        s == wire_status(st),
{
    let l0 = "{\"msg\":{\"cmd\":\"devStatus\",\"data\":{\"onOff\":"@;
    let l1 = ",\"brightness\":"@;
    let l2 = ",\"color\":{\"r\":"@;
    assert(match_lit(s, 0, l0) is Some);
    let i1 = match_lit(s, 0, l0)->Some_0;
    assert(spec_parse_number(s, i1) is Some);
    let on = spec_parse_number(s, i1)->Some_0.0;
    let i2 = spec_parse_number(s, i1)->Some_0.1;
    assert(on <= 1);
    assert(match_lit(s, i2, l1) is Some);
    let i3 = match_lit(s, i2, l1)->Some_0;
    assert(spec_parse_number(s, i3) is Some);
    let bright = spec_parse_number(s, i3)->Some_0.0;
    let i4 = spec_parse_number(s, i3)->Some_0.1;
    assert(bright <= 255);
    assert(match_lit(s, i4, l2) is Some);
    let i5 = match_lit(s, i4, l2)->Some_0;
    assert(spec_parse_number(s, i5) is Some);
    let red = spec_parse_number(s, i5)->Some_0.0;
    let i6 = spec_parse_number(s, i5)->Some_0.1;
    assert(red <= 255);
    assert(spec_parse_status_tail(s, on, bright, red, i6) == Option::Some(st));
    lemma_parse_canonical(s, i1, on, i2);
    lemma_parse_canonical(s, i3, bright, i4);
    lemma_parse_canonical(s, i5, red, i6);
    lemma_status_tail_sound(s, on, bright, red, i6, st);
    assert(on == on_off_wire(st.on));
    assert(st.brightness as nat == bright && st.color.r as nat == red);
    assert(s =~= l0 + (dec_rep(on) + (l1 + (dec_rep(bright) + (l2 + (dec_rep(red) + s.skip(
        i6,
    )))))));
}

/// Boolean-wire law: whenever a reply decodes at all, the decoded on/off
/// flag is `true` exactly when the wire carried the digit `1` in the
/// `onOff` position, and `false` exactly when it carried `0`.
pub proof fn lemma_boolean_wire(s: Seq<char>, st: DeviceStatus)
    requires
        spec_parse_status(s) == Option::Some(st),
    ensures
        st.on <==> s["{\"msg\":{\"cmd\":\"devStatus\",\"data\":{\"onOff\":"@.len() as int] == '1',
        !st.on <==> s["{\"msg\":{\"cmd\":\"devStatus\",\"data\":{\"onOff\":"@.len() as int] == '0',
{
    let l0 = "{\"msg\":{\"cmd\":\"devStatus\",\"data\":{\"onOff\":"@;
    let i1 = l0.len() as int;
    let p = spec_parse_number(s, i1);
    let on = p->Some_0.0;
    let i2 = p->Some_0.1;
    lemma_parse_single_digit(s, i1, on, i2);
    assert(digit_val(s[i1]) == on && is_ascii_digit(s[i1]));
    assert(s[i1] as int == 48 + on);
    assert(st.on <==> on == 1);
    assert(on == 1 ==> s[i1] as int == '1' as int);
    assert(on == 0 ==> s[i1] as int == '0' as int);
}

} // verus!
