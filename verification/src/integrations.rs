//! Vendor integrations: the contract every vendor module implements, and
//! the two vendors this crate ships.
//!
//! An integration's asynchronous discovery is driven by the surrounding
//! runtime; everything it decides — gating, reply handling, collecting the
//! reachable subset — lives here.
use vstd::prelude::*;
use vstd::string::StrSliceExecFns;
use vstd::string::StringExecFns;

use crate::config::CuteLightsConfig;
use crate::config::OpenRgbConfig;
use crate::error::LightError;
use crate::lights::GoveeLight;
use crate::lights::Light;
use crate::numeral::parse_number;
use crate::numeral::spec_parse_number;
use crate::protocol::decode_status;
use crate::protocol::spec_parse_status;

verus! {

/// The fixed per-device control port of the UDP lamp protocol.
pub const GOVEE_CONTROL_PORT: u16 = 4003;

/// The local port the shared client socket binds for a discovery pass.
pub const GOVEE_BIND_PORT: u16 = 4002;

/// A vendor module: a name, a cheap synchronous preflight gate, and an
/// asynchronous discovery operation that the surrounding runtime drives.
///
/// `preflight` returning false means discovery must not be invoked, so no
/// network traffic at all happens for that vendor.
pub trait Integration {
    /// Whether the configuration enables this vendor.
    spec fn spec_enabled(c: CuteLightsConfig) -> bool;

    /// The vendor's identifier as a character sequence.
    spec fn spec_name() -> Seq<char>;

    /// The vendor tag used to keep per-vendor results apart.
    spec fn spec_vendor() -> crate::discover::Vendor;

    /// The vendor identifier used for namespacing and diagnostics.
    fn name() -> (n: String)
        ensures
            n@ == Self::spec_name(),
    ;

    /// The preflight gate: synchronous, side-effect-free, and exactly the
    /// configuration's enabled flag for this vendor.
    fn preflight(c: &CuteLightsConfig) -> (b: bool)
        ensures
            b == Self::spec_enabled(*c),
    ;

    /// The vendor tag.
    fn vendor() -> (v: crate::discover::Vendor)
        ensures
            v == Self::spec_vendor(),
    ;
}

/// The UDP lamp vendor.
pub struct GoveeIntegration;

impl Integration for GoveeIntegration {
    open spec fn spec_enabled(c: CuteLightsConfig) -> bool {
        c.govee.enabled
    }

    open spec fn spec_name() -> Seq<char> {
        "govee"@
    }

    open spec fn spec_vendor() -> crate::discover::Vendor {
        crate::discover::Vendor::Govee
    }

    fn name() -> (n: String) {
        String::from_str("govee")
    }

    fn preflight(c: &CuteLightsConfig) -> (b: bool) {
        c.govee.enabled
    }

    fn vendor() -> (v: crate::discover::Vendor) {
        crate::discover::Vendor::Govee
    }
}

/// The RGB-hub vendor.
pub struct OpenRgbIntegration;

impl Integration for OpenRgbIntegration {
    open spec fn spec_enabled(c: CuteLightsConfig) -> bool {
        c.openrgb.enabled
    }

    open spec fn spec_name() -> Seq<char> {
        "openrgb"@
    }

    open spec fn spec_vendor() -> crate::discover::Vendor {
        crate::discover::Vendor::OpenRgb
    }

    fn name() -> (n: String) {
        String::from_str("openrgb")
    }

    fn preflight(c: &CuteLightsConfig) -> (b: bool) {
        c.openrgb.enabled
    }

    fn vendor() -> (v: crate::discover::Vendor) {
        crate::discover::Vendor::OpenRgb
    }
}

/// Parse of a configured device address: four canonical decimal octets,
/// each at most 255, separated by dots, spanning the whole input.
pub open spec fn spec_parse_ipv4(s: Seq<char>) -> Option<(u8, u8, u8, u8)> {
    match spec_parse_number(s, 0) {
        Option::None => Option::None,
        Option::Some((a, i1)) => if a > 255 || i1 >= s.len() || s[i1] != '.' {
            Option::None
        } else {
            match spec_parse_number(s, i1 + 1) {
                Option::None => Option::None,
                Option::Some((b, i2)) => if b > 255 || i2 >= s.len() || s[i2] != '.' {
                    Option::None
                } else {
                    match spec_parse_number(s, i2 + 1) {
                        Option::None => Option::None,
                        Option::Some((c, i3)) => if c > 255 || i3 >= s.len() || s[i3] != '.' {
                            Option::None
                        } else {
                            match spec_parse_number(s, i3 + 1) {
                                Option::None => Option::None,
                                Option::Some((d, i4)) => if d > 255 || i4 != s.len() {
                                    Option::None
                                } else {
                                    Option::Some((a as u8, b as u8, c as u8, d as u8))
                                },
                            }
                        },
                    }
                },
            }
        },
    }
}

/// Validate a configured device address and take it apart into its four
/// octets; a malformed address is a configuration error, exactly when
/// [`spec_parse_ipv4`] rejects it.
pub fn parse_ipv4(s: &str) -> (r: Result<(u8, u8, u8, u8), LightError>)
    ensures
        (match spec_parse_ipv4(s@) {
            Option::Some(q) => r == Ok::<(u8, u8, u8, u8), LightError>(q),
            Option::None => r == Err::<(u8, u8, u8, u8), LightError>(LightError::Config),
        }),
{
    let n = s.unicode_len();
    let (a, i1) = match parse_number(s, 0) {
        Option::Some(p) => p,
        Option::None => {
            return Err(LightError::Config);
        },
    };
    if a > 255 || i1 >= n || s.get_char(i1) != '.' {
        return Err(LightError::Config);
    }
    let (b, i2) = match parse_number(s, i1 + 1) {
        Option::Some(p) => p,
        Option::None => {
            return Err(LightError::Config);
        },
    };
    if b > 255 || i2 >= n || s.get_char(i2) != '.' {
        return Err(LightError::Config);
    }
    let (c, i3) = match parse_number(s, i2 + 1) {
        Option::Some(p) => p,
        Option::None => {
            return Err(LightError::Config);
        },
    };
    if c > 255 || i3 >= n || s.get_char(i3) != '.' {
        return Err(LightError::Config);
    }
    let (d, i4) = match parse_number(s, i3 + 1) {
        Option::Some(p) => p,
        Option::None => {
            return Err(LightError::Config);
        },
    };
    if d > 255 || i4 != n {
        return Err(LightError::Config);
    }
    Ok((a as u8, b as u8, c as u8, d as u8))
}

/// The endpoint an enabled hub pass connects to: the configured host
/// taken apart as a dotted quad, with the configured port. A host that is
/// no dotted quad cannot be resolved here, so the pass cannot even begin:
/// a discovery error, absorbed later into an empty contribution.
pub fn openrgb_endpoint(c: &OpenRgbConfig) -> (r: Result<((u8, u8, u8, u8), u16), LightError>)
    ensures
        (match spec_parse_ipv4(c.address@) {
            Option::Some(q) => r == Ok::<((u8, u8, u8, u8), u16), LightError>((q, c.port)),
            Option::None => r == Err::<((u8, u8, u8, u8), u16), LightError>(LightError::Discovery),
        }),
{
    match parse_ipv4(c.address.as_str()) {
        Ok(q) => Ok((q, c.port)),
        Err(_) => Err(LightError::Discovery),
    }
}

/// Build a lamp handle from what the device at `address` answered to the
/// initial status exchange: a live handle populated from the reply when it
/// decodes, nothing otherwise — that address is then skipped, not fatal to
/// the rest of the pass.
pub fn govee_device_from_reply(address: &String, reply: &str) -> (r: Option<GoveeLight>)
    ensures
        (match spec_parse_status(reply@) {
            Option::Some(st) => r matches Option::Some(l) && l.device_id@ == address@ && l.is_on
                == st.on && l.brightness == st.brightness && l.red == st.color.r && l.green
                == st.color.g && l.blue == st.color.b,
            Option::None => r is None,
        }),
{
    match decode_status(reply) {
        Option::Some(st) => Option::Some(GoveeLight::new(address.clone(), &st)),
        Option::None => Option::None,
    }
}

/// The devices that answered, in probe order, with the silent ones left
/// out.
pub open spec fn present<T>(s: Seq<Option<T>>) -> Seq<T>
    decreases s.len(),
{
    if s.len() == 0 {
        Seq::empty()
    } else {
        match s[0] {
            Option::Some(x) => seq![x] + present(s.drop_first()),
            Option::None => present(s.drop_first()),
        }
    }
}

/// Collect the reachable subset of a vendor's probes: exactly the answers
/// that produced a handle, in probe order.
pub fn collect_present<T>(results: Vec<Option<T>>) -> (r: Vec<T>)
    ensures
        r@ == present(results@),
{
    let ghost orig = results@;
    let mut results = results;
    let mut out: Vec<T> = Vec::new();
    while results.len() > 0
        invariant
            present(orig) == out@ + present(results@),
        decreases results@.len(),
    {
        let ghost before = results@;
        match results.remove(0) {
            Option::Some(x) => {
                out.push(x);
            },
            Option::None => {},
        }
        proof {
            assert(results@ =~= before.drop_first());
        }
    }
    proof {
        assert(present(orig) =~= out@);
    }
    out
}

/// Wrap a vendor's own handles as aggregate lights, in place and in
/// order.
pub fn govee_into_lights(devices: Vec<GoveeLight>) -> (r: Vec<Light>)
    ensures
        r@.len() == devices@.len(),
        forall|i: int| 0 <= i < r@.len() ==> r@[i] == Light::Govee(devices@[i]),
{
    let ghost orig = devices@;
    let mut devices = devices;
    let mut out: Vec<Light> = Vec::new();
    while devices.len() > 0
        invariant
            orig == out@.map_values(|l: Light| l->Govee_0) + devices@,
            forall|i: int| 0 <= i < out@.len() ==> out@[i] is Govee,
        decreases devices@.len(),
    {
        let ghost before = devices@;
        let d = devices.remove(0);
        out.push(Light::Govee(d));
        proof {
            assert(out@.map_values(|l: Light| l->Govee_0) + devices@ =~= orig);
        }
    }
    proof {
        assert(out@.map_values(|l: Light| l->Govee_0) =~= orig);
        assert(forall|i: int| 0 <= i < out@.len() ==> out@[i] == Light::Govee(orig[i]));
    }
    out
}

} // verus!
