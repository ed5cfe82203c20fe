//! Light handles: one capability interface, one variant per vendor.
//!
//! A handle caches the device state it last saw. Mutators are write-through:
//! the caller first delivers the matching command to the device, and only on
//! success records the requested value here — the cache is never re-read from
//! the device. Accessors are pure reads of the cache and never fail.
use vstd::prelude::*;
use vstd::string::StringExecFns;

use crate::numeral::dec_rep;
use crate::numeral::lemma_dec_rep_value;
use crate::numeral::u64_to_string;
use crate::protocol::DeviceColor;
use crate::protocol::DeviceStatus;
use crate::protocol::Request;

verus! {

/// The globally-unique identifier of a UDP lamp: the vendor namespace,
/// then the vendor-local identifier.
pub open spec fn govee_global_id(local: Seq<char>) -> Seq<char> {
    "govee::"@ + local
}

/// The globally-unique identifier of an RGB-hub controller: the vendor
/// namespace, then the controller number.
pub open spec fn openrgb_global_id(controller_id: u32) -> Seq<char> {
    "openrgb::"@ + dec_rep(controller_id as nat)
}

/// A handle to one UDP lamp: its vendor-local identifier (the configured
/// address) and the cached device state.
#[derive(Debug, Clone)]
pub struct GoveeLight {
    pub device_id: String,
    pub is_on: bool,
    pub brightness: u8,
    pub red: u8,
    pub green: u8,
    pub blue: u8,
}

/// The cache after a full status read: every state field replaced at once.
pub open spec fn govee_with_status(l: GoveeLight, st: DeviceStatus) -> GoveeLight {
    GoveeLight {
        device_id: l.device_id,
        is_on: st.on,
        brightness: st.brightness,
        red: st.color.r,
        green: st.color.g,
        blue: st.color.b,
    }
}

/// The cache after a successful power command.
pub open spec fn govee_with_on(l: GoveeLight, on: bool) -> GoveeLight {
    GoveeLight { is_on: on, ..l }
}

/// The cache after a successful brightness command.
pub open spec fn govee_with_brightness(l: GoveeLight, level: u8) -> GoveeLight {
    GoveeLight { brightness: level, ..l }
}

/// The cache after a successful color command.
pub open spec fn govee_with_color(l: GoveeLight, red: u8, green: u8, blue: u8) -> GoveeLight {
    GoveeLight { red: red, green: green, blue: blue, ..l }
}

impl GoveeLight {
    /// A handle for the device at `device_id`, populated from the first
    /// successful status read.
    pub fn new(device_id: String, status: &DeviceStatus) -> (l: GoveeLight)
        ensures
            l.device_id@ == device_id@,
            l.is_on == status.on,
            l.brightness == status.brightness,
            l.red == status.color.r,
            l.green == status.color.g,
            l.blue == status.color.b,
    {
        GoveeLight {
            device_id,
            is_on: status.on,
            brightness: status.brightness,
            red: status.color.r,
            green: status.color.g,
            blue: status.color.b,
        }
    }

    /// The command that asks the device for its current state.
    pub fn status_request() -> (m: Request)
        ensures
            m == (Request::DevStatus {  }),
    {
        Request::DevStatus {  }
    }

    /// The command that turns the device on or off; the flag travels as the
    /// integer one or zero.
    pub fn turn_request(on: bool) -> (m: Request)
        ensures
            m == (Request::Turn { value: if on { 1u8 } else { 0u8 } }),
    {
        Request::Turn { value: if on { 1 } else { 0 } }
    }

    /// The command that sets the brightness.
    pub fn brightness_request(level: u8) -> (m: Request)
        ensures
            m == (Request::Brightness { value: level }),
    {
        Request::Brightness { value: level }
    }

    /// The command that sets the color.
    pub fn color_request(red: u8, green: u8, blue: u8) -> (m: Request)
        ensures
            m == (Request::Color { color: DeviceColor { r: red, g: green, b: blue } }),
    {
        Request::Color { color: DeviceColor { r: red, g: green, b: blue } }
    }

    /// Record a fresh status read: replaces every cached state field at
    /// once, leaving the identity untouched.
    pub fn apply_status(&mut self, status: &DeviceStatus)
        ensures
            *final(self) == govee_with_status(*old(self), *status),
    {
        self.is_on = status.on;
        self.brightness = status.brightness;
        self.red = status.color.r;
        self.green = status.color.g;
        self.blue = status.color.b;
    }

    /// Record that a power command was delivered.
    pub fn apply_set_on(&mut self, on: bool)
        ensures
            *final(self) == govee_with_on(*old(self), on),
    {
        self.is_on = on;
    }

    /// Record that a brightness command was delivered.
    pub fn apply_set_brightness(&mut self, level: u8)
        ensures
            *final(self) == govee_with_brightness(*old(self), level),
    {
        self.brightness = level;
    }

    /// Record that a color command was delivered.
    pub fn apply_set_color(&mut self, red: u8, green: u8, blue: u8)
        ensures
            *final(self) == govee_with_color(*old(self), red, green, blue),
    {
        self.red = red;
        self.green = green;
        self.blue = blue;
    }

    /// The globally-unique, vendor-namespaced identifier.
    pub fn id(&self) -> (r: String)
        ensures
            r@ == govee_global_id(self.device_id@),
    {
        let mut s = String::from_str("govee::");
        s.append(self.device_id.as_str());
        s
    }

    /// The display name.
    pub fn name(&self) -> (r: String)
        ensures
            r@ == "Govee Light ("@ + self.device_id@ + ")"@,
    {
        let mut s = String::from_str("Govee Light (");
        s.append(self.device_id.as_str());
        s.append(")");
        s
    }

    pub fn is_on(&self) -> (r: bool)
        ensures
            r == self.is_on,
    {
        self.is_on
    }

    pub fn brightness(&self) -> (r: u8)
        ensures
            r == self.brightness,
    {
        self.brightness
    }

    pub fn red(&self) -> (r: u8)
        ensures
            r == self.red,
    {
        self.red
    }

    pub fn green(&self) -> (r: u8)
        ensures
            r == self.green,
    {
        self.green
    }

    pub fn blue(&self) -> (r: u8)
        ensures
            r == self.blue,
    {
        self.blue
    }

    /// This vendor's lamps take color commands.
    pub fn supports_color(&self) -> (r: bool)
        ensures
            r == true,
    {
        true
    }
}

/// Write-through law: recording a color command and then reading the color
/// accessors returns exactly the requested triple, with no further device
/// query, and touches nothing else in the cache.
pub proof fn lemma_write_through_color(l: GoveeLight, red: u8, green: u8, blue: u8)
    ensures
        govee_with_color(l, red, green, blue).red == red,
        govee_with_color(l, red, green, blue).green == green,
        govee_with_color(l, red, green, blue).blue == blue,
        govee_with_color(l, red, green, blue).is_on == l.is_on,
        govee_with_color(l, red, green, blue).brightness == l.brightness,
        govee_with_color(l, red, green, blue).device_id == l.device_id,
{
}

/// What the cache of a first color channel is when the controller reports
/// no color slots at all: the accessors stay total and answer zero.
pub open spec fn first_channel(colors: Seq<DeviceColor>, pick: spec_fn(DeviceColor) -> u8) -> u8 {
    if colors.len() > 0 {
        pick(colors[0])
    } else {
        0
    }
}

/// A handle to one RGB-hub controller: its number, its reported name, and
/// the cached color of every LED slot.
///
/// The hub protocol has no power or brightness control: the handle reports
/// itself always on at full brightness, and accepts and ignores power and
/// brightness commands.
#[derive(Debug, Clone)]
pub struct OpenRgbLight {
    pub controller_id: u32,
    pub controller_name: String,
    pub colors: Vec<DeviceColor>,
}

impl OpenRgbLight {
    /// A handle for controller `controller_id`, populated from the hub's
    /// controller record.
    pub fn new(controller_id: u32, controller_name: String, colors: Vec<DeviceColor>) -> (l:
        OpenRgbLight)
        ensures
            l.controller_id == controller_id,
            l.controller_name@ == controller_name@,
            l.colors@ == colors@,
    {
        OpenRgbLight { controller_id, controller_name, colors }
    }

    /// Record a fresh controller read: name and color slots replaced, the
    /// controller number untouched.
    pub fn apply_controller(&mut self, controller_name: String, colors: Vec<DeviceColor>)
        ensures
            final(self).controller_id == old(self).controller_id,
            final(self).controller_name@ == controller_name@,
            final(self).colors@ == colors@,
    {
        self.controller_name = controller_name;
        self.colors = colors;
    }

    /// Record that a color update was delivered: every LED slot now carries
    /// the requested triple; identity and slot count untouched.
    pub fn apply_set_color(&mut self, red: u8, green: u8, blue: u8)
        ensures
            final(self).controller_id == old(self).controller_id,
            final(self).controller_name@ == old(self).controller_name@,
            final(self).colors@.len() == old(self).colors@.len(),
            forall|i: int|
                0 <= i < final(self).colors@.len() ==> final(self).colors@[i] == (DeviceColor {
                    r: red,
                    g: green,
                    b: blue,
                }),
    {
        let n = self.colors.len();
        let mut fresh: Vec<DeviceColor> = Vec::new();
        let mut i: usize = 0;
        while i < n
            invariant
                i <= n,
                fresh@.len() == i as int,
                forall|k: int|
                    0 <= k < i as int ==> fresh@[k] == (DeviceColor { r: red, g: green, b: blue }),
            decreases n - i,
        {
            fresh.push(DeviceColor { r: red, g: green, b: blue });
            i = i + 1;
        }
        self.colors = fresh;
    }

    /// The hub has no power control: the command is accepted and ignored.
    pub fn apply_set_on(&mut self, _on: bool)
        ensures
            *final(self) == *old(self),
    {
    }

    /// The hub has no brightness control: the command is accepted and
    /// ignored.
    pub fn apply_set_brightness(&mut self, _level: u8)
        ensures
            *final(self) == *old(self),
    {
    }

    /// The globally-unique, vendor-namespaced identifier.
    pub fn id(&self) -> (r: String)
        ensures
            r@ == openrgb_global_id(self.controller_id),
    {
        let mut s = String::from_str("openrgb::");
        let num = u64_to_string(self.controller_id as u64);
        s.append(num.as_str());
        s
    }

    /// The controller's reported name.
    pub fn name(&self) -> (r: String)
        ensures
            r@ == self.controller_name@,
    {
        self.controller_name.clone()
    }

    pub fn is_on(&self) -> (r: bool)
        ensures
            r == true,
    {
        true
    }

    pub fn brightness(&self) -> (r: u8)
        ensures
            r == 100,
    {
        100
    }

    pub fn red(&self) -> (r: u8)
        ensures
            r == first_channel(self.colors@, |c: DeviceColor| c.r),
    {
        if self.colors.len() > 0 {
            self.colors[0].r
        } else {
            0
        }
    }

    pub fn green(&self) -> (r: u8)
        ensures
            r == first_channel(self.colors@, |c: DeviceColor| c.g),
    {
        if self.colors.len() > 0 {
            self.colors[0].g
        } else {
            0
        }
    }

    pub fn blue(&self) -> (r: u8)
        ensures
            r == first_channel(self.colors@, |c: DeviceColor| c.b),
    {
        if self.colors.len() > 0 {
            self.colors[0].b
        } else {
            0
        }
    }

    /// The hub's whole purpose is color control.
    pub fn supports_color(&self) -> (r: bool)
        ensures
            r == true,
    {
        true
    }
}

/// One controllable light, whichever vendor it came from.
#[derive(Debug, Clone)]
pub enum Light {
    Govee(GoveeLight),
    OpenRgb(OpenRgbLight),
}

impl Light {
    /// The globally-unique identifier of this light.
    pub open spec fn spec_id(self) -> Seq<char> {
        match self {
            Light::Govee(l) => govee_global_id(l.device_id@),
            Light::OpenRgb(l) => openrgb_global_id(l.controller_id),
        }
    }

    /// The globally-unique, vendor-namespaced identifier.
    pub fn id(&self) -> (r: String)
        ensures
            r@ == self.spec_id(),
    {
        match self {
            Light::Govee(l) => l.id(),
            Light::OpenRgb(l) => l.id(),
        }
    }

    /// The display name of this light.
    pub open spec fn spec_name(self) -> Seq<char> {
        match self {
            Light::Govee(l) => "Govee Light ("@ + l.device_id@ + ")"@,
            Light::OpenRgb(l) => l.controller_name@,
        }
    }

    /// The display name.
    pub fn name(&self) -> (r: String)
        ensures
            r@ == self.spec_name(),
    {
        match self {
            Light::Govee(l) => l.name(),
            Light::OpenRgb(l) => l.name(),
        }
    }

    pub open spec fn spec_is_on(self) -> bool {
        match self {
            Light::Govee(l) => l.is_on,
            Light::OpenRgb(_) => true,
        }
    }

    pub fn is_on(&self) -> (r: bool)
        ensures
            r == self.spec_is_on(),
    {
        match self {
            Light::Govee(l) => l.is_on(),
            Light::OpenRgb(l) => l.is_on(),
        }
    }

    pub open spec fn spec_brightness(self) -> u8 {
        match self {
            Light::Govee(l) => l.brightness,
            Light::OpenRgb(_) => 100,
        }
    }

    pub fn brightness(&self) -> (r: u8)
        ensures
            r == self.spec_brightness(),
    {
        match self {
            Light::Govee(l) => l.brightness(),
            Light::OpenRgb(l) => l.brightness(),
        }
    }

    pub open spec fn spec_red(self) -> u8 {
        match self {
            Light::Govee(l) => l.red,
            Light::OpenRgb(l) => first_channel(l.colors@, |c: DeviceColor| c.r),
        }
    }

    pub fn red(&self) -> (r: u8)
        ensures
            r == self.spec_red(),
    {
        match self {
            Light::Govee(l) => l.red(),
            Light::OpenRgb(l) => l.red(),
        }
    }

    pub open spec fn spec_green(self) -> u8 {
        match self {
            Light::Govee(l) => l.green,
            Light::OpenRgb(l) => first_channel(l.colors@, |c: DeviceColor| c.g),
        }
    }

    pub fn green(&self) -> (r: u8)
        ensures
            r == self.spec_green(),
    {
        match self {
            Light::Govee(l) => l.green(),
            Light::OpenRgb(l) => l.green(),
        }
    }

    pub open spec fn spec_blue(self) -> u8 {
        match self {
            Light::Govee(l) => l.blue,
            Light::OpenRgb(l) => first_channel(l.colors@, |c: DeviceColor| c.b),
        }
    }

    pub fn blue(&self) -> (r: u8)
        ensures
            r == self.spec_blue(),
    {
        match self {
            Light::Govee(l) => l.blue(),
            Light::OpenRgb(l) => l.blue(),
        }
    }

    /// Both vendors' devices take color commands.
    pub fn supports_color(&self) -> (r: bool)
        ensures
            r == true,
    {
        match self {
            Light::Govee(l) => l.supports_color(),
            Light::OpenRgb(l) => l.supports_color(),
        }
    }

    /// Record that a power command was delivered: write-through on a lamp,
    /// accepted and ignored by a hub controller.
    pub fn apply_set_on(&mut self, on: bool)
        ensures
            final(self).spec_is_on() == (if *old(self) is Govee {
                on
            } else {
                true
            }),
            final(self).spec_id() == old(self).spec_id(),
            final(self).spec_brightness() == old(self).spec_brightness(),
            final(self).spec_red() == old(self).spec_red(),
            final(self).spec_green() == old(self).spec_green(),
            final(self).spec_blue() == old(self).spec_blue(),
    {
        match self {
            Light::Govee(l) => l.apply_set_on(on),
            Light::OpenRgb(l) => l.apply_set_on(on),
        }
    }

    /// Record that a brightness command was delivered: write-through on a
    /// lamp, accepted and ignored by a hub controller.
    pub fn apply_set_brightness(&mut self, level: u8)
        ensures
            final(self).spec_brightness() == (if *old(self) is Govee {
                level
            } else {
                100
            }),
            final(self).spec_id() == old(self).spec_id(),
            final(self).spec_is_on() == old(self).spec_is_on(),
            final(self).spec_red() == old(self).spec_red(),
            final(self).spec_green() == old(self).spec_green(),
            final(self).spec_blue() == old(self).spec_blue(),
    {
        match self {
            Light::Govee(l) => l.apply_set_brightness(level),
            Light::OpenRgb(l) => l.apply_set_brightness(level),
        }
    }

    /// Record that a color command was delivered: afterwards the color
    /// accessors answer exactly the requested triple, and nothing else in
    /// the cache moved.
    pub fn apply_set_color(&mut self, red: u8, green: u8, blue: u8)
        requires
            *old(self) is OpenRgb ==> (*old(self))->OpenRgb_0.colors@.len() > 0,
        ensures
            final(self).spec_red() == red,
            final(self).spec_green() == green,
            final(self).spec_blue() == blue,
            final(self).spec_id() == old(self).spec_id(),
            final(self).spec_is_on() == old(self).spec_is_on(),
            final(self).spec_brightness() == old(self).spec_brightness(),
    {
        match self {
            Light::Govee(l) => l.apply_set_color(red, green, blue),
            Light::OpenRgb(l) => l.apply_set_color(red, green, blue),
        }
    }
}

/// Namespacing law: two devices of different vendors never collide in
/// their global identifiers, whatever their vendor-local identifiers are —
/// the identifiers of distinct vendors differ already in their namespace
/// prefix.
pub proof fn lemma_vendor_namespacing(a: Light, b: Light)
    requires
        a is Govee,
        b is OpenRgb,
    ensures
        a.spec_id() != b.spec_id(),
{
    reveal_strlit("govee::");
    reveal_strlit("openrgb::");
    assert(a.spec_id()[0] == 'g');
    assert(b.spec_id()[0] == 'o');
}

/// The lamp namespace is injective: the global identifier determines the
/// vendor-local one.
pub proof fn lemma_govee_id_injective(a: Seq<char>, b: Seq<char>)
    requires
        govee_global_id(a) == govee_global_id(b),
    ensures
        a == b,
{
    reveal_strlit("govee::");
    assert(a =~= govee_global_id(a).skip(7));
    assert(b =~= govee_global_id(b).skip(7));
}

/// The hub namespace is injective: the global identifier determines the
/// controller number.
pub proof fn lemma_openrgb_id_injective(a: u32, b: u32)
    requires
        openrgb_global_id(a) == openrgb_global_id(b),
    ensures
        a == b,
{
    reveal_strlit("openrgb::");
    assert(dec_rep(a as nat) =~= openrgb_global_id(a).skip(9));
    assert(dec_rep(b as nat) =~= openrgb_global_id(b).skip(9));
    lemma_dec_rep_value(a as nat);
    lemma_dec_rep_value(b as nat);
}

/// Aggregate uniqueness: two lights that share a global identifier are
/// handles of one and the same vendor-local device — identifiers never
/// collide across the aggregate.
pub proof fn lemma_id_unique(a: Light, b: Light)
    requires
        a.spec_id() == b.spec_id(),
    ensures
        a is Govee <==> b is Govee,
        a is Govee ==> a->Govee_0.device_id@ == b->Govee_0.device_id@,
        a is OpenRgb ==> a->OpenRgb_0.controller_id == b->OpenRgb_0.controller_id,
{
    if a is Govee && b is OpenRgb {
        lemma_vendor_namespacing(a, b);
    }
    if b is Govee && a is OpenRgb {
        lemma_vendor_namespacing(b, a);
    }
    if a is Govee && b is Govee {
        lemma_govee_id_injective(a->Govee_0.device_id@, b->Govee_0.device_id@);
    }
    if a is OpenRgb && b is OpenRgb {
        lemma_openrgb_id_injective(a->OpenRgb_0.controller_id, b->OpenRgb_0.controller_id);
    }
}

} // verus!
