//! PipeWire: parsing of the clock settings and node properties the server publishes, the
//! devices built from them, stream properties and stream timestamps.
use vstd::prelude::*;
use crate::format::{
    BufferSize, ChannelCount, DeviceDirection, DeviceType, Error, ErrorKind, FrameCount,
    InterfaceType, SampleFormat, SampleRate, StreamConfig, SupportedBufferSize,
    SupportedStreamConfig, SupportedStreamConfigRange,
};
use crate::text::{
    decimal_text, digits_value, list_entries, spec_decimal, list_entry_bounds, parse_u32_range, spec_parse_u32,
    str_chars, trim, trim_bounds, white_space_token_bounds, white_space_tokens,
};
use vstd::string::StringSliceAdditionalSpecFns;
use vstd::utf8::{decode_utf8, encode_utf8, is_char_boundary, valid_utf8};
use crate::time::{Duration, StreamInstant, MAX_NANOS};

verus! {

/// Index of the first `/` in `s`, if any.
pub open spec fn first_slash(s: Seq<char>) -> Option<int> {
    if exists|i: int| 0 <= i < s.len() && s[i] == '/' {
        Some(
            choose|i: int|
                0 <= i < s.len() && s[i] == '/' && forall|j: int| 0 <= j < i ==> s[j] != '/',
        )
    } else {
        None
    }
}

/// A fraction `num/den` as PipeWire writes `node.rate` and `node.latency`: the text before the
/// first `/` and the text after it, each an unsigned decimal number.
pub open spec fn spec_parse_fraction(s: Seq<char>) -> Option<(u32, u32)> {
    match first_slash(s) {
        Some(i) => match (spec_parse_u32(s.subrange(0, i)), spec_parse_u32(s.subrange(i + 1, s.len() as int))) {
            (Some(n), Some(d)) => Some((n, d)),
            _ => None,
        },
        None => None,
    }
}

/// Parses a PipeWire fraction such as `"1/48000"` or `"256/48000"` into numerator and
/// denominator. Zero parts are returned as they are.
pub fn parse_fraction(s: &str) -> (r: Option<(u32, u32)>)
    ensures
        r == spec_parse_fraction(s@),
{
    let v = str_chars(s);
    let n = v.len();
    let mut i: usize = 0;
    while i < n && v[i] != '/'
        invariant
            i <= n == v@.len(),
            v@ == s@,
            forall|j: int| 0 <= j < i ==> v@[j] != '/',
        decreases n - i,
    {
        i = i + 1;
    }
    if i == n {
        assert(!(exists|k: int| 0 <= k < s@.len() && s@[k] == '/'));
        return None;
    }
    proof {
        let k = choose|k: int|
            0 <= k < s@.len() && s@[k] == '/' && forall|j: int| 0 <= j < k ==> s@[j] != '/';
        assert(0 <= i < s@.len() && s@[i as int] == '/');
        assert(k == i as int);
    }
    let num = parse_u32_range(&v, 0, i);
    let den = parse_u32_range(&v, i + 1, n);
    match (num, den) {
        (Some(a), Some(b)) => Some((a, b)),
        _ => None,
    }
}

/// The rates listed in PipeWire's `clock.allowed-rates` setting: after trimming white space the
/// text must be enclosed in `[` and `]`; entries are separated by spaces or commas and each must
/// be an unsigned decimal number.
pub open spec fn spec_parse_allow_rates(s: Seq<char>) -> Option<Seq<u32>> {
    let t = trim(s);
    if t.len() >= 2 && t[0] == '[' && t[t.len() - 1] == ']' {
        let entries = list_entries(t.subrange(1, t.len() - 1));
        if forall|k: int| 0 <= k < entries.len() ==> (#[trigger] spec_parse_u32(entries[k])) is Some {
            Some(entries.map_values(|e: Seq<char>| spec_parse_u32(e)->0))
        } else {
            None
        }
    } else {
        None
    }
}

/// Parses PipeWire's list of allowed sample rates, such as `"[ 44100 48000 ]"` or
/// `"[44100, 48000]"`.
pub fn parse_allow_rates(list: &str) -> (r: Option<Vec<SampleRate>>)
    ensures
        r matches Some(v) ==> spec_parse_allow_rates(list@) == Some(v@),
        r is None ==> spec_parse_allow_rates(list@) is None,
{
    let v = str_chars(list);
    let (a, b) = trim_bounds(&v);
    let ghost t = trim(list@);
    assert(t =~= v@.subrange(a as int, b as int));
    if b - a < 2 || v[a] != '[' || v[b - 1] != ']' {
        return None;
    }
    let ghost inner = t.subrange(1, t.len() - 1);
    assert(inner =~= v@.subrange(a + 1, b - 1));
    let bounds = list_entry_bounds(&v, a + 1, b - 1);
    let ghost entries = list_entries(inner);
    let mut rates: Vec<SampleRate> = Vec::new();
    let mut k: usize = 0;
    while k < bounds.len()
        invariant
            k <= bounds@.len() == entries.len(),
            entries == list_entries(inner),
            a + 1 <= b - 1 <= v@.len(),
            inner == v@.subrange(a + 1, b - 1),
            t == trim(list@),
            t.len() >= 2 && t[0] == '[' && t[t.len() - 1] == ']',
            inner == t.subrange(1, t.len() - 1),
            forall|j: int|
                0 <= j < bounds@.len() ==> {
                    &&& (#[trigger] bounds@[j]).0 <= bounds@[j].1 <= v@.len()
                    &&& v@.subrange(bounds@[j].0 as int, bounds@[j].1 as int) == entries[j]
                },
            rates@.len() == k,
            forall|j: int| 0 <= j < k ==> spec_parse_u32(#[trigger] entries[j]) == Some(rates@[j]),
        decreases bounds@.len() - k,
    {
        let (s0, s1) = bounds[k];
        match parse_u32_range(&v, s0, s1) {
            Some(rate) => rates.push(rate),
            None => {
                assert(spec_parse_u32(entries[k as int]) is None);
                return None;
            },
        }
        k = k + 1;
    }
    assert(rates@ =~= entries.map_values(|e: Seq<char>| spec_parse_u32(e)->0));
    Some(rates)
}

/// Equality of two strings, character by character.
pub fn text_eq(a: &str, b: &str) -> (r: bool)
    ensures
        r == (a@ == b@),
{
    let x = str_chars(a);
    let y = str_chars(b);
    if x.len() != y.len() {
        return false;
    }
    let mut i: usize = 0;
    while i < x.len()
        invariant
            x@ == a@,
            y@ == b@,
            x@.len() == y@.len(),
            i <= x@.len(),
            forall|j: int| 0 <= j < i ==> x@[j] == y@[j],
        decreases x@.len() - i,
    {
        if x[i] != y[i] {
            return false;
        }
        i = i + 1;
    }
    assert(x@ =~= y@);
    true
}

/// What a PipeWire node does, from its `media.class`.
#[derive(Clone, Copy, Debug, PartialEq, Eq, Structural)]
pub enum Role {
    Sink,
    Source,
    Duplex,
    StreamOutput,
    StreamInput,
}

/// Whether a device stands for a real node or for one of the server's default routes.
#[derive(Clone, Copy, Debug, PartialEq, Eq, Structural)]
pub enum Class {
    Node,
    DefaultSink,
    DefaultInput,
    DefaultOutput,
}

/// The server-wide clock settings published in the `settings` metadata object.
#[derive(Clone, Debug)]
pub struct ClockSettings {
    pub rate: SampleRate,
    pub allow_rates: Vec<SampleRate>,
    pub quantum: FrameCount,
    pub min_quantum: FrameCount,
    pub max_quantum: FrameCount,
}

/// Per-node rate and quantum discovered from the node's own properties.
#[derive(Clone, Copy, Debug, PartialEq, Eq, Structural)]
pub struct NodeOverrides {
    pub rate: Option<SampleRate>,
    pub quantum: Option<FrameCount>,
}

/// An audio device offered by the PipeWire server.
#[derive(Clone, Debug)]
pub struct Device {
    pub node_name: String,
    pub nick_name: String,
    pub description: String,
    pub direction: DeviceDirection,
    pub channels: ChannelCount,
    pub rate: SampleRate,
    pub allow_rates: Vec<SampleRate>,
    pub quantum: FrameCount,
    pub min_quantum: FrameCount,
    pub max_quantum: FrameCount,
    pub class: Class,
    pub role: Role,
    pub icon_name: String,
    pub object_serial: u32,
    pub interface_type: InterfaceType,
    pub address: Option<String>,
    pub driver: Option<String>,
}

/// Whether `a` is device `b` but for its clock settings: the same names, description,
/// direction, channel count, class, role, icon, serial, interface type, address and driver.
pub open spec fn same_identity(a: Device, b: Device) -> bool {
    &&& a.node_name == b.node_name
    &&& a.nick_name == b.nick_name
    &&& a.description == b.description
    &&& a.direction == b.direction
    &&& a.channels == b.channels
    &&& a.class == b.class
    &&& a.role == b.role
    &&& a.icon_name == b.icon_name
    &&& a.object_serial == b.object_serial
    &&& a.interface_type == b.interface_type
    &&& a.address == b.address
    &&& a.driver == b.driver
}

/// Whether `d` is a synthetic route named `name` (also its nick) with `description`,
/// `direction`, `class` and `role`: two channels, no icon, serial 0, unknown interface, no
/// address and no driver.
pub open spec fn is_synthetic(
    d: Device,
    name: Seq<char>,
    description: Seq<char>,
    direction: DeviceDirection,
    class: Class,
    role: Role,
) -> bool {
    &&& d.node_name@ == name
    &&& d.nick_name@ == name
    &&& d.description@ == description
    &&& d.direction == direction
    &&& d.channels == 2
    &&& d.class == class
    &&& d.role == role
    &&& d.icon_name@ == Seq::<char>::empty()
    &&& d.object_serial == 0
    &&& d.interface_type == InterfaceType::Unknown
    &&& d.address is None
    &&& d.driver is None
}

/// A key/value property list as PipeWire delivers it with a node or metadata object.
pub type Props = Vec<(String, String)>;

/// The value of the first entry of `props` whose key is `key`.
pub open spec fn spec_prop(props: Seq<(String, String)>, key: Seq<char>) -> Option<Seq<char>>
    decreases props.len(),
{
    if props.len() == 0 {
        None
    } else if props[0].0@ == key {
        Some(props[0].1@)
    } else {
        spec_prop(props.drop_first(), key)
    }
}

/// Index of the first entry of `props` whose key is `key`.
pub fn prop_index(props: &Props, key: &str) -> (r: Option<usize>)
    ensures
        r is None ==> spec_prop(props@, key@) is None,
        r matches Some(i) ==> i < props@.len() && spec_prop(props@, key@) == Some(props@[i as int].1@),
{
    let mut i: usize = 0;
    assert(props@.skip(0) =~= props@);
    while i < props.len()
        invariant
            i <= props@.len(),
            spec_prop(props@, key@) == spec_prop(props@.skip(i as int), key@),
        decreases props@.len() - i,
    {
        assert(props@.skip(i as int).drop_first() =~= props@.skip(i + 1));
        if text_eq(props[i].0.as_str(), key) {
            return Some(i);
        }
        i = i + 1;
    }
    None
}

/// The role a node's `media.class` names, if it is an audio class.
pub open spec fn spec_role_of_class(class: Seq<char>) -> Option<Role> {
    if class == "Audio/Sink"@ {
        Some(Role::Sink)
    } else if class == "Audio/Source"@ {
        Some(Role::Source)
    } else if class == "Audio/Duplex"@ {
        Some(Role::Duplex)
    } else if class == "Stream/Output/Audio"@ {
        Some(Role::StreamOutput)
    } else if class == "Stream/Input/Audio"@ {
        Some(Role::StreamInput)
    } else {
        None
    }
}

pub fn role_of_class(class: &str) -> (r: Option<Role>)
    ensures
        r == spec_role_of_class(class@),
{
    if text_eq(class, "Audio/Sink") {
        Some(Role::Sink)
    } else if text_eq(class, "Audio/Source") {
        Some(Role::Source)
    } else if text_eq(class, "Audio/Duplex") {
        Some(Role::Duplex)
    } else if text_eq(class, "Stream/Output/Audio") {
        Some(Role::StreamOutput)
    } else if text_eq(class, "Stream/Input/Audio") {
        Some(Role::StreamInput)
    } else {
        None
    }
}

/// The direction a device with `role` is offered in: sinks are also offered for capture,
/// which records what plays to them.
pub open spec fn spec_role_direction(role: Role) -> DeviceDirection {
    match role {
        Role::Sink => DeviceDirection::Duplex,
        Role::Source => DeviceDirection::Input,
        Role::Duplex => DeviceDirection::Duplex,
        Role::StreamOutput => DeviceDirection::Output,
        Role::StreamInput => DeviceDirection::Input,
    }
}

pub fn role_direction(role: Role) -> (d: DeviceDirection)
    ensures
        d == spec_role_direction(role),
{
    match role {
        Role::Sink => DeviceDirection::Duplex,
        Role::Source => DeviceDirection::Input,
        Role::Duplex => DeviceDirection::Duplex,
        Role::StreamOutput => DeviceDirection::Output,
        Role::StreamInput => DeviceDirection::Input,
    }
}

/// What a discovered node can be used for follows from its media class: everything but an
/// output stream can be captured from (a sink through its monitor), and only sinks, duplex
/// nodes and output streams can be played to; a source or an input stream is capture-only.
pub proof fn lemma_class_capabilities(class: Seq<char>)
    requires
        spec_role_of_class(class) is Some,
    ensures
        ({
            let d = spec_role_direction(spec_role_of_class(class)->0);
            &&& (d == DeviceDirection::Input || d == DeviceDirection::Duplex) <==> class != "Stream/Output/Audio"@
            &&& (d == DeviceDirection::Output || d == DeviceDirection::Duplex) <==> (class == "Audio/Sink"@
                || class == "Audio/Duplex"@ || class == "Stream/Output/Audio"@)
            &&& (class == "Audio/Source"@ || class == "Stream/Input/Audio"@) ==> d == DeviceDirection::Input
        }),
{
    reveal_strlit("Audio/Sink");
    reveal_strlit("Audio/Source");
    reveal_strlit("Audio/Duplex");
    reveal_strlit("Stream/Output/Audio");
    reveal_strlit("Stream/Input/Audio");
    assert("Audio/Sink"@[0] != "Stream/Output/Audio"@[0]);
    assert("Audio/Source"@[0] != "Stream/Output/Audio"@[0]);
    assert("Audio/Duplex"@[0] != "Stream/Output/Audio"@[0]);
    assert("Stream/Input/Audio"@.len() != "Stream/Output/Audio"@.len());
    assert("Audio/Source"@.len() != "Audio/Sink"@.len());
    assert("Audio/Source"@[6] != "Audio/Duplex"@[6]);
    assert("Stream/Input/Audio"@[0] != "Audio/Sink"@[0]);
    assert("Stream/Input/Audio"@[0] != "Audio/Duplex"@[0]);
}

/// How a node is attached: Bluetooth when its `device.api` is `bluez5`, otherwise from its
/// `device.bus`.
pub open spec fn spec_interface_type(api: Option<Seq<char>>, bus: Option<Seq<char>>) -> InterfaceType {
    if api == Some("bluez5"@) {
        InterfaceType::Bluetooth
    } else if bus == Some("pci"@) {
        InterfaceType::Pci
    } else if bus == Some("usb"@) {
        InterfaceType::Usb
    } else if bus == Some("firewire"@) {
        InterfaceType::FireWire
    } else if bus == Some("thunderbolt"@) {
        InterfaceType::Thunderbolt
    } else {
        InterfaceType::Unknown
    }
}

/// The value of `key` in `props`, or `default` when absent.
fn prop_or(props: &Props, key: &str, default: &str) -> (s: String)
    ensures
        s@ == match spec_prop(props@, key@) {
            Some(v) => v,
            None => default@,
        },
{
    match prop_index(props, key) {
        Some(i) => props[i].1.clone(),
        None => default.to_owned(),
    }
}

/// The value of `key` in `props`, if present.
fn prop_opt(props: &Props, key: &str) -> (s: Option<String>)
    ensures
        s is Some <==> spec_prop(props@, key@) is Some,
        s matches Some(v) ==> spec_prop(props@, key@) == Some(v@),
{
    match prop_index(props, key) {
        Some(i) => Some(props[i].1.clone()),
        None => None,
    }
}

/// Whether `props` has `key` with exactly the value `value`.
fn prop_is(props: &Props, key: &str, value: &str) -> (b: bool)
    ensures
        b == (spec_prop(props@, key@) == Some(value@)),
{
    match prop_index(props, key) {
        Some(i) => text_eq(props[i].1.as_str(), value),
        None => false,
    }
}

/// The value of `key` parsed as an unsigned decimal number.
pub open spec fn spec_prop_u32(props: Seq<(String, String)>, key: Seq<char>) -> Option<u32> {
    match spec_prop(props, key) {
        Some(v) => spec_parse_u32(v),
        None => None,
    }
}

fn prop_u32(props: &Props, key: &str) -> (r: Option<u32>)
    ensures
        r == spec_prop_u32(props@, key@),
{
    match prop_index(props, key) {
        Some(i) => {
            let v = str_chars(props[i].1.as_str());
            proof {
                assert(v@.subrange(0, v@.len() as int) =~= v@);
            }
            parse_u32_range(&v, 0, v.len())
        },
        None => None,
    }
}

/// The value of `key` parsed as a fraction.
pub open spec fn spec_prop_fraction(props: Seq<(String, String)>, key: Seq<char>) -> Option<(u32, u32)> {
    match spec_prop(props, key) {
        Some(v) => spec_parse_fraction(v),
        None => None,
    }
}

/// The rate a node advertises: the denominator of `node.rate` when positive, otherwise the
/// rate of `node.latency` when both its parts are positive.
pub open spec fn spec_node_rate(props: Seq<(String, String)>) -> Option<SampleRate> {
    match spec_prop_fraction(props, "node.rate"@) {
        Some((_, den)) if den > 0 => Some(den),
        _ => match spec_prop_fraction(props, "node.latency"@) {
            Some((num, den)) if num > 0 && den > 0 => Some(den),
            _ => None,
        },
    }
}

/// The quantum a node prefers: the numerator of `node.latency` when both parts are positive.
pub open spec fn spec_node_quantum(props: Seq<(String, String)>) -> Option<FrameCount> {
    match spec_prop_fraction(props, "node.latency"@) {
        Some((num, den)) if num > 0 && den > 0 => Some(num),
        _ => None,
    }
}

/// The device a node describes, with the rate and quantum it advertises for itself; `None`
/// when the node is not an audio node or has no valid `object.serial`.
pub fn node_from_props(props: &Props) -> (r: Option<(Device, NodeOverrides)>)
    ensures
        r is Some <==> ({
            &&& spec_prop(props@, "media.class"@) matches Some(c)
            &&& spec_role_of_class(c) is Some
            &&& spec_prop_u32(props@, "object.serial"@) is Some
        }),
        r matches Some((d, o)) ==> {
            let role = spec_role_of_class(spec_prop(props@, "media.class"@)->0)->0;
            let description = match spec_prop(props@, "node.description"@) {
                Some(v) => v,
                None => "unknown"@,
            };
            &&& d.role == role
            &&& d.direction == spec_role_direction(role)
            &&& d.class == Class::Node
            &&& d.object_serial == spec_prop_u32(props@, "object.serial"@)->0
            &&& d.node_name@ == match spec_prop(props@, "node.name"@) {
                Some(v) => v,
                None => "unknown"@,
            }
            &&& d.description@ == description
            &&& d.nick_name@ == match spec_prop(props@, "node.nick"@) {
                Some(v) => v,
                None => description,
            }
            &&& d.channels == match spec_prop_u32(props@, "audio.channels"@) {
                Some(c) if c <= u16::MAX => c as u16,
                _ => 2u16,
            }
            &&& d.icon_name@ == match spec_prop(props@, "device.icon_name"@) {
                Some(v) => v,
                None => "default"@,
            }
            &&& d.interface_type == spec_interface_type(
                spec_prop(props@, "device.api"@),
                spec_prop(props@, "device.bus"@),
            )
            &&& (d.address is Some <==> (spec_prop(props@, "api.bluez5.address"@) is Some
                || spec_prop(props@, "api.alsa.path"@) is Some))
            &&& (d.address matches Some(a) ==> a@ == match spec_prop(props@, "api.bluez5.address"@) {
                Some(v) => v,
                None => spec_prop(props@, "api.alsa.path"@)->0,
            })
            &&& (d.driver is Some <==> spec_prop(props@, "factory.name"@) is Some)
            &&& (d.driver matches Some(v) ==> spec_prop(props@, "factory.name"@) == Some(v@))
            &&& o.rate == spec_node_rate(props@)
            &&& o.quantum == spec_node_quantum(props@)
        },
{
    let class_index = match prop_index(props, "media.class") {
        Some(i) => i,
        None => return None,
    };
    let role = match role_of_class(props[class_index].1.as_str()) {
        Some(role) => role,
        None => return None,
    };
    let direction = role_direction(role);
    let object_serial = match prop_u32(props, "object.serial") {
        Some(serial) => serial,
        None => return None,
    };
    let node_name = prop_or(props, "node.name", "unknown");
    let description = prop_or(props, "node.description", "unknown");
    let nick_name = prop_or(props, "node.nick", description.as_str());
    let channels: u16 = match prop_u32(props, "audio.channels") {
        Some(c) if c <= u16::MAX as u32 => c as u16,
        _ => 2,
    };
    let icon_name = prop_or(props, "device.icon_name", "default");
    let interface_type = if prop_is(props, "device.api", "bluez5") {
        InterfaceType::Bluetooth
    } else if prop_is(props, "device.bus", "pci") {
        InterfaceType::Pci
    } else if prop_is(props, "device.bus", "usb") {
        InterfaceType::Usb
    } else if prop_is(props, "device.bus", "firewire") {
        InterfaceType::FireWire
    } else if prop_is(props, "device.bus", "thunderbolt") {
        InterfaceType::Thunderbolt
    } else {
        InterfaceType::Unknown
    };
    let address = match prop_opt(props, "api.bluez5.address") {
        Some(a) => Some(a),
        None => prop_opt(props, "api.alsa.path"),
    };
    let driver = prop_opt(props, "factory.name");
    let node_rate = match prop_index(props, "node.rate") {
        Some(i) => match parse_fraction(props[i].1.as_str()) {
            Some((_, den)) if den > 0 => Some(den),
            _ => None,
        },
        None => None,
    };
    let latency = match prop_index(props, "node.latency") {
        Some(i) => match parse_fraction(props[i].1.as_str()) {
            Some((num, den)) if num > 0 && den > 0 => Some((num, den)),
            _ => None,
        },
        None => None,
    };
    let rate = match node_rate {
        Some(r) => Some(r),
        None => match latency {
            Some((_, den)) => Some(den),
            None => None,
        },
    };
    let quantum = match latency {
        Some((num, _)) => Some(num),
        None => None,
    };
    let device = Device {
        node_name,
        nick_name,
        description,
        direction,
        channels,
        rate: 0,
        allow_rates: Vec::new(),
        quantum: 0,
        min_quantum: 0,
        max_quantum: 0,
        class: Class::Node,
        role,
        icon_name,
        object_serial,
        interface_type,
        address,
        driver,
    };
    Some((device, NodeOverrides { rate, quantum }))
}

/// Applies one property of the `settings` metadata object. Unknown keys and values that do
/// not parse leave the settings unchanged.
pub fn apply_clock_setting(settings: &mut ClockSettings, key: &str, value: &str)
    ensures
        key@ == "clock.rate"@ ==> final(settings).rate == (match spec_parse_u32(value@) {
            Some(x) => x,
            None => old(settings).rate,
        }),
        key@ != "clock.rate"@ ==> final(settings).rate == old(settings).rate,
        key@ == "clock.quantum"@ ==> final(settings).quantum == (match spec_parse_u32(value@) {
            Some(x) => x,
            None => old(settings).quantum,
        }),
        key@ != "clock.quantum"@ ==> final(settings).quantum == old(settings).quantum,
        key@ == "clock.min-quantum"@ ==> final(settings).min_quantum == (match spec_parse_u32(value@) {
            Some(x) => x,
            None => old(settings).min_quantum,
        }),
        key@ != "clock.min-quantum"@ ==> final(settings).min_quantum == old(settings).min_quantum,
        key@ == "clock.max-quantum"@ ==> final(settings).max_quantum == (match spec_parse_u32(value@) {
            Some(x) => x,
            None => old(settings).max_quantum,
        }),
        key@ != "clock.max-quantum"@ ==> final(settings).max_quantum == old(settings).max_quantum,
        key@ == "clock.allowed-rates"@ ==> final(settings).allow_rates@ == (match spec_parse_allow_rates(value@) {
            Some(r) => r,
            None => old(settings).allow_rates@,
        }),
        key@ != "clock.allowed-rates"@ ==> final(settings).allow_rates@ == old(settings).allow_rates@,
{
    let chars = str_chars(value);
    proof {
        assert(chars@.subrange(0, chars@.len() as int) =~= chars@);
        reveal_strlit("clock.rate");
        reveal_strlit("clock.allowed-rates");
        reveal_strlit("clock.quantum");
        reveal_strlit("clock.min-quantum");
        reveal_strlit("clock.max-quantum");
        assert("clock.min-quantum"@[7] != "clock.max-quantum"@[7]);
        assert("clock.quantum"@.len() == 13);
        assert("clock.rate"@.len() == 10);
        assert("clock.allowed-rates"@.len() == 19);
        assert("clock.min-quantum"@.len() == 17);
        assert("clock.max-quantum"@.len() == 17);
        assert("clock.min-quantum"@ != "clock.max-quantum"@);
    }
    if text_eq(key, "clock.rate") {
        if let Some(v) = parse_u32_range(&chars, 0, chars.len()) {
            settings.rate = v;
        }
    } else if text_eq(key, "clock.allowed-rates") {
        if let Some(rates) = parse_allow_rates(value) {
            settings.allow_rates = rates;
        }
    } else if text_eq(key, "clock.quantum") {
        if let Some(v) = parse_u32_range(&chars, 0, chars.len()) {
            settings.quantum = v;
        }
    } else if text_eq(key, "clock.min-quantum") {
        if let Some(v) = parse_u32_range(&chars, 0, chars.len()) {
            settings.min_quantum = v;
        }
    } else if text_eq(key, "clock.max-quantum") {
        if let Some(v) = parse_u32_range(&chars, 0, chars.len()) {
            settings.max_quantum = v;
        }
    }
}

/// A copy of an optional string.
fn copy_opt_string(s: &Option<String>) -> (r: Option<String>)
    ensures
        r == *s,
{
    match s {
        Some(v) => Some(v.clone()),
        None => None,
    }
}

impl Device {
    /// A field-by-field copy of the device.
    pub fn duplicate(&self) -> (d: Device)
        ensures
            d.node_name == self.node_name,
            d.nick_name == self.nick_name,
            d.description == self.description,
            d.direction == self.direction,
            d.channels == self.channels,
            d.rate == self.rate,
            d.allow_rates@ == self.allow_rates@,
            d.quantum == self.quantum,
            d.min_quantum == self.min_quantum,
            d.max_quantum == self.max_quantum,
            d.class == self.class,
            d.role == self.role,
            d.icon_name == self.icon_name,
            d.object_serial == self.object_serial,
            d.interface_type == self.interface_type,
            d.address == self.address,
            d.driver == self.driver,
    {
        Device {
            node_name: self.node_name.clone(),
            nick_name: self.nick_name.clone(),
            description: self.description.clone(),
            direction: self.direction,
            channels: self.channels,
            rate: self.rate,
            allow_rates: self.allow_rates.clone(),
            quantum: self.quantum,
            min_quantum: self.min_quantum,
            max_quantum: self.max_quantum,
            class: self.class,
            role: self.role,
            icon_name: self.icon_name.clone(),
            object_serial: self.object_serial,
            interface_type: self.interface_type,
            address: copy_opt_string(&self.address),
            driver: copy_opt_string(&self.driver),
        }
    }

    /// A synthetic device with the given names, direction, class and role, two channels and
    /// no clock settings yet.
    fn synthetic(name: &str, description: &str, direction: DeviceDirection, class: Class, role: Role) -> (d: Device)
        ensures
            is_synthetic(d, name@, description@, direction, class, role),
            d.allow_rates@.len() == 0,
    {
        Device {
            node_name: name.to_owned(),
            nick_name: name.to_owned(),
            description: description.to_owned(),
            direction,
            channels: 2,
            rate: 0,
            allow_rates: Vec::new(),
            quantum: 0,
            min_quantum: 0,
            max_quantum: 0,
            class,
            role,
            icon_name: String::new(),
            object_serial: 0,
            interface_type: InterfaceType::Unknown,
            address: None,
            driver: None,
        }
    }

    /// The server's default sink, offered for playback and for capturing what it plays.
    pub fn sink_default() -> (d: Device)
        ensures
            is_synthetic(d, "sink_default"@, "default_sink"@, DeviceDirection::Duplex, Class::DefaultSink, Role::Sink),
    {
        Device::synthetic("sink_default", "default_sink", DeviceDirection::Duplex, Class::DefaultSink, Role::Sink)
    }

    /// The server's default capture route.
    pub fn input_default() -> (d: Device)
        ensures
            is_synthetic(d, "input_default"@, "default_input"@, DeviceDirection::Input, Class::DefaultInput, Role::Source),
    {
        Device::synthetic("input_default", "default_input", DeviceDirection::Input, Class::DefaultInput, Role::Source)
    }

    /// The server's default playback route.
    pub fn output_default() -> (d: Device)
        ensures
            is_synthetic(d, "output_default"@, "default_output"@, DeviceDirection::Output, Class::DefaultOutput, Role::Sink),
    {
        Device::synthetic("output_default", "default_output", DeviceDirection::Output, Class::DefaultOutput, Role::Sink)
    }

    /// Whether the device can capture.
    pub fn supports_input(&self) -> (b: bool)
        ensures
            b == (self.direction == DeviceDirection::Input || self.direction == DeviceDirection::Duplex),
    {
        matches!(self.direction, DeviceDirection::Input | DeviceDirection::Duplex)
    }

    /// Whether the device can play.
    pub fn supports_output(&self) -> (b: bool)
        ensures
            b == (self.direction == DeviceDirection::Output || self.direction == DeviceDirection::Duplex),
    {
        matches!(self.direction, DeviceDirection::Output | DeviceDirection::Duplex)
    }

    /// The kind of device its icon name suggests.
    pub fn device_type(&self) -> (t: DeviceType)
        ensures
            t == if self.icon_name@ == "audio-headphones"@ {
                DeviceType::Headphones
            } else if self.icon_name@ == "audio-headset"@ {
                DeviceType::Headset
            } else if self.icon_name@ == "audio-input-microphone"@ {
                DeviceType::Microphone
            } else if self.icon_name@ == "audio-speakers"@ {
                DeviceType::Speaker
            } else {
                DeviceType::Unknown
            },
    {
        let icon = self.icon_name.as_str();
        if text_eq(icon, "audio-headphones") {
            DeviceType::Headphones
        } else if text_eq(icon, "audio-headset") {
            DeviceType::Headset
        } else if text_eq(icon, "audio-input-microphone") {
            DeviceType::Microphone
        } else if text_eq(icon, "audio-speakers") {
            DeviceType::Speaker
        } else {
            DeviceType::Unknown
        }
    }

    /// The rates the device offers: the allowed rates, or its clock rate when none are listed.
    pub open spec fn spec_offered_rates(&self) -> Seq<SampleRate> {
        if self.allow_rates@.len() == 0 { seq![self.rate] } else { self.allow_rates@ }
    }

    /// The configuration range offered for `rate` in format `f`.
    pub open spec fn spec_range(&self, rate: SampleRate, f: SampleFormat) -> SupportedStreamConfigRange {
        SupportedStreamConfigRange {
            channels: self.channels,
            min_sample_rate: rate,
            max_sample_rate: rate,
            buffer_size: SupportedBufferSize::Range { min: self.min_quantum, max: self.max_quantum },
            sample_format: f,
        }
    }

    /// Every offered rate in every supported format, rate by rate.
    fn offered_configs(&self) -> (v: Vec<SupportedStreamConfigRange>)
        requires
            self.spec_offered_rates().len() * spec_supported_formats().len() <= usize::MAX,
        ensures
            v@.len() == self.spec_offered_rates().len() * spec_supported_formats().len(),
            forall|r: int, k: int|
                0 <= r < self.spec_offered_rates().len() && 0 <= k < spec_supported_formats().len()
                    ==> v@[r * spec_supported_formats().len() + k] == self.spec_range(
                    self.spec_offered_rates()[r],
                    spec_supported_formats()[k],
                ),
    {
        let rates: Vec<SampleRate> = if self.allow_rates.len() == 0 {
            vec![self.rate]
        } else {
            self.allow_rates.clone()
        };
        assert(rates@ == self.spec_offered_rates());
        let formats = supported_formats();
        let nf = formats.len();
        let mut out: Vec<SupportedStreamConfigRange> = Vec::new();
        let mut r: usize = 0;
        while r < rates.len()
            invariant
                rates@ == self.spec_offered_rates(),
                formats@ == spec_supported_formats(),
                nf == formats@.len(),
                rates@.len() * nf <= usize::MAX,
                r <= rates@.len(),
                out@.len() == r * nf,
                forall|rr: int, k: int|
                    0 <= rr < r && 0 <= k < nf ==> out@[rr * nf + k] == self.spec_range(
                        rates@[rr],
                        formats@[k],
                    ),
            decreases rates@.len() - r,
        {
            let mut k: usize = 0;
            while k < nf
                invariant
                    rates@ == self.spec_offered_rates(),
                    formats@ == spec_supported_formats(),
                    nf == formats@.len(),
                    rates@.len() * nf <= usize::MAX,
                    r < rates@.len(),
                    k <= nf,
                    out@.len() == r * nf + k,
                    forall|rr: int, kk: int|
                        0 <= rr < r && 0 <= kk < nf ==> out@[rr * nf + kk] == self.spec_range(
                            rates@[rr],
                            formats@[kk],
                        ),
                    forall|kk: int| 0 <= kk < k ==> out@[r * nf + kk] == self.spec_range(
                        rates@[r as int],
                        formats@[kk],
                    ),
                decreases nf - k,
            {
                assert((r + 1) * nf <= rates@.len() * nf) by (nonlinear_arith)
                    requires r + 1 <= rates@.len();
                assert(r * nf + k < (r + 1) * nf) by (nonlinear_arith)
                    requires k < nf;
                out.push(SupportedStreamConfigRange {
                    channels: self.channels,
                    min_sample_rate: rates[r],
                    max_sample_rate: rates[r],
                    buffer_size: SupportedBufferSize::Range { min: self.min_quantum, max: self.max_quantum },
                    sample_format: formats[k],
                });
                proof {
                    assert forall|rr: int, kk: int|
                        0 <= rr < r && 0 <= kk < nf implies out@[rr * nf + kk] == self.spec_range(
                            rates@[rr],
                            formats@[kk],
                        ) by {
                        assert(rr * nf + kk < r * nf) by (nonlinear_arith)
                            requires rr < r, kk < nf, 0 <= kk;
                    }
                }
                k = k + 1;
            }
            proof {
                assert forall|rr: int, kk: int|
                    0 <= rr < r + 1 && 0 <= kk < nf implies out@[rr * nf + kk] == self.spec_range(
                        rates@[rr],
                        formats@[kk],
                    ) by {
                    if rr == r as int {
                    } else {
                    }
                }
                assert(out@.len() == (r + 1) * nf) by (nonlinear_arith)
                    requires out@.len() == r * nf + nf;
            }
            r = r + 1;
        }
        out
    }

    /// The capture configurations: none unless the device supports input.
    pub fn supported_input_configs(&self) -> (v: Vec<SupportedStreamConfigRange>)
        requires
            self.spec_offered_rates().len() * spec_supported_formats().len() <= usize::MAX,
        ensures
            !(self.direction == DeviceDirection::Input || self.direction == DeviceDirection::Duplex)
                ==> v@.len() == 0,
            (self.direction == DeviceDirection::Input || self.direction == DeviceDirection::Duplex)
                ==> {
                &&& v@.len() == self.spec_offered_rates().len() * spec_supported_formats().len()
                &&& forall|r: int, k: int|
                    0 <= r < self.spec_offered_rates().len() && 0 <= k < spec_supported_formats().len()
                        ==> v@[r * spec_supported_formats().len() + k] == self.spec_range(
                        self.spec_offered_rates()[r],
                        spec_supported_formats()[k],
                    )
            },
    {
        if !self.supports_input() {
            return Vec::new();
        }
        self.offered_configs()
    }

    /// The playback configurations: none unless the device supports output.
    pub fn supported_output_configs(&self) -> (v: Vec<SupportedStreamConfigRange>)
        requires
            self.spec_offered_rates().len() * spec_supported_formats().len() <= usize::MAX,
        ensures
            !(self.direction == DeviceDirection::Output || self.direction == DeviceDirection::Duplex)
                ==> v@.len() == 0,
            (self.direction == DeviceDirection::Output || self.direction == DeviceDirection::Duplex)
                ==> {
                &&& v@.len() == self.spec_offered_rates().len() * spec_supported_formats().len()
                &&& forall|r: int, k: int|
                    0 <= r < self.spec_offered_rates().len() && 0 <= k < spec_supported_formats().len()
                        ==> v@[r * spec_supported_formats().len() + k] == self.spec_range(
                        self.spec_offered_rates()[r],
                        spec_supported_formats()[k],
                    )
            },
    {
        if !self.supports_output() {
            return Vec::new();
        }
        self.offered_configs()
    }

    /// The default configuration: 32-bit float at the device's clock rate.
    pub open spec fn spec_default_config(&self) -> SupportedStreamConfig {
        SupportedStreamConfig {
            channels: self.channels,
            sample_format: SampleFormat::F32,
            sample_rate: self.rate,
            buffer_size: SupportedBufferSize::Range { min: self.min_quantum, max: self.max_quantum },
        }
    }

    fn default_config(&self) -> (c: SupportedStreamConfig)
        ensures
            c == self.spec_default_config(),
    {
        SupportedStreamConfig {
            channels: self.channels,
            sample_format: SampleFormat::F32,
            sample_rate: self.rate,
            buffer_size: SupportedBufferSize::Range { min: self.min_quantum, max: self.max_quantum },
        }
    }

    /// The default capture configuration, or an unsupported-operation error for a device that
    /// cannot capture.
    pub fn default_input_config(&self) -> (r: Result<SupportedStreamConfig, Error>)
        ensures
            (self.direction == DeviceDirection::Input || self.direction == DeviceDirection::Duplex)
                ==> r == Ok::<SupportedStreamConfig, Error>(self.spec_default_config()),
            !(self.direction == DeviceDirection::Input || self.direction == DeviceDirection::Duplex)
                ==> (r matches Err(e) && e.kind == ErrorKind::UnsupportedOperation
                && (e.message matches Some(m) && m@ == "device does not support input"@)),
    {
        if !self.supports_input() {
            return Err(Error::with_message(ErrorKind::UnsupportedOperation, "device does not support input"));
        }
        Ok(self.default_config())
    }

    /// The default playback configuration, or an unsupported-operation error for a device
    /// that cannot play.
    pub fn default_output_config(&self) -> (r: Result<SupportedStreamConfig, Error>)
        ensures
            (self.direction == DeviceDirection::Output || self.direction == DeviceDirection::Duplex)
                ==> r == Ok::<SupportedStreamConfig, Error>(self.spec_default_config()),
            !(self.direction == DeviceDirection::Output || self.direction == DeviceDirection::Duplex)
                ==> (r matches Err(e) && e.kind == ErrorKind::UnsupportedOperation
                && (e.message matches Some(m) && m@ == "device does not support output"@)),
    {
        if !self.supports_output() {
            return Err(Error::with_message(ErrorKind::UnsupportedOperation, "device does not support output"));
        }
        Ok(self.default_config())
    }

    /// Gives the device the server's clock settings, keeping a rate or quantum the node
    /// advertised for itself.
    pub fn apply_settings(&mut self, settings: &ClockSettings, overrides: NodeOverrides)
        ensures
            final(self).rate == match overrides.rate { Some(r) => r, None => settings.rate },
            final(self).quantum == match overrides.quantum { Some(q) => q, None => settings.quantum },
            final(self).allow_rates@ == settings.allow_rates@,
            final(self).min_quantum == settings.min_quantum,
            final(self).max_quantum == settings.max_quantum,
            same_identity(*final(self), *old(self)),
    {
        self.rate = match overrides.rate {
            Some(r) => r,
            None => settings.rate,
        };
        self.allow_rates = settings.allow_rates.clone();
        self.quantum = match overrides.quantum {
            Some(q) => q,
            None => settings.quantum,
        };
        self.min_quantum = settings.min_quantum;
        self.max_quantum = settings.max_quantum;
    }
}

/// The sample formats PipeWire streams accept, in a fixed order (64-bit integers have no
/// PipeWire format).
pub open spec fn spec_supported_formats() -> Seq<SampleFormat> {
    seq![
        SampleFormat::I8,
        SampleFormat::U8,
        SampleFormat::I16,
        SampleFormat::U16,
        SampleFormat::I24,
        SampleFormat::U24,
        SampleFormat::I32,
        SampleFormat::U32,
        SampleFormat::F32,
        SampleFormat::F64,
    ]
}

pub fn supported_formats() -> (v: Vec<SampleFormat>)
    ensures
        v@ == spec_supported_formats(),
{
    let v = vec![
        SampleFormat::I8,
        SampleFormat::U8,
        SampleFormat::I16,
        SampleFormat::U16,
        SampleFormat::I24,
        SampleFormat::U24,
        SampleFormat::I32,
        SampleFormat::U32,
        SampleFormat::F32,
        SampleFormat::F64,
    ];
    assert(v@ =~= spec_supported_formats());
    v
}

/// The devices the server offers: its three default routes with the server's clock settings,
/// then every discovered node, whose own rate and quantum win over the server's. `None` when
/// no node was discovered, since the server cannot route any stream then.
pub fn resolve_devices(settings: &ClockSettings, discovered: Vec<(Device, NodeOverrides)>) -> (r: Option<Vec<Device>>)
    ensures
        discovered@.len() == 0 <==> r is None,
        r matches Some(v) ==> {
            &&& v@.len() == discovered@.len() + 3
            &&& is_synthetic(v@[0], "sink_default"@, "default_sink"@, DeviceDirection::Duplex, Class::DefaultSink, Role::Sink)
            &&& is_synthetic(v@[1], "input_default"@, "default_input"@, DeviceDirection::Input, Class::DefaultInput, Role::Source)
            &&& is_synthetic(v@[2], "output_default"@, "default_output"@, DeviceDirection::Output, Class::DefaultOutput, Role::Sink)
            &&& forall|k: int| 0 <= k < 3 ==> {
                &&& (#[trigger] v@[k]).rate == settings.rate
                &&& v@[k].quantum == settings.quantum
                &&& v@[k].allow_rates@ == settings.allow_rates@
                &&& v@[k].min_quantum == settings.min_quantum
                &&& v@[k].max_quantum == settings.max_quantum
            }
            &&& forall|k: int| 0 <= k < discovered@.len() ==> {
                let (d, o) = #[trigger] discovered@[k];
                &&& same_identity(v@[k + 3], d)
                &&& v@[k + 3].rate == match o.rate { Some(x) => x, None => settings.rate }
                &&& v@[k + 3].quantum == match o.quantum { Some(x) => x, None => settings.quantum }
                &&& v@[k + 3].allow_rates@ == settings.allow_rates@
                &&& v@[k + 3].min_quantum == settings.min_quantum
                &&& v@[k + 3].max_quantum == settings.max_quantum
            }
        },
{
    if discovered.len() == 0 {
        return None;
    }
    let no_override = NodeOverrides { rate: None, quantum: None };
    let mut sink = Device::sink_default();
    sink.apply_settings(settings, no_override);
    let mut input = Device::input_default();
    input.apply_settings(settings, no_override);
    let mut output = Device::output_default();
    output.apply_settings(settings, no_override);
    let mut devices: Vec<Device> = Vec::new();
    devices.push(sink);
    devices.push(input);
    devices.push(output);
    let n = discovered.len();
    let mut k: usize = 0;
    while k < n
        invariant
            n == discovered@.len(),
            k <= n,
            devices@.len() == k + 3,
            is_synthetic(devices@[0], "sink_default"@, "default_sink"@, DeviceDirection::Duplex, Class::DefaultSink, Role::Sink),
            is_synthetic(devices@[1], "input_default"@, "default_input"@, DeviceDirection::Input, Class::DefaultInput, Role::Source),
            is_synthetic(devices@[2], "output_default"@, "default_output"@, DeviceDirection::Output, Class::DefaultOutput, Role::Sink),
            forall|j: int| 0 <= j < 3 ==> {
                &&& (#[trigger] devices@[j]).rate == settings.rate
                &&& devices@[j].quantum == settings.quantum
                &&& devices@[j].allow_rates@ == settings.allow_rates@
                &&& devices@[j].min_quantum == settings.min_quantum
                &&& devices@[j].max_quantum == settings.max_quantum
            },
            forall|j: int| 0 <= j < k ==> {
                let (d, o) = #[trigger] discovered@[j];
                &&& same_identity(devices@[j + 3], d)
                &&& devices@[j + 3].rate == match o.rate { Some(x) => x, None => settings.rate }
                &&& devices@[j + 3].quantum == match o.quantum { Some(x) => x, None => settings.quantum }
                &&& devices@[j + 3].allow_rates@ == settings.allow_rates@
                &&& devices@[j + 3].min_quantum == settings.min_quantum
                &&& devices@[j + 3].max_quantum == settings.max_quantum
            },
        decreases n - k,
    {
        let (d, o) = &discovered[k];
        let mut device = d.duplicate();
        device.apply_settings(settings, *o);
        devices.push(device);
        k = k + 1;
    }
    Some(devices)
}

/// The properties a stream opened on `device` in `direction` is created with: its media
/// type and category, capture from a sink's monitor when capturing from a sink, the target
/// node for a real node, the group shared by all streams of the process `process_id`, and the
/// forced quantum for a fixed buffer size.
pub fn pw_properties(device: &Device, direction: DeviceDirection, config: &StreamConfig, process_id: u32) -> (props: Props)
    requires
        direction == DeviceDirection::Input || direction == DeviceDirection::Output,
    ensures
        spec_prop(props@, "media.type"@) == Some("Audio"@),
        spec_prop(props@, "media.category"@) == Some(
            if direction == DeviceDirection::Output { "Playback"@ } else { "Capture"@ },
        ),
        spec_prop(props@, "stream.capture.sink"@) == if device.role == Role::Sink && direction
            == DeviceDirection::Input {
            Some("true"@)
        } else {
            None::<Seq<char>>
        },
        spec_prop(props@, "target.object"@) == if device.class == Class::Node {
            Some(spec_decimal(device.object_serial as nat))
        } else {
            None::<Seq<char>>
        },
        spec_prop(props@, "node.group"@) == Some("cpal-"@ + spec_decimal(process_id as nat)),
        spec_prop(props@, "node.force-quantum"@) == match config.buffer_size {
            BufferSize::Fixed(n) => Some(spec_decimal(n as nat)),
            BufferSize::Default => None::<Seq<char>>,
        },
        props@.len() == 3 + (if device.role == Role::Sink && direction == DeviceDirection::Input { 1int } else { 0 })
            + (if device.class == Class::Node { 1int } else { 0 }) + (if config.buffer_size is Fixed { 1int } else { 0 }),
{
    proof {
        reveal_strlit("media.type");
        reveal_strlit("media.category");
        reveal_strlit("stream.capture.sink");
        reveal_strlit("target.object");
        reveal_strlit("node.group");
        reveal_strlit("node.force-quantum");
        reveal_strlit("cpal-");
        assert("media.type"@[0] != "node.group"@[0]);
        assert("media.type"@.len() == 10);
        assert("media.category"@.len() == 14);
        assert("stream.capture.sink"@.len() == 19);
        assert("target.object"@.len() == 13);
        assert("node.group"@.len() == 10);
        assert("node.force-quantum"@.len() == 18);
    }
    let mut props: Props = Vec::new();
    props_push(&mut props, "media.type".to_owned(), "Audio".to_owned());
    if direction == DeviceDirection::Output {
        props_push(&mut props, "media.category".to_owned(), "Playback".to_owned());
    } else {
        props_push(&mut props, "media.category".to_owned(), "Capture".to_owned());
    }
    if device.role == Role::Sink && direction == DeviceDirection::Input {
        props_push(&mut props, "stream.capture.sink".to_owned(), "true".to_owned());
    }
    if device.class == Class::Node {
        props_push(&mut props, "target.object".to_owned(), decimal_text(device.object_serial));
    }
    let pid = decimal_text(process_id);
    let group = "cpal-".to_owned().concat(pid.as_str());
    props_push(&mut props, "node.group".to_owned(), group);
    let fixed = match config.buffer_size {
        BufferSize::Fixed(n) => Some(n),
        BufferSize::Default => None,
    };
    if let Some(n) = fixed {
        props_push(&mut props, "node.force-quantum".to_owned(), decimal_text(n));
    }
    props
}

/// Appends an entry; lookups of keys already present are unchanged, and a missing key now
/// finds the new entry when it matches.
fn props_push(props: &mut Props, key: String, value: String)
    ensures
        final(props)@ == old(props)@.push((key, value)),
        forall|k: Seq<char>| #[trigger] spec_prop(final(props)@, k) == match spec_prop(old(props)@, k) {
            Some(v) => Some(v),
            None => if key@ == k { Some(value@) } else { None },
        },
{
    let ghost before = props@;
    let ghost e = (key, value);
    props.push((key, value));
    proof {
        assert forall|k: Seq<char>| #[trigger] spec_prop(props@, k) == match spec_prop(before, k) {
            Some(v) => Some(v),
            None => if e.0@ == k { Some(e.1@) } else { None },
        } by {
            lemma_prop_push(before, e, k);
        }
    }
}

proof fn lemma_prop_push(s: Seq<(String, String)>, e: (String, String), key: Seq<char>)
    ensures
        spec_prop(s.push(e), key) == match spec_prop(s, key) {
            Some(v) => Some(v),
            None => if e.0@ == key { Some(e.1@) } else { None },
        },
    decreases s.len(),
{
    if s.len() == 0 {
        assert(s.push(e).drop_first().len() == 0);
        assert(spec_prop(s.push(e).drop_first(), key) is None);
        assert(s.push(e)[0] == e);
    } else {
        assert(s.push(e)[0] == s[0]);
        assert(s.push(e).drop_first() =~= s.drop_first().push(e));
        lemma_prop_push(s.drop_first(), e, key);
    }
}

/// The PipeWire sample format a stream of `format` is negotiated in, in the machine's byte
/// order; formats PipeWire has no name for map to `Unknown`.
#[derive(Clone, Copy, Debug, PartialEq, Eq, Structural)]
pub enum AudioFormat {
    Unknown,
    S8,
    U8,
    S16LE,
    S16BE,
    U16LE,
    U16BE,
    S24LE,
    S24BE,
    U24LE,
    U24BE,
    S32LE,
    S32BE,
    U32LE,
    U32BE,
    F32LE,
    F32BE,
    F64LE,
    F64BE,
}

pub open spec fn spec_audio_format(f: SampleFormat, little_endian: bool) -> AudioFormat {
    match f {
        SampleFormat::I8 => AudioFormat::S8,
        SampleFormat::U8 => AudioFormat::U8,
        SampleFormat::I16 => if little_endian { AudioFormat::S16LE } else { AudioFormat::S16BE },
        SampleFormat::U16 => if little_endian { AudioFormat::U16LE } else { AudioFormat::U16BE },
        SampleFormat::I24 => if little_endian { AudioFormat::S24LE } else { AudioFormat::S24BE },
        SampleFormat::U24 => if little_endian { AudioFormat::U24LE } else { AudioFormat::U24BE },
        SampleFormat::I32 => if little_endian { AudioFormat::S32LE } else { AudioFormat::S32BE },
        SampleFormat::U32 => if little_endian { AudioFormat::U32LE } else { AudioFormat::U32BE },
        SampleFormat::F32 => if little_endian { AudioFormat::F32LE } else { AudioFormat::F32BE },
        SampleFormat::F64 => if little_endian { AudioFormat::F64LE } else { AudioFormat::F64BE },
        _ => AudioFormat::Unknown,
    }
}

pub fn audio_format(f: SampleFormat, little_endian: bool) -> (a: AudioFormat)
    ensures
        a == spec_audio_format(f, little_endian),
{
    match f {
        SampleFormat::I8 => AudioFormat::S8,
        SampleFormat::U8 => AudioFormat::U8,
        SampleFormat::I16 => if little_endian { AudioFormat::S16LE } else { AudioFormat::S16BE },
        SampleFormat::U16 => if little_endian { AudioFormat::U16LE } else { AudioFormat::U16BE },
        SampleFormat::I24 => if little_endian { AudioFormat::S24LE } else { AudioFormat::S24BE },
        SampleFormat::U24 => if little_endian { AudioFormat::U24LE } else { AudioFormat::U24BE },
        SampleFormat::I32 => if little_endian { AudioFormat::S32LE } else { AudioFormat::S32BE },
        SampleFormat::U32 => if little_endian { AudioFormat::U32LE } else { AudioFormat::U32BE },
        SampleFormat::F32 => if little_endian { AudioFormat::F32LE } else { AudioFormat::F32BE },
        SampleFormat::F64 => if little_endian { AudioFormat::F64LE } else { AudioFormat::F64BE },
        _ => AudioFormat::Unknown,
    }
}

/// Every format a PipeWire stream is offered in has a PipeWire name.
pub proof fn lemma_supported_formats_have_names(k: int, little_endian: bool)
    requires
        0 <= k < spec_supported_formats().len(),
    ensures
        spec_audio_format(spec_supported_formats()[k], little_endian) != AudioFormat::Unknown,
{
}

/// Where a stream stands in PipeWire's state machine; an error state carries the server's
/// message.
#[derive(Clone, Debug)]
pub enum PwStreamState {
    Error(String),
    Unconnected,
    Connecting,
    Paused,
    Streaming,
}

/// The error a state change reports to the user: only the error state reports one, as a
/// backend error with the server's message.
pub fn state_change_error(state: &PwStreamState) -> (e: Option<Error>)
    ensures
        state is Error <==> e is Some,
        e matches Some(err) ==> err.kind == ErrorKind::BackendError && err.message == Some(state->Error_0),
{
    match state {
        PwStreamState::Error(message) => Some(Error { kind: ErrorKind::BackendError, message: Some(message.clone()) }),
        _ => None,
    }
}

/// A graph cycle's clock reading: the cycle start and the pipeline delay, in nanoseconds.
#[derive(Clone, Copy, Debug, PartialEq, Eq, Structural)]
pub struct PwTime {
    pub now_ns: i64,
    pub delay_ns: i64,
}

/// `a / b` rounded toward zero, as Rust divides signed integers.
pub open spec fn trunc_div(a: int, b: int) -> int {
    if a >= 0 { a / b } else { -((-a) / b) }
}

/// The clock reading of a `pw_time` query: `None` when the query failed (`rc != 0`), the
/// driver has not started (`now <= 0`) or the rate is unavailable (`rate_denom == 0`);
/// otherwise the delay in frames converted to nanoseconds at `rate_denom` frames per second.
pub fn pw_time_from_query(rc: i32, now: i64, delay: i64, rate_num: u32, rate_denom: u32) -> (t: Option<PwTime>)
    requires
        (rc == 0 && now > 0 && rate_denom != 0) ==> rate_num == 1,
        (rc == 0 && now > 0 && rate_denom != 0) ==> -9_223_372_036 <= delay <= 9_223_372_036,
    ensures
        t is Some <==> (rc == 0 && now > 0 && rate_denom != 0),
        t matches Some(pt) ==> pt.now_ns == now && pt.delay_ns == trunc_div(delay * 1_000_000_000, rate_denom as int),
{
    if rc != 0 || now <= 0 || rate_denom == 0 {
        return None;
    }
    let delay_ns: i64 = if delay >= 0 {
        delay * 1_000_000_000 / rate_denom as i64
    } else {
        -((-delay) * 1_000_000_000 / rate_denom as i64)
    };
    Some(PwTime { now_ns: now, delay_ns })
}

/// Callback and capture instants of an input cycle. With a clock reading, the callback time
/// is the cycle start and capture was the (non-negative) delay earlier; without one, the
/// callback time is `clock` (an error when the system clock could not be read) and capture
/// was `latency` earlier, or the clock's epoch if that precedes it.
pub fn input_instants(time: Option<PwTime>, clock: Option<StreamInstant>, latency: Duration) -> (r: Result<(StreamInstant, StreamInstant), Error>)
    requires
        time matches Some(t) ==> t.now_ns > 0,
    ensures
        time matches Some(t) ==> (r matches Ok((cb, cap)) && cb@ == t.now_ns
            && cap@ == ((t.now_ns - (if t.delay_ns > 0 { t.delay_ns as int } else { 0 })) as u64)),
        time is None && clock is None ==> (r matches Err(e) && e.kind == ErrorKind::BackendError
            && (e.message matches Some(m) && m@ == "clock_gettime failed"@)),
        time is None ==> (clock matches Some(c) ==> (r matches Ok((cb, cap)) && cb@ == c@
            && cap@ == (if latency@ <= c@ { c@ - latency@ } else { 0 }))),
{
    match time {
        Some(t) => {
            let d: i64 = if t.delay_ns > 0 { t.delay_ns } else { 0 };
            Ok((StreamInstant::from_nanos(t.now_ns as u64), StreamInstant::from_nanos((t.now_ns - d) as u64)))
        },
        None => match clock {
            Some(cb) => {
                let capture = match cb.checked_sub(latency) {
                    Some(c) => c,
                    None => StreamInstant::zero(),
                };
                Ok((cb, capture))
            },
            None => Err(Error::with_message(ErrorKind::BackendError, "clock_gettime failed")),
        },
    }
}

/// Callback and playback instants of an output cycle. With a clock reading, the callback time
/// is the cycle start and playback is the (non-negative) delay later; without one, the
/// callback time is `clock` (an error when the system clock could not be read) and playback is
/// `latency` later.
pub fn output_instants(time: Option<PwTime>, clock: Option<StreamInstant>, latency: Duration) -> (r: Result<(StreamInstant, StreamInstant), Error>)
    requires
        time matches Some(t) ==> t.now_ns > 0 && t.now_ns + (if t.delay_ns > 0 { t.delay_ns as int } else { 0 }) <= i64::MAX,
        time is None ==> (clock matches Some(c) ==> c@ + latency@ <= MAX_NANOS),
    ensures
        time matches Some(t) ==> (r matches Ok((cb, pl)) && cb@ == t.now_ns
            && pl@ == t.now_ns + (if t.delay_ns > 0 { t.delay_ns as int } else { 0 })),
        time is None && clock is None ==> (r matches Err(e) && e.kind == ErrorKind::BackendError
            && (e.message matches Some(m) && m@ == "clock_gettime failed"@)),
        time is None ==> (clock matches Some(c) ==> (r matches Ok((cb, pl)) && cb@ == c@
            && pl@ == c@ + latency@)),
{
    match time {
        Some(t) => {
            let d: i64 = if t.delay_ns > 0 { t.delay_ns } else { 0 };
            Ok((StreamInstant::from_nanos(t.now_ns as u64), StreamInstant::from_nanos((t.now_ns + d) as u64)))
        },
        None => match clock {
            Some(cb) => Ok((cb, cb.add(latency))),
            None => Err(Error::with_message(ErrorKind::BackendError, "clock_gettime failed")),
        },
    }
}

/// The count of live initialisation guards after one more is created, and whether that
/// guard initialises the library (it is the first).
pub open spec fn spec_guard_acquire(count: nat) -> (nat, bool) {
    (count + 1, count == 0)
}

/// The count of live initialisation guards after one is dropped, and whether that guard
/// deinitialises the library (it was the last).
pub open spec fn spec_guard_release(count: nat) -> (nat, bool) {
    let n: nat = if count > 0 { (count - 1) as nat } else { 0 };
    (n, n == 0)
}

/// What an initialisation guard must do when it is created with `count` guards alive:
/// initialise the library when it is the first; returns the new count.
pub fn init_guard_acquire(count: usize) -> (r: (usize, bool))
    requires
        count < usize::MAX,
    ensures
        (r.0 as nat, r.1) == spec_guard_acquire(count as nat),
{
    (count + 1, count == 0)
}

/// What an initialisation guard must do when it is dropped with `count` guards alive:
/// deinitialise the library when it was the last; returns the new count.
pub fn init_guard_release(count: usize) -> (r: (usize, bool))
    ensures
        (r.0 as nat, r.1) == spec_guard_release(count as nat),
{
    let n = count.saturating_sub(1);
    (n, n == 0)
}

/// Creating a guard and dropping it again restores the count, and the library is
/// deinitialised by that drop exactly when the creation initialised it.
pub proof fn lemma_init_guard_balanced(count: nat)
    ensures
        spec_guard_release(spec_guard_acquire(count).0).0 == count,
        spec_guard_release(spec_guard_acquire(count).0).1 == spec_guard_acquire(count).1,
{
}

/// A command for a stream's PipeWire thread.
#[derive(Clone, Copy, Debug, PartialEq, Eq, Structural)]
pub enum StreamCommand {
    /// Activate (`true`) or deactivate (`false`) the stream.
    Toggle(bool),
    /// Disconnect the stream and end the thread.
    Stop,
}

/// The command that plays (`true`) or pauses (`false`) a stream.
pub fn play_command(play: bool) -> (c: StreamCommand)
    ensures
        c == StreamCommand::Toggle(play),
{
    StreamCommand::Toggle(play)
}

/// The state a stream callback keeps: the user's callbacks, the negotiated format and the
/// last quantum seen.
pub struct UserData<D, E> {
    pub data_callback: D,
    pub error_callback: E,
    pub sample_format: SampleFormat,
    pub rate: SampleRate,
    pub channels: u32,
    pub last_quantum: u64,
}

impl<D, E> UserData<D, E> {
    /// Records the size of the cycle being delivered.
    pub fn record_quantum(&mut self, frames: u64)
        ensures
            final(self).last_quantum == frames,
            final(self).sample_format == old(self).sample_format,
            final(self).rate == old(self).rate,
            final(self).channels == old(self).channels,
    {
        self.last_quantum = frames;
    }
}

/// The server's clock settings as the connection thread reports them.
#[derive(Clone, Debug)]
pub struct Settings {
    pub allowed_sample_rates: Vec<u32>,
    pub min_buffer_size: u32,
    pub max_buffer_size: u32,
    pub default_buffer_size: u32,
}

/// The text between the first two and the last two bytes of a metadata value, where the
/// list of allowed rates is written.
pub open spec fn spec_rates_text(value: Seq<char>) -> Seq<char> {
    let b = encode_utf8(value);
    decode_utf8(b.subrange(2, b.len() - 2))
}

/// Whether the list of allowed rates in `value` can be read: the value has at least four
/// bytes, two bytes in from each end are character boundaries, and every white-space
/// separated token between them is an unsigned 32-bit number.
pub open spec fn spec_rates_readable(value: Seq<char>) -> bool {
    let b = encode_utf8(value);
    &&& b.len() >= 4
    &&& is_char_boundary(b, 2)
    &&& is_char_boundary(b, b.len() - 2)
    &&& forall|k: int|
        0 <= k < white_space_tokens(spec_rates_text(value)).len() ==> (#[trigger] spec_parse_u32(
            white_space_tokens(spec_rates_text(value))[k],
        )) is Some
}

/// The allowed rates a readable `value` lists.
pub open spec fn spec_rates_of(value: Seq<char>) -> Seq<u32> {
    white_space_tokens(spec_rates_text(value)).map_values(|t: Seq<char>| spec_parse_u32(t)->0)
}

/// An index two bytes in from the end of a valid encoding that is a character boundary is
/// also one of the encoding without its last two bytes, as is its end.
proof fn lemma_prefix_boundary(b: Seq<u8>, cut: int, i: int)
    requires
        valid_utf8(b),
        is_char_boundary(b, cut),
        is_char_boundary(b, i),
        0 <= i <= cut <= b.len(),
    ensures
        valid_utf8(b.subrange(0, cut)),
        is_char_boundary(b.subrange(0, cut), i),
{
    let p = b.subrange(0, cut);
    vstd::utf8::valid_utf8_split(b, cut);
    assert(valid_utf8(p));
    if i == cut {
        vstd::utf8::is_char_boundary_start_end_of_seq(p);
        assert(p.len() == cut);
    } else if i > 0 {
        vstd::utf8::is_char_boundary_iff_not_is_continuation_byte(b, i);
        vstd::utf8::is_char_boundary_iff_not_is_continuation_byte(p, i);
        assert(p[i] == b[i]);
    }
}

/// Reads the allowed rates listed in a metadata value such as `"[ 44100 48000 ]"`: the
/// white-space separated numbers between its first two and last two bytes.
fn read_allowed_rates(value: &str) -> (r: Vec<u32>)
    requires
        spec_rates_readable(value@),
    ensures
        r@ == spec_rates_of(value@),
{
    broadcast use vstd::utf8::group_utf8_lib;

    let len = value.as_bytes().len();
    let ghost b = value.spec_bytes();
    assert(b == encode_utf8(value@));
    assert(len == b.len());
    proof {
        vstd::utf8::encode_utf8_valid_utf8(value@);
        lemma_prefix_boundary(b, len - 2, 2);
    }
    let (head, _) = value.split_at(len - 2);
    assert(head.spec_bytes() =~= b.subrange(0, len - 2));
    let (_, mid) = head.split_at(2);
    assert(mid.spec_bytes() =~= b.subrange(2, len - 2));
    assert(mid@ == spec_rates_text(value@)) by {
        assert(decode_utf8(encode_utf8(mid@)) == mid@);
    }
    let chars = str_chars(mid);
    let bounds = white_space_token_bounds(&chars, 0, chars.len());
    assert(chars@.subrange(0, chars@.len() as int) =~= chars@);
    let ghost tokens = white_space_tokens(chars@);
    let mut rates: Vec<u32> = Vec::new();
    let mut k: usize = 0;
    while k < bounds.len()
        invariant
            chars@ == spec_rates_text(value@),
            tokens == white_space_tokens(chars@),
            bounds@.len() == tokens.len(),
            spec_rates_readable(value@),
            forall|j: int|
                0 <= j < bounds@.len() ==> {
                    &&& (#[trigger] bounds@[j]).0 <= bounds@[j].1 <= chars@.len()
                    &&& chars@.subrange(bounds@[j].0 as int, bounds@[j].1 as int) == tokens[j]
                },
            k <= bounds@.len(),
            rates@ == tokens.subrange(0, k as int).map_values(|t: Seq<char>| spec_parse_u32(t)->0),
        decreases bounds@.len() - k,
    {
        let (a, e) = bounds[k];
        let parsed = parse_u32_range(&chars, a, e);
        assert(spec_parse_u32(tokens[k as int]) is Some);
        let x = match parsed {
            Some(x) => x,
            None => 0,
        };
        rates.push(x);
        k = k + 1;
        assert(rates@ =~= tokens.subrange(0, k as int).map_values(|t: Seq<char>| spec_parse_u32(t)->0));
    }
    assert(tokens.subrange(0, tokens.len() as int) =~= tokens);
    rates
}

/// Whether a metadata property can be applied: a list of allowed rates that is not a plain
/// number must be readable.
pub open spec fn spec_metadata_property_ok(key: Option<Seq<char>>, value: Option<Seq<char>>) -> bool {
    (key == Some("clock.allowed-rates"@) && value is Some && spec_parse_u32(value->0) is None)
        ==> spec_rates_readable(value->0)
}

impl Settings {
    /// Applies one property of the server's `settings` metadata: a numeric `clock.quantum`,
    /// `clock.min-quantum` or `clock.max-quantum` sets the default, smallest or largest
    /// buffer size, and a non-numeric `clock.allowed-rates` replaces the allowed rates. When
    /// no allowed rate is known afterwards, the rate this property set (`clock.rate`), else
    /// zero, is allowed.
    pub fn apply_metadata_property(&mut self, key: Option<&str>, value: Option<&str>)
        requires
            spec_metadata_property_ok(
                match key {
                    Some(k) => Some(k@),
                    None => None,
                },
                match value {
                    Some(v) => Some(v@),
                    None => None,
                },
            ),
        ensures
            ({
                let k: Seq<char> = match key {
                    Some(k) => k@,
                    None => Seq::empty(),
                };
                let number: Option<u32> = match value {
                    Some(v) => spec_parse_u32(v@),
                    None => None,
                };
                let rates: Seq<u32> = match value {
                    Some(v) => if key is Some && k == "clock.allowed-rates"@ && number is None {
                        spec_rates_of(v@)
                    } else {
                        old(self).allowed_sample_rates@
                    },
                    None => old(self).allowed_sample_rates@,
                };
                let rate: u32 = match number {
                    Some(x) => if key is Some && k == "clock.rate"@ { x } else { 0 },
                    None => 0,
                };
                &&& final(self).default_buffer_size == (match number {
                    Some(x) => if key is Some && k == "clock.quantum"@ { x } else { old(self).default_buffer_size },
                    None => old(self).default_buffer_size,
                })
                &&& final(self).min_buffer_size == (match number {
                    Some(x) => if key is Some && k == "clock.min-quantum"@ { x } else { old(self).min_buffer_size },
                    None => old(self).min_buffer_size,
                })
                &&& final(self).max_buffer_size == (match number {
                    Some(x) => if key is Some && k == "clock.max-quantum"@ { x } else { old(self).max_buffer_size },
                    None => old(self).max_buffer_size,
                })
                &&& final(self).allowed_sample_rates@ == if rates.len() == 0 { seq![rate] } else { rates }
            }),
    {
        proof {
            reveal_strlit("clock.rate");
            reveal_strlit("clock.quantum");
            reveal_strlit("clock.min-quantum");
            reveal_strlit("clock.max-quantum");
            reveal_strlit("clock.allowed-rates");
            assert("clock.rate"@.len() == 10);
            assert("clock.quantum"@.len() == 13);
            assert("clock.min-quantum"@.len() == 17);
            assert("clock.max-quantum"@.len() == 17);
            assert("clock.allowed-rates"@.len() == 19);
            assert("clock.min-quantum"@[7] != "clock.max-quantum"@[7]);
        }
        let mut sample_rate: u32 = 0;
        if let Some(v) = value {
            let chars = str_chars(v);
            match parse_u32_range(&chars, 0, chars.len()) {
                Some(x) => {
                    assert(chars@.subrange(0, chars@.len() as int) =~= v@);
                    if let Some(k) = key {
                        if text_eq(k, "clock.rate") {
                            sample_rate = x;
                        } else if text_eq(k, "clock.quantum") {
                            self.default_buffer_size = x;
                        } else if text_eq(k, "clock.min-quantum") {
                            self.min_buffer_size = x;
                        } else if text_eq(k, "clock.max-quantum") {
                            self.max_buffer_size = x;
                        }
                    }
                },
                None => {
                    assert(chars@.subrange(0, chars@.len() as int) =~= v@);
                    if let Some(k) = key {
                        if text_eq(k, "clock.allowed-rates") {
                            self.allowed_sample_rates = read_allowed_rates(v);
                        }
                    }
                },
            }
        }
        if self.allowed_sample_rates.len() == 0 {
            self.allowed_sample_rates.push(sample_rate);
        }
    }
}

/// A node created on the server: its name and id.
#[derive(Clone, Debug)]
pub struct NodeInfo {
    pub name: String,
    pub id: u32,
}

/// Whether a node to create captures or plays.
#[derive(Clone, Copy, Debug, PartialEq, Eq, Structural)]
pub enum NodeKind {
    InputDevice,
    OutputDevice,
}

/// A request to the connection thread.
#[derive(Debug)]
pub enum Message {
    Terminate,
    GetSettings,
    CreateDeviceNode { name: String, device_type: NodeKind, autoconnect: bool },
    EnumerateDevices,
}

/// A reply from the connection thread.
#[derive(Debug)]
pub enum MessageRepl {
    Settings(Settings),
    NodeInfo(NodeInfo),
}

/// The settings a reply carries; a failed receive passes its error on, and any other reply
/// is an error with an empty message.
pub fn settings_from_reply(reply: Result<MessageRepl, String>) -> (r: Result<Settings, String>)
    ensures
        reply matches Ok(MessageRepl::Settings(s)) ==> (r matches Ok(t) && t.allowed_sample_rates@
            == s.allowed_sample_rates@ && t.min_buffer_size == s.min_buffer_size && t.max_buffer_size
            == s.max_buffer_size && t.default_buffer_size == s.default_buffer_size),
        reply matches Err(e) ==> (r matches Err(m) && m@ == e@),
        reply matches Ok(MessageRepl::NodeInfo(_)) ==> (r matches Err(m) && m@.len() == 0),
{
    match reply {
        Ok(MessageRepl::Settings(settings)) => Ok(settings),
        Err(err) => Err(err),
        _ => Err(String::new()),
    }
}

/// The node a reply describes; a failed receive passes its error on, and any other reply is
/// an error with an empty message.
pub fn node_info_from_reply(reply: Result<MessageRepl, String>) -> (r: Result<NodeInfo, String>)
    ensures
        reply matches Ok(MessageRepl::NodeInfo(n)) ==> (r matches Ok(t) && t.name == n.name && t.id == n.id),
        reply matches Err(e) ==> (r matches Err(m) && m@ == e@),
        reply matches Ok(MessageRepl::Settings(_)) ==> (r matches Err(m) && m@.len() == 0),
{
    match reply {
        Ok(MessageRepl::NodeInfo(info)) => Ok(info),
        Err(err) => Err(err),
        _ => Err(String::new()),
    }
}

/// The properties of a node created for `name`: a null-audio-sink adapter of the given kind
/// that links its ports automatically when `autoconnect` is set.
pub fn device_node_props(name: &str, kind: NodeKind, autoconnect: bool) -> (props: Props)
    ensures
        props@.len() == 5,
        spec_prop(props@, "node.name"@) == Some(name@),
        spec_prop(props@, "factory.name"@) == Some("support.null-audio-sink"@),
        spec_prop(props@, "media.type"@) == Some("Audio"@),
        spec_prop(props@, "media.category"@) == Some(
            if kind == NodeKind::InputDevice { "Capture"@ } else { "Playback"@ },
        ),
        spec_prop(props@, "node.autoconnect"@) == Some(if autoconnect { "true"@ } else { "false"@ }),
{
    proof {
        reveal_strlit("node.name");
        reveal_strlit("factory.name");
        reveal_strlit("media.type");
        reveal_strlit("media.category");
        reveal_strlit("node.autoconnect");
        assert("node.name"@.len() == 9);
        assert("factory.name"@.len() == 12);
        assert("media.type"@.len() == 10);
        assert("media.category"@.len() == 14);
        assert("node.autoconnect"@.len() == 16);
    }
    let mut props: Props = Vec::new();
    props_push(&mut props, "node.name".to_owned(), name.to_owned());
    props_push(&mut props, "factory.name".to_owned(), "support.null-audio-sink".to_owned());
    props_push(&mut props, "media.type".to_owned(), "Audio".to_owned());
    let category = if kind == NodeKind::InputDevice { "Capture" } else { "Playback" };
    props_push(&mut props, "media.category".to_owned(), category.to_owned());
    let auto = if autoconnect { "true" } else { "false" };
    props_push(&mut props, "node.autoconnect".to_owned(), auto.to_owned());
    props
}

/// The node a registry entry of id `id` describes when it is an audio source or sink, named
/// by its nick, else its description, else "Unknown device".
pub fn node_info_from_props(id: u32, props: &Props) -> (r: Option<NodeInfo>)
    ensures
        r is Some <==> (spec_prop(props@, "media.class"@) == Some("Audio/Source"@)
            || spec_prop(props@, "media.class"@) == Some("Audio/Sink"@)),
        r matches Some(n) ==> n.id == id && n.name@ == match spec_prop(props@, "node.nick"@) {
            Some(v) => v,
            None => match spec_prop(props@, "node.description"@) {
                Some(v) => v,
                None => "Unknown device"@,
            },
        },
{
    if !(prop_is(props, "media.class", "Audio/Source") || prop_is(props, "media.class", "Audio/Sink")) {
        return None;
    }
    let name = match prop_opt(props, "node.nick") {
        Some(n) => n,
        None => prop_or(props, "node.description", "Unknown device"),
    };
    Some(NodeInfo { name, id })
}

/// One turn of the real-time promotion thread.
#[derive(Clone, Copy, Debug, PartialEq, Eq, Structural)]
pub enum PromoterStep {
    /// The stream is gone: end the thread.
    Exit,
    /// Promote the audio thread for a period of this many frames, then look again.
    Promote(u32),
    /// Nothing asked: sleep until woken.
    Park,
}

/// What the promotion thread does when it wakes with `shutdown` set or not and `pending`
/// frames requested since its last turn (zero for none): shutting down wins, then a pending
/// request is served.
pub fn promoter_step(shutdown: bool, pending: u32) -> (s: PromoterStep)
    ensures
        s == (if shutdown {
            PromoterStep::Exit
        } else if pending != 0 {
            PromoterStep::Promote(pending)
        } else {
            PromoterStep::Park
        }),
{
    if shutdown {
        PromoterStep::Exit
    } else if pending != 0 {
        PromoterStep::Promote(pending)
    } else {
        PromoterStep::Park
    }
}

/// The error reported when the promotion thread cannot be started, `detail` saying why.
pub fn promotion_thread_error(detail: &str) -> (e: Error)
    ensures
        e.kind == ErrorKind::ResourceExhausted,
        e.message matches Some(m) && m@ == "failed to create real-time promotion thread: "@ + detail@,
{
    let text = "failed to create real-time promotion thread: ".to_owned().concat(detail);
    Error { kind: ErrorKind::ResourceExhausted, message: Some(text) }
}

/// How a stream's start-up on the PipeWire thread ended, as the waiting caller sees it: the
/// thread's verdict on the configuration, or nothing when the wait timed out.
pub fn stream_init_outcome(verdict: Option<bool>) -> (r: Result<(), Error>)
    ensures
        verdict == Some(true) ==> r is Ok,
        verdict == Some(false) ==> (r matches Err(e) && e.kind == ErrorKind::UnsupportedConfig
            && (e.message matches Some(m) && m@ == "stream configuration rejected by PipeWire"@)),
        verdict is None ==> (r matches Err(e) && e.kind == ErrorKind::DeviceNotAvailable
            && (e.message matches Some(m) && m@ == "PipeWire timed out"@)),
{
    match verdict {
        Some(true) => Ok(()),
        Some(false) => Err(Error::with_message(ErrorKind::UnsupportedConfig, "stream configuration rejected by PipeWire")),
        None => Err(Error::with_message(ErrorKind::DeviceNotAvailable, "PipeWire timed out")),
    }
}

/// The error reported when the stream's thread cannot be started, `detail` saying why.
pub fn stream_thread_error(detail: &str) -> (e: Error)
    ensures
        e.kind == ErrorKind::Other,
        e.message matches Some(m) && m@ == "failed to create thread: "@ + detail@,
{
    let text = "failed to create thread: ".to_owned().concat(detail);
    Error { kind: ErrorKind::Other, message: Some(text) }
}

/// What one graph cycle of a playback stream does with the buffer it dequeued.
#[derive(Clone, Copy, Debug, PartialEq, Eq, Structural)]
pub struct OutputCycle {
    /// Frames handed to the user's callback.
    pub frames: usize,
    /// Samples handed to the user's callback.
    pub samples: usize,
    /// Bytes at the start of the buffer cleared to silence and then filled.
    pub active_bytes: usize,
    /// The chunk's offset, stride and size as the stream reports them back.
    pub chunk_offset: u32,
    pub chunk_stride: i32,
    pub chunk_size: u32,
}

/// The playback cycle for a buffer of `max_size` bytes when the server requests `requested`
/// frames of `n_channels` channels in `format`: the request, capped by the frames the buffer
/// holds, filled from offset 0; `None` while no channel count has been negotiated.
pub fn output_cycle(n_channels: u32, format: SampleFormat, requested: usize, max_size: u32) -> (c: Option<OutputCycle>)
    requires
        n_channels * format.spec_sample_size() <= usize::MAX,
    ensures
        n_channels == 0 <==> c is None,
        c matches Some(cy) ==> {
            let stride: nat = format.spec_sample_size() * n_channels as nat;
            let capacity: nat = (max_size as nat) / stride;
            let frames: nat = if requested <= capacity { requested as nat } else { capacity };
            &&& cy.frames == frames
            &&& cy.samples == frames * n_channels
            &&& cy.active_bytes == frames * stride
            &&& cy.chunk_offset == 0
            &&& cy.chunk_stride == #[verifier::truncate] (stride as i32)
            &&& cy.chunk_size == frames * stride
        },
{
    if n_channels == 0 {
        return None;
    }
    let size = format.sample_size();
    assert(size * n_channels <= usize::MAX && size * n_channels >= 1) by (nonlinear_arith)
        requires
            n_channels * size <= usize::MAX,
            size >= 1,
            n_channels >= 1,
    ;
    let stride: usize = size * n_channels as usize;
    let capacity: usize = max_size as usize / stride;
    let frames: usize = if requested <= capacity { requested } else { capacity };
    assert(frames * stride <= max_size) by (nonlinear_arith)
        requires
            frames <= capacity,
            capacity == max_size as usize / stride,
            stride > 0,
    ;
    assert(frames * n_channels <= frames * stride) by (nonlinear_arith)
        requires
            stride == size * n_channels,
            size >= 1,
    ;
    let active: usize = frames * stride;
    Some(OutputCycle {
        frames,
        samples: frames * n_channels as usize,
        active_bytes: active,
        chunk_offset: 0,
        chunk_stride: #[verifier::truncate] (stride as i32),
        chunk_size: active as u32,
    })
}

/// The samples and frames a capture cycle hands to the user's callback for a chunk of
/// `chunk_size` bytes of `n_channels` channels in `format`: whole samples, then whole
/// frames of them; `None` while no channel count has been negotiated.
pub fn input_cycle(n_channels: u32, format: SampleFormat, chunk_size: u32) -> (c: Option<(u32, u32)>)
    ensures
        n_channels == 0 <==> c is None,
        c matches Some((samples, frames)) ==> samples == chunk_size / (format.spec_sample_size() as u32)
            && frames == samples / n_channels,
{
    if n_channels == 0 {
        return None;
    }
    let size: u32 = format.sample_size() as u32;
    let samples = chunk_size / size;
    Some((samples, samples / n_channels))
}

} // verus!
