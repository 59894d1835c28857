//! The device layer: recognising the keyboard, clamping effect
//! speeds, encoding each lighting mode into the fixed-length command
//! the device expects, and the USB session that delivers it.

use vstd::prelude::*;
use vstd::string::StringExecFns;

use crate::text::all_hex_digits;
use crate::text::hex_digit_val;
use crate::text::is_hex_digit;
use crate::text::push_char;

verus! {

/// Number of separately colourable keyboard regions.
pub const NUM_REGIONS: u8 = 5;

/// USB vendor id of the keyboard.
pub const LOGITECH: u16 = 0x046d;

/// USB product id of the keyboard.
pub const G213: u16 = 0xc336;

/// Interrupt-in endpoint the acknowledgement is read from.
pub const ENDPOINT: u8 = 0x82;

/// Control transfer request type.
pub const REQ_TYPE: u8 = 0x21;

/// Control transfer request.
pub const REQ: u8 = 0x09;

/// Control transfer value.
pub const VALUE: u16 = 0x0211;

/// Control transfer index, and the interface that is claimed.
pub const INDEX: u16 = 0x0001;

/// Length of every command packet, in bytes.
pub const CMD_LEN: usize = 20;

/// Transfer timeout, in milliseconds.
pub const TIMEOUT_MS: u64 = 50;

/// Shortest breathe / cycle period the keyboard accepts, in
/// milliseconds.
pub const MIN_SPEED: u16 = 32;

/// Clamp a breathe / cycle period to the minimum the keyboard
/// accepts: periods below it are raised to it, everything else
/// passes through unchanged.
pub fn limit_speed(speed: u16) -> (r: u16)
    ensures
        speed < MIN_SPEED ==> r == MIN_SPEED,
        speed >= MIN_SPEED ==> r == speed,
{
    if speed < MIN_SPEED {
        MIN_SPEED
    } else {
        speed
    }
}

/// A keyboard region: the whole keyboard, or one of the five zones.
#[derive(PartialEq, Eq, Structural, Clone, Copy, Debug)]
pub enum KeyboardRegions {
    WholeKeyboard,
    Region1,
    Region2,
    Region3,
    Region4,
    Region5,
}

/// Which region a numeric index selects: 1 to 5 name the zones, and
/// everything else — 0, but also any index above 5 — selects the
/// whole keyboard. Out-of-range indices are deliberately clamped,
/// never rejected.
pub open spec fn spec_region_from_index(value: u8) -> KeyboardRegions {
    if value == 1 {
        KeyboardRegions::Region1
    } else if value == 2 {
        KeyboardRegions::Region2
    } else if value == 3 {
        KeyboardRegions::Region3
    } else if value == 4 {
        KeyboardRegions::Region4
    } else if value == 5 {
        KeyboardRegions::Region5
    } else {
        KeyboardRegions::WholeKeyboard
    }
}

impl KeyboardRegions {
    /// The byte that names this region in a command packet.
    pub open spec fn spec_value(&self) -> u8 {
        match self {
            KeyboardRegions::WholeKeyboard => 0,
            KeyboardRegions::Region1 => 1,
            KeyboardRegions::Region2 => 2,
            KeyboardRegions::Region3 => 3,
            KeyboardRegions::Region4 => 4,
            KeyboardRegions::Region5 => 5,
        }
    }

    /// The byte that names this region in a command packet.
    pub fn value(&self) -> (r: u8)
        ensures
            r == self.spec_value(),
    {
        match self {
            KeyboardRegions::WholeKeyboard => 0,
            KeyboardRegions::Region1 => 1,
            KeyboardRegions::Region2 => 2,
            KeyboardRegions::Region3 => 3,
            KeyboardRegions::Region4 => 4,
            KeyboardRegions::Region5 => 5,
        }
    }
}

impl From<u8> for KeyboardRegions {
    /// Region indices outside 0 to 5 behave exactly like index 0,
    /// the whole keyboard.
    fn from(value: u8) -> (r: Self) {
        match value {
            1 => Self::Region1,
            2 => Self::Region2,
            3 => Self::Region3,
            4 => Self::Region4,
            5 => Self::Region5,
            _ => Self::WholeKeyboard,
        }
    }
}

impl vstd::std_specs::convert::FromSpecImpl<u8> for KeyboardRegions {
    open spec fn obeys_from_spec() -> bool {
        true
    }

    open spec fn from_spec(value: u8) -> KeyboardRegions {
        spec_region_from_index(value)
    }
}

/// An index outside the five regions selects the whole keyboard,
/// exactly as index 0 does: the enforced clamping policy.
pub proof fn lemma_region_index_clamped(value: u8)
    requires
        value == 0 || value > 5,
    ensures
        spec_region_from_index(value) == KeyboardRegions::WholeKeyboard,
        spec_region_from_index(value) == spec_region_from_index(0),
{
}

/// The byte a parsed region index is sent as: indices 1 to 5 name
/// their zone, and every other index is sent as 0, the whole
/// keyboard.
pub proof fn lemma_region_round_trip(value: u8)
    ensures
        spec_region_from_index(value).spec_value() == (if 1 <= value <= 5 {
            value
        } else {
            0
        }),
{
}

/// What a device descriptor must be able to show for the device to
/// be judged; implementations decide what the two identifiers are.
pub trait G213DeviceDescriptor {
    fn vendor_id(&self) -> u16;

    fn product_id(&self) -> u16;
}

/// A plain pair of USB identifiers, as read from a device.
#[derive(PartialEq, Eq, Structural, Clone, Copy, Debug)]
pub struct UsbIds {
    pub vendor: u16,
    pub product: u16,
}

impl G213DeviceDescriptor for UsbIds {
    fn vendor_id(&self) -> (r: u16)
        ensures
            r == self.vendor,
    {
        self.vendor
    }

    fn product_id(&self) -> (r: u16)
        ensures
            r == self.product,
    {
        self.product
    }
}

/// Whether a pair of USB identifiers names the G213 keyboard: the
/// Logitech vendor id together with the G213 product id, both
/// required, and nothing else accepted.
pub fn is_g213_ids(vendor: u16, product: u16) -> (r: bool)
    ensures
        r == (vendor == LOGITECH && product == G213),
{
    vendor == LOGITECH && product == G213
}

/// Whether a descriptor identifies the G213 keyboard: its two
/// identifiers, whatever the implementation answers, judged by
/// [`is_g213_ids`].
pub fn is_g213_keyboard<D: G213DeviceDescriptor + ?Sized>(descriptor: &D) -> bool {
    is_g213_ids(descriptor.vendor_id(), descriptor.product_id())
}

/// The lowercase hex digit for a value below 16.
pub open spec fn spec_hex_digit_char(v: int) -> char {
    if v < 10 {
        ((('0' as u8) + v as u8) as char)
    } else {
        ((('a' as u8) + (v - 10) as u8) as char)
    }
}

/// Two lowercase hex digits for a byte, most significant first.
pub open spec fn spec_hex2(v: u8) -> Seq<char> {
    seq![spec_hex_digit_char(v as int / 16), spec_hex_digit_char(v as int % 16)]
}

/// Four lowercase hex digits for a 16-bit value, big-endian.
pub open spec fn spec_hex4(v: u16) -> Seq<char> {
    spec_hex2((v / 256) as u8) + spec_hex2((v % 256) as u8)
}

/// Six lowercase hex digits for a 24-bit colour, big-endian.
pub open spec fn spec_hex6(v: u32) -> Seq<char> {
    spec_hex2((v / 65536) as u8) + spec_hex2(((v / 256) % 256) as u8) + spec_hex2((v % 256) as u8)
}

proof fn lemma_hex_digit_char_is_hex(v: int)
    requires
        0 <= v < 16,
    ensures
        is_hex_digit(spec_hex_digit_char(v)),
        hex_digit_val(spec_hex_digit_char(v)) == v,
{
}

fn push_hex_digit(s: &mut String, v: u8)
    requires
        v < 16,
    ensures
        final(s)@ == old(s)@.push(spec_hex_digit_char(v as int)),
{
    let c: char = if v < 10 {
        ((48 + v) as char)
    } else {
        ((87 + v) as char)
    };
    push_char(s, c);
}

fn push_hex2(s: &mut String, v: u8)
    ensures
        final(s)@ == old(s)@ + spec_hex2(v),
{
    push_hex_digit(s, v / 16);
    push_hex_digit(s, v % 16);
    proof {
        assert(old(s)@.push(spec_hex_digit_char(v as int / 16)).push(
            spec_hex_digit_char(v as int % 16),
        ) =~= old(s)@ + spec_hex2(v));
    }
}

fn push_hex4(s: &mut String, v: u16)
    ensures
        final(s)@ == old(s)@ + spec_hex4(v),
{
    push_hex2(s, (v / 256) as u8);
    push_hex2(s, (v % 256) as u8);
    proof {
        assert(old(s)@ + spec_hex2((v / 256) as u8) + spec_hex2((v % 256) as u8) =~= old(s)@
            + spec_hex4(v));
    }
}

fn push_hex6(s: &mut String, v: u32)
    requires
        v <= 0xffffff,
    ensures
        final(s)@ == old(s)@ + spec_hex6(v),
{
    push_hex2(s, (v / 65536) as u8);
    push_hex2(s, ((v / 256) % 256) as u8);
    push_hex2(s, (v % 256) as u8);
    proof {
        assert(old(s)@ + spec_hex2((v / 65536) as u8) + spec_hex2(((v / 256) % 256) as u8)
            + spec_hex2((v % 256) as u8) =~= old(s)@ + spec_hex6(v));
    }
}

/// A well-formed command: exactly forty hex digits, two per byte of
/// the twenty-byte packet.
pub open spec fn spec_command_wf(s: Seq<char>) -> bool {
    s.len() == 2 * (CMD_LEN as int) && all_hex_digits(s)
}

/// The bytes a string of hex digit pairs encodes.
pub open spec fn spec_hex_bytes(s: Seq<char>) -> Seq<u8>
    decreases s.len(),
{
    if s.len() < 2 {
        seq![]
    } else {
        seq![(hex_digit_val(s[0]) * 16 + hex_digit_val(s[1])) as u8] + spec_hex_bytes(s.skip(2))
    }
}

proof fn lemma_hex_bytes_len(s: Seq<char>)
    ensures
        spec_hex_bytes(s).len() == s.len() / 2,
    decreases s.len(),
{
    if s.len() >= 2 {
        lemma_hex_bytes_len(s.skip(2));
    }
}

proof fn lemma_hex_bytes_index(s: Seq<char>, k: int)
    requires
        0 <= k,
        2 * k + 1 < s.len(),
    ensures
        spec_hex_bytes(s)[k] == (hex_digit_val(s[2 * k]) * 16 + hex_digit_val(s[2 * k + 1])) as u8,
    decreases k,
{
    assert(spec_hex_bytes(s) == seq![((hex_digit_val(s[0]) * 16 + hex_digit_val(s[1])) as u8)]
        + spec_hex_bytes(s.skip(2)));
    lemma_hex_bytes_len(s.skip(2));
    if k > 0 {
        lemma_hex_bytes_index(s.skip(2), k - 1);
        assert(s.skip(2)[2 * (k - 1)] == s[2 * k]);
        assert(s.skip(2)[2 * (k - 1) + 1] == s[2 * k + 1]);
        assert(spec_hex_bytes(s)[k] == spec_hex_bytes(s.skip(2))[k - 1]);
    }
}

/// The command for a solid colour: report id `11 ff`, sub-command
/// `0c`, group `3a`, the region byte, effect `01`, three colour
/// bytes, then the fixed `02` trailer, zero-padded to twenty bytes.
pub open spec fn spec_colour_command(region: u8, colour: u32) -> Seq<char> {
    "11ff0c3a"@ + spec_hex2(region) + "01"@ + spec_hex6(colour) + "0200000000000000000000"@
}

/// The command for breathe mode: the fixed `00 02` region bytes,
/// three colour bytes, the two-byte speed, and the fixed trailer.
pub open spec fn spec_breathe_command(speed: u16, colour: u32) -> Seq<char> {
    "11ff0c3a0002"@ + spec_hex6(colour) + spec_hex4(speed) + "006400000000000000"@
}

/// The command for cycle mode: fixed `ff ff ff` colour field, a
/// two-byte zero field, the two-byte speed, and the fixed trailer.
pub open spec fn spec_cycle_command(speed: u16) -> Seq<char> {
    "11ff0c3a0003ffffff0000"@ + spec_hex4(speed) + "64000000000000"@
}

/// The solid-colour command decodes to exactly the twenty-byte
/// packet of the protocol: `11 ff 0c 3a`, the region byte, the
/// effect byte `01`, the three colour bytes big-endian, `02`, and
/// ten zero bytes.
pub proof fn lemma_colour_command_bytes(region: u8, colour: u32)
    requires
        colour <= 0xffffff,
    ensures
        spec_hex_bytes(spec_colour_command(region, colour)) == seq![
            0x11u8,
            0xffu8,
            0x0cu8,
            0x3au8,
            region,
            0x01u8,
            ((colour / 65536) as u8),
            (((colour / 256) % 256) as u8),
            ((colour % 256) as u8),
            0x02u8,
            0u8,
            0u8,
            0u8,
            0u8,
            0u8,
            0u8,
            0u8,
            0u8,
            0u8,
            0u8,
        ],
{
    reveal_strlit("11ff0c3a");
    reveal_strlit("01");
    reveal_strlit("0200000000000000000000");
    let s = spec_colour_command(region, colour);
    assert(s.len() == 40);
    lemma_hex_bytes_len(s);
    lemma_hex_digit_char_is_hex(region as int / 16);
    lemma_hex_digit_char_is_hex(region as int % 16);
    let b1 = (colour / 65536) as u8;
    let b2 = ((colour / 256) % 256) as u8;
    let b3 = (colour % 256) as u8;
    lemma_hex_digit_char_is_hex(b1 as int / 16);
    lemma_hex_digit_char_is_hex(b1 as int % 16);
    lemma_hex_digit_char_is_hex(b2 as int / 16);
    lemma_hex_digit_char_is_hex(b2 as int % 16);
    lemma_hex_digit_char_is_hex(b3 as int / 16);
    lemma_hex_digit_char_is_hex(b3 as int % 16);
    let expected = seq![
        0x11u8,
        0xffu8,
        0x0cu8,
        0x3au8,
        region,
        0x01u8,
        b1,
        b2,
        b3,
        0x02u8,
        0u8,
        0u8,
        0u8,
        0u8,
        0u8,
        0u8,
        0u8,
        0u8,
        0u8,
        0u8,
    ];
    assert forall|k: int| 0 <= k < 20 implies spec_hex_bytes(s)[k] == expected[k] by {
        lemma_hex_bytes_index(s, k);
    }
    assert(spec_hex_bytes(s) =~= expected);
}

/// The breathe command decodes to exactly the twenty-byte packet of
/// the protocol: `11 ff 0c 3a 00 02`, the three colour bytes
/// big-endian, the two-byte speed big-endian, `00 64`, and eight
/// zero bytes.
pub proof fn lemma_breathe_command_bytes(speed: u16, colour: u32)
    requires
        colour <= 0xffffff,
    ensures
        spec_hex_bytes(spec_breathe_command(speed, colour)) == seq![
            0x11u8,
            0xffu8,
            0x0cu8,
            0x3au8,
            0x00u8,
            0x02u8,
            ((colour / 65536) as u8),
            (((colour / 256) % 256) as u8),
            ((colour % 256) as u8),
            ((speed / 256) as u8),
            ((speed % 256) as u8),
            0x00u8,
            0x64u8,
            0u8,
            0u8,
            0u8,
            0u8,
            0u8,
            0u8,
            0u8,
        ],
{
    reveal_strlit("11ff0c3a0002");
    reveal_strlit("006400000000000000");
    let s = spec_breathe_command(speed, colour);
    assert(s.len() == 40);
    lemma_hex_bytes_len(s);
    let b1 = (colour / 65536) as u8;
    let b2 = ((colour / 256) % 256) as u8;
    let b3 = (colour % 256) as u8;
    let s1 = (speed / 256) as u8;
    let s2 = (speed % 256) as u8;
    lemma_hex_digit_char_is_hex(b1 as int / 16);
    lemma_hex_digit_char_is_hex(b1 as int % 16);
    lemma_hex_digit_char_is_hex(b2 as int / 16);
    lemma_hex_digit_char_is_hex(b2 as int % 16);
    lemma_hex_digit_char_is_hex(b3 as int / 16);
    lemma_hex_digit_char_is_hex(b3 as int % 16);
    lemma_hex_digit_char_is_hex(s1 as int / 16);
    lemma_hex_digit_char_is_hex(s1 as int % 16);
    lemma_hex_digit_char_is_hex(s2 as int / 16);
    lemma_hex_digit_char_is_hex(s2 as int % 16);
    let expected = seq![
        0x11u8,
        0xffu8,
        0x0cu8,
        0x3au8,
        0x00u8,
        0x02u8,
        b1,
        b2,
        b3,
        s1,
        s2,
        0x00u8,
        0x64u8,
        0u8,
        0u8,
        0u8,
        0u8,
        0u8,
        0u8,
        0u8,
    ];
    assert forall|k: int| 0 <= k < 20 implies spec_hex_bytes(s)[k] == expected[k] by {
        lemma_hex_bytes_index(s, k);
    }
    assert(spec_hex_bytes(s) =~= expected);
}

/// The cycle command decodes to exactly the twenty-byte packet of
/// the protocol: `11 ff 0c 3a 00 03 ff ff ff 00 00`, the two-byte
/// speed big-endian, `64`, and seven zero bytes.
pub proof fn lemma_cycle_command_bytes(speed: u16)
    ensures
        spec_hex_bytes(spec_cycle_command(speed)) == seq![
            0x11u8,
            0xffu8,
            0x0cu8,
            0x3au8,
            0x00u8,
            0x03u8,
            0xffu8,
            0xffu8,
            0xffu8,
            0x00u8,
            0x00u8,
            ((speed / 256) as u8),
            ((speed % 256) as u8),
            0x64u8,
            0u8,
            0u8,
            0u8,
            0u8,
            0u8,
            0u8,
        ],
{
    reveal_strlit("11ff0c3a0003ffffff0000");
    reveal_strlit("64000000000000");
    let s = spec_cycle_command(speed);
    assert(s.len() == 40);
    lemma_hex_bytes_len(s);
    let s1 = (speed / 256) as u8;
    let s2 = (speed % 256) as u8;
    lemma_hex_digit_char_is_hex(s1 as int / 16);
    lemma_hex_digit_char_is_hex(s1 as int % 16);
    lemma_hex_digit_char_is_hex(s2 as int / 16);
    lemma_hex_digit_char_is_hex(s2 as int % 16);
    let expected = seq![
        0x11u8,
        0xffu8,
        0x0cu8,
        0x3au8,
        0x00u8,
        0x03u8,
        0xffu8,
        0xffu8,
        0xffu8,
        0x00u8,
        0x00u8,
        s1,
        s2,
        0x64u8,
        0u8,
        0u8,
        0u8,
        0u8,
        0u8,
        0u8,
    ];
    assert forall|k: int| 0 <= k < 20 implies spec_hex_bytes(s)[k] == expected[k] by {
        lemma_hex_bytes_index(s, k);
    }
    assert(spec_hex_bytes(s) =~= expected);
}

/// Build the solid-colour command for one region.
pub fn colour_command(region: u8, colour: u32) -> (r: String)
    requires
        colour <= 0xffffff,
    ensures
        r@ == spec_colour_command(region, colour),
        spec_command_wf(r@),
{
    proof {
        reveal_strlit("11ff0c3a");
        reveal_strlit("01");
        reveal_strlit("0200000000000000000000");
    }
    let mut s = String::from_str("11ff0c3a");
    push_hex2(&mut s, region);
    s.append("01");
    push_hex6(&mut s, colour);
    s.append("0200000000000000000000");
    proof {
        lemma_command_hexness(region, colour);
    }
    s
}

proof fn lemma_hex2_is_hex(v: u8)
    ensures
        spec_hex2(v).len() == 2,
        all_hex_digits(spec_hex2(v)),
{
    lemma_hex_digit_char_is_hex(v as int / 16);
    lemma_hex_digit_char_is_hex(v as int % 16);
    assert forall|i: int| 0 <= i < 2 implies is_hex_digit(#[trigger] spec_hex2(v)[i]) by {
        if i == 0 {
        } else {
        }
    }
}

proof fn lemma_command_hexness(region: u8, colour: u32)
    ensures
        spec_command_wf(spec_colour_command(region, colour)),
{
    reveal_strlit("11ff0c3a");
    reveal_strlit("01");
    reveal_strlit("0200000000000000000000");
    lemma_hex2_is_hex(region);
    lemma_hex2_is_hex((colour / 65536) as u8);
    lemma_hex2_is_hex(((colour / 256) % 256) as u8);
    lemma_hex2_is_hex((colour % 256) as u8);
    let s = spec_colour_command(region, colour);
    assert(s.len() == 40);
    assert forall|i: int| 0 <= i < s.len() implies is_hex_digit(#[trigger] s[i]) by {
        lemma_literal_hex_8(i);
        lemma_literal_hex_22(i);
    }
}

/// Every character of the fixed head literal is a hex digit.
proof fn lemma_literal_hex_8(i: int)
    ensures
        0 <= i < 8 ==> is_hex_digit("11ff0c3a"@[i]),
        0 <= i < 2 ==> is_hex_digit("01"@[i]),
{
    reveal_strlit("11ff0c3a");
    reveal_strlit("01");
}

/// Every character of the fixed trailer literal is a hex digit.
proof fn lemma_literal_hex_22(i: int)
    ensures
        0 <= i < 22 ==> is_hex_digit("0200000000000000000000"@[i]),
{
    reveal_strlit("0200000000000000000000");
}

/// Build the breathe-mode command.
pub fn breathe_command(speed: u16, colour: u32) -> (r: String)
    requires
        colour <= 0xffffff,
    ensures
        r@ == spec_breathe_command(speed, colour),
        spec_command_wf(r@),
{
    proof {
        reveal_strlit("11ff0c3a0002");
        reveal_strlit("006400000000000000");
    }
    let mut s = String::from_str("11ff0c3a0002");
    push_hex6(&mut s, colour);
    push_hex4(&mut s, speed);
    s.append("006400000000000000");
    proof {
        lemma_breathe_hexness(speed, colour);
    }
    s
}

proof fn lemma_breathe_hexness(speed: u16, colour: u32)
    ensures
        spec_command_wf(spec_breathe_command(speed, colour)),
{
    reveal_strlit("11ff0c3a0002");
    reveal_strlit("006400000000000000");
    lemma_hex2_is_hex((colour / 65536) as u8);
    lemma_hex2_is_hex(((colour / 256) % 256) as u8);
    lemma_hex2_is_hex((colour % 256) as u8);
    lemma_hex2_is_hex((speed / 256) as u8);
    lemma_hex2_is_hex((speed % 256) as u8);
    let s = spec_breathe_command(speed, colour);
    assert(s.len() == 40);
    assert forall|i: int| 0 <= i < s.len() implies is_hex_digit(#[trigger] s[i]) by {
        lemma_literal_hex_breathe(i);
    }
}

/// Every character of the breathe command's fixed literals is a hex
/// digit.
proof fn lemma_literal_hex_breathe(i: int)
    ensures
        0 <= i < 12 ==> is_hex_digit("11ff0c3a0002"@[i]),
        0 <= i < 18 ==> is_hex_digit("006400000000000000"@[i]),
{
    reveal_strlit("11ff0c3a0002");
    reveal_strlit("006400000000000000");
}

/// Build the cycle-mode command.
pub fn cycle_command(speed: u16) -> (r: String)
    ensures
        r@ == spec_cycle_command(speed),
        spec_command_wf(r@),
{
    proof {
        reveal_strlit("11ff0c3a0003ffffff0000");
        reveal_strlit("64000000000000");
    }
    let mut s = String::from_str("11ff0c3a0003ffffff0000");
    push_hex4(&mut s, speed);
    s.append("64000000000000");
    proof {
        lemma_cycle_hexness(speed);
    }
    s
}

proof fn lemma_cycle_hexness(speed: u16)
    ensures
        spec_command_wf(spec_cycle_command(speed)),
{
    reveal_strlit("11ff0c3a0003ffffff0000");
    reveal_strlit("64000000000000");
    lemma_hex2_is_hex((speed / 256) as u8);
    lemma_hex2_is_hex((speed % 256) as u8);
    let s = spec_cycle_command(speed);
    assert(s.len() == 40);
    assert forall|i: int| 0 <= i < s.len() implies is_hex_digit(#[trigger] s[i]) by {
        lemma_literal_hex_cycle(i);
    }
}

/// Every character of the cycle command's fixed literals is a hex
/// digit.
proof fn lemma_literal_hex_cycle(i: int)
    ensures
        0 <= i < 22 ==> is_hex_digit("11ff0c3a0003ffffff0000"@[i]),
        0 <= i < 14 ==> is_hex_digit("64000000000000"@[i]),
{
    reveal_strlit("11ff0c3a0003ffffff0000");
    reveal_strlit("64000000000000");
}

/// One lighting operation, fully resolved: what the device is asked
/// to show.
pub enum LightingCommand {
    SetWholeKeyboard(u32),
    SetRegion(u8, u32),
    SetAllRegions(Vec<u32>),
    Breathe(u16, u32),
    Cycle(u16),
}

impl LightingCommand {
    /// Colours fit in 24 bits, and a region list names one colour
    /// per region.
    pub open spec fn wf(&self) -> bool {
        match self {
            LightingCommand::SetWholeKeyboard(c) => c <= 0xffffff,
            LightingCommand::SetRegion(_r, c) => c <= 0xffffff,
            LightingCommand::SetAllRegions(cols) => cols@.len() == NUM_REGIONS as nat && (forall|
                i: int,
            |
                0 <= i < cols@.len() ==> cols@[i] <= 0xffffff),
            LightingCommand::Breathe(_s, c) => c <= 0xffffff,
            LightingCommand::Cycle(_s) => true,
        }
    }
}

/// Declares rusb::DeviceDescriptor, the descriptor read from a USB
/// device, as an opaque outside type.
#[verifier::external_type_specification]
#[verifier::external_body]
pub struct ExDeviceDescriptor(rusb::DeviceDescriptor);

/// Declares rusb::Error, the error every USB call can report, as an
/// opaque outside type.
#[verifier::external_type_specification]
#[verifier::external_body]
pub struct ExRusbError(rusb::Error);

/// Declares hex::FromHexError, what hex decoding reports when its
/// input is not clean pairs of hex digits, as an opaque outside type.
#[verifier::external_type_specification]
#[verifier::external_body]
pub struct ExFromHexError(hex::FromHexError);

/// The keyboard as a USB device. The underlying rusb device is
/// opaque to verification and is carried through whole.
#[verifier::external_body]
pub struct UsbDevice {
    pub device: rusb::Device<rusb::GlobalContext>,
}

/// An open handle on the keyboard's USB device, opaque to
/// verification.
#[verifier::external_body]
struct UsbHandle {
    handle: rusb::DeviceHandle<rusb::GlobalContext>,
}

/// The errors this layer reports: the device is absent, taking or
/// restoring the interface failed, or a transfer failed or timed
/// out.
#[derive(Debug)]
pub enum G213Error {
    DeviceNotFound,
    DriverControl(rusb::Error),
    Transfer(rusb::Error),
}

/// Relies on rusb::devices: the connected USB devices, collected
/// into a vector.
#[verifier::external_body]
fn usb_devices() -> Result<Vec<UsbDevice>, rusb::Error> {
    match rusb::devices() {
        Ok(list) => Ok(list.iter().map(|d| UsbDevice { device: d }).collect()),
        Err(e) => Err(e),
    }
}

/// Relies on rusb::Device::device_descriptor: the device's
/// descriptor, read from the bus.
#[verifier::external_body]
fn device_descriptor_of(device: &UsbDevice) -> Result<rusb::DeviceDescriptor, rusb::Error> {
    device.device.device_descriptor()
}

/// Relies on rusb::DeviceDescriptor::vendor_id: the vendor
/// identifier in the descriptor.
#[verifier::external_body]
fn descriptor_vendor_id(descriptor: &rusb::DeviceDescriptor) -> u16 {
    descriptor.vendor_id()
}

/// Relies on rusb::DeviceDescriptor::product_id: the product
/// identifier in the descriptor.
#[verifier::external_body]
fn descriptor_product_id(descriptor: &rusb::DeviceDescriptor) -> u16 {
    descriptor.product_id()
}

/// Find the G213 keyboard: the first connected device whose
/// descriptor shows the Logitech vendor id and the G213 product id;
/// none when no device matches or the bus cannot be read.
pub fn find_g213_keyboard() -> Option<UsbDevice> {
    let mut devices = match usb_devices() {
        Ok(v) => v,
        Err(_) => {
            return None;
        },
    };
    let mut i: usize = 0;
    while i < devices.len()
        decreases devices@.len() - i,
    {
        let matched = match device_descriptor_of(&devices[i]) {
            Ok(descriptor) => {
                let ids = UsbIds {
                    vendor: descriptor_vendor_id(&descriptor),
                    product: descriptor_product_id(&descriptor),
                };
                is_g213_keyboard(&ids)
            },
            Err(_) => false,
        };
        if matched {
            return Some(devices.remove(i));
        }
        i = i + 1;
    }
    None
}

/// Relies on rusb::Device::open: a handle on the device.
#[verifier::external_body]
fn open_device(device: &UsbDevice) -> Result<UsbHandle, rusb::Error> {
    match device.device.open() {
        Ok(handle) => Ok(UsbHandle { handle }),
        Err(e) => Err(e),
    }
}

/// Relies on rusb::DeviceHandle::kernel_driver_active: whether a
/// kernel driver is bound to the interface.
#[verifier::external_body]
fn kernel_driver_active(handle: &UsbHandle, iface: u8) -> Result<bool, rusb::Error> {
    handle.handle.kernel_driver_active(iface)
}

/// Relies on rusb::DeviceHandle::detach_kernel_driver.
#[verifier::external_body]
fn detach_kernel_driver(handle: &UsbHandle, iface: u8) -> Result<(), rusb::Error> {
    handle.handle.detach_kernel_driver(iface)
}

/// Relies on rusb::DeviceHandle::attach_kernel_driver.
#[verifier::external_body]
fn attach_kernel_driver(handle: &UsbHandle, iface: u8) -> Result<(), rusb::Error> {
    handle.handle.attach_kernel_driver(iface)
}

/// Relies on rusb::DeviceHandle::claim_interface.
#[verifier::external_body]
fn claim_interface(handle: &UsbHandle, iface: u8) -> Result<(), rusb::Error> {
    handle.handle.claim_interface(iface)
}

/// Relies on rusb::DeviceHandle::release_interface.
#[verifier::external_body]
fn release_interface(handle: &UsbHandle, iface: u8) -> Result<(), rusb::Error> {
    handle.handle.release_interface(iface)
}

/// Relies on rusb::DeviceHandle::write_control: on success, the
/// returned count of written bytes is at most the buffer's length.
#[verifier::external_body]
fn usb_write_control(
    handle: &UsbHandle,
    request_type: u8,
    request: u8,
    value: u16,
    index: u16,
    buf: &[u8],
    timeout_ms: u64,
) -> (r: Result<usize, rusb::Error>)
    ensures
        r matches Ok(n) ==> n <= buf@.len(),
{
    handle.handle.write_control(
        request_type,
        request,
        value,
        index,
        buf,
        core::time::Duration::from_millis(timeout_ms),
    )
}

/// Relies on rusb::DeviceHandle::read_interrupt: bytes are read
/// into the buffer in place, its length stays unchanged, and on
/// success the returned count is at most that length.
#[verifier::external_body]
fn usb_read_interrupt(
    handle: &UsbHandle,
    endpoint: u8,
    buf: &mut Vec<u8>,
    timeout_ms: u64,
) -> (r: Result<usize, rusb::Error>)
    ensures
        final(buf)@.len() == old(buf)@.len(),
        r matches Ok(n) ==> n <= old(buf)@.len(),
{
    handle.handle.read_interrupt(
        endpoint,
        buf.as_mut_slice(),
        core::time::Duration::from_millis(timeout_ms),
    )
}

/// Relies on hex::decode_to_slice: decoding succeeds exactly when
/// the input length is twice the output length and every character
/// is a hex digit; each digit pair then becomes one output byte,
/// and the output keeps its length in every case.
#[verifier::external_body]
fn hex_decode_into(command: &str, out: &mut Vec<u8>) -> (r: Result<(), hex::FromHexError>)
    ensures
        final(out)@.len() == old(out)@.len(),
        r is Ok <==> (command@.len() == 2 * old(out)@.len() && all_hex_digits(command@)),
        r is Ok ==> final(out)@ == spec_hex_bytes(command@),
{
    hex::decode_to_slice(command, out.as_mut_slice())
}

/// Exclusive, scoped ownership of the keyboard's USB interface for
/// the duration of one command: the handle is open, the interface
/// claimed, and whether a kernel driver had to be detached is
/// remembered so that `finish` can restore it.
pub struct DeviceSession {
    handle: UsbHandle,
    driver_was_detached: bool,
}

impl DeviceSession {
    /// Open the device; if a kernel driver is bound to the
    /// interface, detach it and remember that; then claim the
    /// interface. Any failure is reported as a driver-control error,
    /// after reattaching a driver that was already detached.
    pub fn begin(device: &UsbDevice) -> Result<DeviceSession, G213Error> {
        let handle = match open_device(device) {
            Ok(h) => h,
            Err(e) => {
                return Err(G213Error::DriverControl(e));
            },
        };
        let active = match kernel_driver_active(&handle, INDEX as u8) {
            Ok(b) => b,
            Err(e) => {
                return Err(G213Error::DriverControl(e));
            },
        };
        let mut detached = false;
        if active {
            match detach_kernel_driver(&handle, INDEX as u8) {
                Ok(()) => {
                    detached = true;
                },
                Err(e) => {
                    return Err(G213Error::DriverControl(e));
                },
            }
        }
        match claim_interface(&handle, INDEX as u8) {
            Ok(()) => Ok(DeviceSession { handle, driver_was_detached: detached }),
            Err(e) => {
                if detached {
                    let _ = attach_kernel_driver(&handle, INDEX as u8);
                }
                Err(G213Error::DriverControl(e))
            },
        }
    }

    /// Send one well-formed forty-hex-digit command: decode it into
    /// the twenty-byte packet, write it as a control transfer, and
    /// read the device's interrupt acknowledgement, whose payload is
    /// discarded. A failed or timed-out transfer is reported as a
    /// transfer error.
    pub fn send_command(&self, command: &str) -> (r: Result<usize, G213Error>)
        requires
            spec_command_wf(command@),
        ensures
            r matches Ok(n) ==> n <= CMD_LEN,
    {
        let mut bytes: Vec<u8> = Vec::new();
        let mut k: usize = 0;
        while k < CMD_LEN
            invariant
                0 <= k <= CMD_LEN,
                bytes@.len() == k,
            decreases CMD_LEN - k,
        {
            bytes.push(0);
            k = k + 1;
        }
        match hex_decode_into(command, &mut bytes) {
            Ok(()) => {},
            Err(_) => {
                proof {
                    assert(false);
                }
            },
        }
        match usb_write_control(
            &self.handle,
            REQ_TYPE,
            REQ,
            VALUE,
            INDEX,
            bytes.as_slice(),
            TIMEOUT_MS,
        ) {
            Ok(_written) => {},
            Err(e) => {
                return Err(G213Error::Transfer(e));
            },
        }
        match usb_read_interrupt(&self.handle, ENDPOINT, &mut bytes, TIMEOUT_MS) {
            Ok(n) => Ok(n),
            Err(e) => Err(G213Error::Transfer(e)),
        }
    }

    /// Release the interface, then reattach the kernel driver
    /// exactly when it had been detached by `begin` — whatever
    /// happened in between, so the device is never left without its
    /// driver.
    pub fn finish(self) -> Result<(), G213Error> {
        let released = release_interface(&self.handle, INDEX as u8);
        let attached = if self.driver_was_detached {
            attach_kernel_driver(&self.handle, INDEX as u8)
        } else {
            Ok(())
        };
        match released {
            Err(e) => Err(G213Error::DriverControl(e)),
            Ok(()) => match attached {
                Err(e) => Err(G213Error::DriverControl(e)),
                Ok(()) => Ok(()),
            },
        }
    }
}

/// Send the packets one lighting command calls for: one packet for
/// most modes, one per region for a region list, stopping at the
/// first failure.
fn send_lighting_packets(session: &DeviceSession, command: &LightingCommand) -> Result<
    (),
    G213Error,
>
    requires
        command.wf(),
{
    match command {
        LightingCommand::SetWholeKeyboard(colour) => {
            let cmd = colour_command(0, *colour);
            match session.send_command(cmd.as_str()) {
                Ok(_) => Ok(()),
                Err(e) => Err(e),
            }
        },
        LightingCommand::SetRegion(region, colour) => {
            let cmd = colour_command(*region, *colour);
            match session.send_command(cmd.as_str()) {
                Ok(_) => Ok(()),
                Err(e) => Err(e),
            }
        },
        LightingCommand::SetAllRegions(cols) => {
            let mut i: usize = 0;
            while i < cols.len()
                invariant
                    cols@.len() == NUM_REGIONS as nat,
                    forall|k: int| 0 <= k < cols@.len() ==> cols@[k] <= 0xffffff,
                    0 <= i <= cols@.len(),
                decreases cols@.len() - i,
            {
                let cmd = colour_command((i + 1) as u8, cols[i]);
                match session.send_command(cmd.as_str()) {
                    Ok(_) => {},
                    Err(e) => {
                        return Err(e);
                    },
                }
                i = i + 1;
            }
            Ok(())
        },
        LightingCommand::Breathe(speed, colour) => {
            let cmd = breathe_command(*speed, *colour);
            match session.send_command(cmd.as_str()) {
                Ok(_) => Ok(()),
                Err(e) => Err(e),
            }
        },
        LightingCommand::Cycle(speed) => {
            let cmd = cycle_command(*speed);
            match session.send_command(cmd.as_str()) {
                Ok(_) => Ok(()),
                Err(e) => Err(e),
            }
        },
    }
}

/// Run one lighting command against the keyboard: take exclusive
/// control of the interface, send the packets, and release the
/// interface and restore the kernel driver on every path, also when
/// a transfer failed.
pub fn run_lighting_command(device: &UsbDevice, command: &LightingCommand) -> Result<(), G213Error>
    requires
        command.wf(),
{
    let session = match DeviceSession::begin(device) {
        Ok(s) => s,
        Err(e) => {
            return Err(e);
        },
    };
    let sent = send_lighting_packets(&session, command);
    let finished = session.finish();
    match sent {
        Err(e) => Err(e),
        Ok(()) => finished,
    }
}

/// Set the whole keyboard to one colour, masked to 24 bits.
pub fn set_keyboard_colour(device: &UsbDevice, colour: u32) -> Result<
    (),
    G213Error,
> {
    proof {
        assert(colour & 0xffffff <= 0xffffff) by (bit_vector);
    }
    run_lighting_command(device, &LightingCommand::SetWholeKeyboard(colour & 0xffffff))
}

/// Set one region — by its raw region byte — to one colour, masked
/// to 24 bits.
pub fn set_region_colour(device: &UsbDevice, region: u8, colour: u32) -> Result<(), G213Error> {
    proof {
        assert(colour & 0xffffff <= 0xffffff) by (bit_vector);
    }
    run_lighting_command(device, &LightingCommand::SetRegion(region, colour & 0xffffff))
}

/// Set breathe mode: one colour, masked to 24 bits, pulsing with
/// the given period.
pub fn set_breathe(device: &UsbDevice, speed: u16, colour: u32) -> Result<(), G213Error> {
    proof {
        assert(colour & 0xffffff <= 0xffffff) by (bit_vector);
    }
    run_lighting_command(device, &LightingCommand::Breathe(speed, colour & 0xffffff))
}

/// Set cycle mode, sweeping through colours with the given period.
pub fn set_cycle(device: &UsbDevice, speed: u16) -> Result<
    (),
    G213Error,
> {
    run_lighting_command(device, &LightingCommand::Cycle(speed))
}

} // verus!
