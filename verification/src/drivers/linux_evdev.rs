//! The Linux input-subsystem backend: candidate-node validation, capability
//! classification, raw record parsing and decoding, the fixed-capacity
//! device registry, and the round-robin polling policy.
//!
//! Every constant below is part of the kernel's input ABI: event record
//! types, event codes, and the device-number range of input event nodes.

use vstd::prelude::*;

verus! {

/// Event record type: key or button state change.
pub const EV_KEY: u16 = 1;
/// Event record type: relative axis motion.
pub const EV_REL: u16 = 2;
/// Event record type: absolute axis motion.
pub const EV_ABS: u16 = 3;

/// Relative axis code: horizontal motion.
pub const REL_X: u16 = 0;
/// Relative axis code: vertical motion.
pub const REL_Y: u16 = 1;
/// Relative axis code: horizontal scroll wheel.
pub const REL_HWHEEL: u16 = 6;
/// Relative axis code: rotating dial, reported as horizontal motion.
pub const REL_DIAL: u16 = 7;
/// Relative axis code: vertical scroll wheel.
pub const REL_WHEEL: u16 = 8;

/// Absolute axis code: horizontal position.
pub const ABS_X: u16 = 0;
/// Absolute axis code: vertical position.
pub const ABS_Y: u16 = 1;

/// First code of the miscellaneous button block.
pub const BTN_MISC: u16 = 0x100;
/// First code of the primary mouse-button block; equal to the left button.
pub const BTN_MOUSE: u16 = 0x110;
/// Left mouse button, the first code of the primary block.
pub const BTN_LEFT: u16 = 0x110;
/// Back mouse button, the last primary button code decoded here.
pub const BTN_BACK: u16 = 0x116;
/// Touch contact, reported by touchpads, touchscreens and tablets.
pub const BTN_TOUCH: u16 = 0x14a;
/// First stylus button of a tablet pen.
pub const BTN_STYLUS: u16 = 0x14b;
/// Second stylus button of a tablet pen.
pub const BTN_STYLUS2: u16 = 0x14c;

/// Byte length of a key-capability bitmap covering every key code.
pub const KEYCAPS_LEN: usize = 96;
/// Byte length of a relative-axis capability bitmap.
pub const RELCAPS_LEN: usize = 2;
/// Byte length of an absolute-axis capability bitmap.
pub const ABSCAPS_LEN: usize = 8;

/// Number of bytes in one raw kernel event record: two pointer-sized
/// timestamp words, then a 16-bit type, a 16-bit code and a 32-bit value.
pub const RECORD_LEN: usize = 24;

/// The coarse kind of an abstracted event.
#[derive(Clone, Debug, Copy, PartialEq, Eq, Structural)]
pub enum ManyMouseEventType {
    Absmotion,
    Relmotion,
    Button,
    Scroll,
    _Disconnect,
    _Max,
}

/// One decoded event, before conversion to the facade shape: the kind, the
/// registered device that produced it, which axis or button (`item`), the
/// reported value, and the axis bounds where the axis has any.
#[derive(Clone, Debug, PartialEq, Eq, Structural)]
pub struct ManyMouseEvent {
    pub event_type: ManyMouseEventType,
    pub device: usize,
    pub item: u16,
    pub value: i32,
    pub minval: Option<i32>,
    pub maxval: Option<i32>,
}

/// The three fields of a raw kernel event record that decoding reads,
/// parsed out of the fixed binary layout by [`parse_record`].
#[derive(Clone, Debug, Copy, PartialEq, Eq, Structural)]
pub struct InputRecord {
    pub event_type: u16,
    pub code: u16,
    pub value: i32,
}

/// The masked-out bit of `bits` in a capability bitmap, nonzero when set.
pub open spec fn spec_test_bit(bits: Seq<u8>, bit: u16) -> u8 {
    bits[bit as int / 8] & (1u8 << ((bit % 8) as u8))
}

/// Whether a capability bitmap reports the given code as supported.
pub open spec fn bit_is_set(bits: Seq<u8>, bit: u16) -> bool {
    spec_test_bit(bits, bit) != 0
}

/// The masked-out bit of a capability bitmap, as the kernel reports them:
/// bit `n` of the map lives in byte `n / 8` at position `n % 8`.
pub fn test_bit(array: &Vec<u8>, bit: u16) -> (r: u8)
    requires
        bit as int / 8 < array@.len(),
    ensures
        r == spec_test_bit(array@, bit),
{
    let byte: u8 = array[(bit / 8) as usize];
    let shift: u8 = (bit % 8) as u8;
    assert(shift < 8) by {
        assert(bit % 8 < 8) by (bit_vector);
    };
    byte & (1u8 << shift)
}

/// The unsigned number held little-endian in two bytes.
pub open spec fn spec_le16(b0: u8, b1: u8) -> u16 {
    (b0 + b1 * 256) as u16
}

/// The signed number held little-endian, two's-complement, in four bytes.
pub open spec fn spec_le32_signed(b0: u8, b1: u8, b2: u8, b3: u8) -> i32 {
    let n = b0 + b1 * 256 + b2 * 65536 + b3 * 16777216;
    if n < 0x8000_0000 {
        n as i32
    } else {
        (n - 0x1_0000_0000) as i32
    }
}

/// The fields decoding reads, at their offsets within a raw record: the
/// event type at byte 16, the code at 18, the signed value at 20, each
/// little-endian. The leading 16 bytes are the record's timestamp, which
/// decoding ignores.
pub open spec fn spec_parse_record(buf: Seq<u8>) -> InputRecord {
    InputRecord {
        event_type: spec_le16(buf[16], buf[17]),
        code: spec_le16(buf[18], buf[19]),
        value: spec_le32_signed(buf[20], buf[21], buf[22], buf[23]),
    }
}

/// Field-by-field parse of one raw kernel event record, replacing any
/// whole-struct reinterpretation of the buffer with explicit offsets.
pub fn parse_record(buf: &Vec<u8>) -> (r: InputRecord)
    requires
        buf@.len() == RECORD_LEN,
    ensures
        r == spec_parse_record(buf@),
{
    let ty: u16 = buf[16] as u16 + buf[17] as u16 * 256;
    let code: u16 = buf[18] as u16 + buf[19] as u16 * 256;
    let n: u32 = buf[20] as u32 + buf[21] as u32 * 256 + buf[22] as u32 * 65536
        + buf[23] as u32 * 16777216;
    let value: i32 = if n <= 0x7fff_ffff {
        n as i32
    } else {
        let w: u32 = u32::MAX - n;
        -(w as i32) - 1
    };
    InputRecord { event_type: ty, code, value }
}

/// How the capability probe classified a device.
#[derive(Clone, Copy, Debug, PartialEq, Eq, Structural)]
pub enum MouseClass {
    /// Not a mouse-class pointer: the device is rejected.
    NotMouse,
    /// A relative pointer: mouse motion as signed deltas.
    RelativeMouse,
    /// An absolute pointer: touchpad, touchscreen or tablet, with
    /// queryable axis bounds.
    AbsolutePointer,
}

/// A relative mouse: both relative axes and the generic mouse button.
pub open spec fn spec_relative_mouse(keycaps: Seq<u8>, relcaps: Seq<u8>) -> bool {
    bit_is_set(relcaps, REL_X) && bit_is_set(relcaps, REL_Y) && bit_is_set(keycaps, BTN_MOUSE)
}

/// An absolute pointer: both absolute axes and the touch contact code.
pub open spec fn spec_absolute_pointer(keycaps: Seq<u8>, abscaps: Seq<u8>) -> bool {
    bit_is_set(abscaps, ABS_X) && bit_is_set(abscaps, ABS_Y) && bit_is_set(keycaps, BTN_TOUCH)
}

/// The classification rule, first match winning: a relative mouse, else an
/// absolute pointer, else not a mouse. A capability query that failed is
/// `None` and its rule cannot match; the mandatory key-capability query has
/// already succeeded by the time classification runs.
pub open spec fn spec_classify(
    keycaps: Seq<u8>,
    relcaps: Option<Seq<u8>>,
    abscaps: Option<Seq<u8>>,
) -> MouseClass {
    if relcaps matches Some(rel) && spec_relative_mouse(keycaps, rel) {
        MouseClass::RelativeMouse
    } else if abscaps matches Some(ab) && spec_absolute_pointer(keycaps, ab) {
        MouseClass::AbsolutePointer
    } else {
        MouseClass::NotMouse
    }
}

/// The view of an optional capability bitmap: the bytes where the query
/// succeeded, nothing where it failed.
pub open spec fn caps_view(caps: Option<&Vec<u8>>) -> Option<Seq<u8>> {
    match caps {
        Some(v) => Some(v@),
        None => None,
    }
}

/// Classify a device from its three capability bitmaps. The key bitmap is
/// mandatory (a device whose key query failed was rejected before this
/// point); the relative and absolute bitmaps are `None` where their query
/// failed, which only forecloses the rule that needed them.
pub fn classify_device(
    keycaps: &Vec<u8>,
    relcaps: Option<&Vec<u8>>,
    abscaps: Option<&Vec<u8>>,
) -> (r: MouseClass)
    requires
        keycaps@.len() == KEYCAPS_LEN,
        relcaps matches Some(v) ==> v@.len() == RELCAPS_LEN,
        abscaps matches Some(v) ==> v@.len() == ABSCAPS_LEN,
    ensures
        r == spec_classify(keycaps@, caps_view(relcaps), caps_view(abscaps)),
{
    if let Some(rel) = relcaps {
        if test_bit(rel, REL_X) != 0 && test_bit(rel, REL_Y) != 0
            && test_bit(keycaps, BTN_MOUSE) != 0 {
            return MouseClass::RelativeMouse;
        }
    }
    if let Some(ab) = abscaps {
        if test_bit(ab, ABS_X) != 0 && test_bit(ab, ABS_Y) != 0
            && test_bit(keycaps, BTN_TOUCH) != 0 {
            return MouseClass::AbsolutePointer;
        }
    }
    MouseClass::NotMouse
}

/// Law: a device is mouse-class exactly when it has both relative axes and
/// the generic mouse button, or both absolute axes and the touch contact
/// code; no other capability combination registers.
pub proof fn lemma_mouse_classification(
    keycaps: Seq<u8>,
    relcaps: Option<Seq<u8>>,
    abscaps: Option<Seq<u8>>,
)
    ensures
        spec_classify(keycaps, relcaps, abscaps) != MouseClass::NotMouse <==> (
        (relcaps matches Some(rel) && spec_relative_mouse(keycaps, rel)) || (
        abscaps matches Some(ab) && spec_absolute_pointer(keycaps, ab))),
{
}

/// File-type nibble of a status-query mode word.
pub const MODE_TYPE_MASK: u32 = 0xf000;
/// The file-type value of a character special device.
pub const MODE_CHAR_DEVICE: u32 = 0x2000;
/// Device-number major of the kernel input subsystem's event nodes.
pub const INPUT_MAJOR: u64 = 13;
/// Lowest device-number minor of an input event node.
pub const INPUT_MINOR_FIRST: u64 = 64;
/// Highest device-number minor accepted for an input event node.
pub const INPUT_MINOR_LAST: u64 = 96;

/// Major device number packed into a status-query device word.
pub open spec fn spec_dev_major(rdev: u64) -> u64 {
    (rdev & 0xff00) >> 8u64
}

/// Minor device number packed into a status-query device word.
pub open spec fn spec_dev_minor(rdev: u64) -> u64 {
    rdev & 0xff
}

/// A candidate filesystem node is an input event node exactly when it is a
/// character special device whose device numbers fall in the input
/// subsystem's range: major 13, minor between 64 and 96.
pub open spec fn spec_is_evdev_node(mode: u32, rdev: u64) -> bool {
    &&& mode & MODE_TYPE_MASK == MODE_CHAR_DEVICE
    &&& spec_dev_major(rdev) == INPUT_MAJOR
    &&& INPUT_MINOR_FIRST <= spec_dev_minor(rdev) <= INPUT_MINOR_LAST
}

/// Validate one candidate node from its status-query results: `mode` is
/// the file mode word, `rdev` the packed device-number word. A node this
/// rejects is never opened and never registered.
pub fn is_evdev_node(mode: u32, rdev: u64) -> (r: bool)
    ensures
        r == spec_is_evdev_node(mode, rdev),
{
    if mode & MODE_TYPE_MASK != MODE_CHAR_DEVICE {
        return false;
    }
    let devmajor: u64 = (rdev & 0xff00) >> 8u64;
    let devminor: u64 = rdev & 0xff;
    devmajor == INPUT_MAJOR && devminor >= INPUT_MINOR_FIRST && devminor <= INPUT_MINOR_LAST
}

/// Byte length of a device's display-name buffer.
pub const NAME_LEN: usize = 64;

/// The fixed display-name buffer made from a source name: exactly 64
/// bytes, the first `min(len, 63)` copied from the source, every later
/// byte NUL — so the name is truncated, never overflowed, and the buffer
/// always ends in a NUL.
pub open spec fn spec_name_buffer(src: Seq<u8>) -> Seq<u8> {
    Seq::new(64, |i: int| if i < src.len() && i < 63 { src[i] } else { 0u8 })
}

/// The display name substituted when a device's name query fails.
pub open spec fn spec_placeholder_name() -> Seq<u8> {
    // the bytes of "unknowndevice"
    seq![117u8, 110u8, 107u8, 110u8, 111u8, 119u8, 110u8, 100u8, 101u8, 118u8, 105u8, 99u8, 101u8]
}

/// Copy a source name into a fresh fixed-size buffer, truncating at 63
/// bytes and padding with NULs.
pub fn make_name_buffer(src: &Vec<u8>) -> (r: Vec<u8>)
    ensures
        r@ == spec_name_buffer(src@),
{
    let mut r: Vec<u8> = Vec::new();
    let mut i: usize = 0;
    while i < NAME_LEN
        invariant
            i <= 64,
            r@.len() == i,
            forall|j: int| 0 <= j < i ==> r@[j] == spec_name_buffer(src@)[j],
        decreases 64 - i,
    {
        if i < src.len() && i < 63 {
            r.push(src[i]);
        } else {
            r.push(0u8);
        }
        i = i + 1;
    }
    assert(r@ =~= spec_name_buffer(src@));
    r
}

/// The placeholder name, already laid out in a fixed buffer.
pub fn placeholder_name() -> (r: Vec<u8>)
    ensures
        r@ == spec_name_buffer(spec_placeholder_name()),
{
    let mut src: Vec<u8> = Vec::new();
    src.push(117u8); // u
    src.push(110u8); // n
    src.push(107u8); // k
    src.push(110u8); // n
    src.push(111u8); // o
    src.push(119u8); // w
    src.push(110u8); // n
    src.push(100u8); // d
    src.push(101u8); // e
    src.push(118u8); // v
    src.push(105u8); // i
    src.push(99u8); // c
    src.push(101u8); // e
    assert(src@ =~= spec_placeholder_name());
    make_name_buffer(&src)
}

/// Law: name buffers are always exactly the fixed size, their content a
/// truncated copy of the source, the remainder NUL-padded, and the final
/// byte always NUL.
pub proof fn lemma_name_buffer_shape(src: Seq<u8>)
    ensures
        spec_name_buffer(src).len() == 64,
        forall|i: int| 0 <= i < 63 && i < src.len() ==> spec_name_buffer(src)[i] == src[i],
        forall|i: int| 0 <= i < 64 && !(i < src.len() && i < 63) ==> spec_name_buffer(src)[i]
            == 0u8,
        spec_name_buffer(src)[63] == 0u8,
{
}

/// What one raw record means for the device with the given absolute-axis
/// bounds, or `None` where the record is of no interest to a pointer:
/// relative X or dial motion and relative Y motion; vertical and horizontal
/// scroll (whose axes have no declared range, carried as zero); absolute X
/// and Y motion, carrying the device's bounds for that axis; primary
/// mouse buttons numbered from the base of their block, the miscellaneous
/// button block likewise, and the three tablet contact codes as buttons
/// zero, one and two.
pub open spec fn spec_decode(
    rec: InputRecord,
    min_x: i32,
    max_x: i32,
    min_y: i32,
    max_y: i32,
    device: usize,
) -> Option<ManyMouseEvent> {
    if rec.event_type == EV_REL {
        if rec.code == REL_X || rec.code == REL_DIAL {
            Some(ManyMouseEvent {
                event_type: ManyMouseEventType::Relmotion,
                device,
                item: 0,
                value: rec.value,
                minval: None,
                maxval: None,
            })
        } else if rec.code == REL_Y {
            Some(ManyMouseEvent {
                event_type: ManyMouseEventType::Relmotion,
                device,
                item: 1,
                value: rec.value,
                minval: None,
                maxval: None,
            })
        } else if rec.code == REL_WHEEL {
            Some(ManyMouseEvent {
                event_type: ManyMouseEventType::Scroll,
                device,
                item: 0,
                value: rec.value,
                minval: Some(0),
                maxval: Some(0),
            })
        } else if rec.code == REL_HWHEEL {
            Some(ManyMouseEvent {
                event_type: ManyMouseEventType::Scroll,
                device,
                item: 1,
                value: rec.value,
                minval: Some(0),
                maxval: Some(0),
            })
        } else {
            None
        }
    } else if rec.event_type == EV_ABS {
        if rec.code == ABS_X {
            Some(ManyMouseEvent {
                event_type: ManyMouseEventType::Absmotion,
                device,
                item: 0,
                value: rec.value,
                minval: Some(min_x),
                maxval: Some(max_x),
            })
        } else if rec.code == ABS_Y {
            Some(ManyMouseEvent {
                event_type: ManyMouseEventType::Absmotion,
                device,
                item: 1,
                value: rec.value,
                minval: Some(min_y),
                maxval: Some(max_y),
            })
        } else {
            None
        }
    } else if rec.event_type == EV_KEY {
        if BTN_LEFT <= rec.code && rec.code <= BTN_BACK {
            Some(ManyMouseEvent {
                event_type: ManyMouseEventType::Button,
                device,
                item: (rec.code - BTN_MOUSE) as u16,
                value: rec.value,
                minval: None,
                maxval: None,
            })
        } else if BTN_MISC <= rec.code && rec.code <= BTN_LEFT {
            Some(ManyMouseEvent {
                event_type: ManyMouseEventType::Button,
                device,
                item: (rec.code - BTN_MISC) as u16,
                value: rec.value,
                minval: None,
                maxval: None,
            })
        } else if rec.code == BTN_TOUCH {
            Some(ManyMouseEvent {
                event_type: ManyMouseEventType::Button,
                device,
                item: 0,
                value: rec.value,
                minval: None,
                maxval: None,
            })
        } else if rec.code == BTN_STYLUS {
            Some(ManyMouseEvent {
                event_type: ManyMouseEventType::Button,
                device,
                item: 1,
                value: rec.value,
                minval: None,
                maxval: None,
            })
        } else if rec.code == BTN_STYLUS2 {
            Some(ManyMouseEvent {
                event_type: ManyMouseEventType::Button,
                device,
                item: 2,
                value: rec.value,
                minval: None,
                maxval: None,
            })
        } else {
            None
        }
    } else {
        None
    }
}

/// Decode one raw record against the producing device's absolute-axis
/// bounds. Pure: the result depends on the arguments alone.
pub fn decode_record(
    rec: InputRecord,
    min_x: i32,
    max_x: i32,
    min_y: i32,
    max_y: i32,
    device: usize,
) -> (r: Option<ManyMouseEvent>)
    ensures
        r == spec_decode(rec, min_x, max_x, min_y, max_y, device),
{
    if rec.event_type == EV_REL {
        if rec.code == REL_X || rec.code == REL_DIAL {
            Some(ManyMouseEvent {
                event_type: ManyMouseEventType::Relmotion,
                device,
                item: 0,
                value: rec.value,
                minval: None,
                maxval: None,
            })
        } else if rec.code == REL_Y {
            Some(ManyMouseEvent {
                event_type: ManyMouseEventType::Relmotion,
                device,
                item: 1,
                value: rec.value,
                minval: None,
                maxval: None,
            })
        } else if rec.code == REL_WHEEL {
            Some(ManyMouseEvent {
                event_type: ManyMouseEventType::Scroll,
                device,
                item: 0,
                value: rec.value,
                minval: Some(0),
                maxval: Some(0),
            })
        } else if rec.code == REL_HWHEEL {
            Some(ManyMouseEvent {
                event_type: ManyMouseEventType::Scroll,
                device,
                item: 1,
                value: rec.value,
                minval: Some(0),
                maxval: Some(0),
            })
        } else {
            None
        }
    } else if rec.event_type == EV_ABS {
        if rec.code == ABS_X {
            Some(ManyMouseEvent {
                event_type: ManyMouseEventType::Absmotion,
                device,
                item: 0,
                value: rec.value,
                minval: Some(min_x),
                maxval: Some(max_x),
            })
        } else if rec.code == ABS_Y {
            Some(ManyMouseEvent {
                event_type: ManyMouseEventType::Absmotion,
                device,
                item: 1,
                value: rec.value,
                minval: Some(min_y),
                maxval: Some(max_y),
            })
        } else {
            None
        }
    } else if rec.event_type == EV_KEY {
        if BTN_LEFT <= rec.code && rec.code <= BTN_BACK {
            Some(ManyMouseEvent {
                event_type: ManyMouseEventType::Button,
                device,
                item: rec.code - BTN_MOUSE,
                value: rec.value,
                minval: None,
                maxval: None,
            })
        } else if BTN_MISC <= rec.code && rec.code <= BTN_LEFT {
            Some(ManyMouseEvent {
                event_type: ManyMouseEventType::Button,
                device,
                item: rec.code - BTN_MISC,
                value: rec.value,
                minval: None,
                maxval: None,
            })
        } else if rec.code == BTN_TOUCH {
            Some(ManyMouseEvent {
                event_type: ManyMouseEventType::Button,
                device,
                item: 0,
                value: rec.value,
                minval: None,
                maxval: None,
            })
        } else if rec.code == BTN_STYLUS {
            Some(ManyMouseEvent {
                event_type: ManyMouseEventType::Button,
                device,
                item: 1,
                value: rec.value,
                minval: None,
                maxval: None,
            })
        } else if rec.code == BTN_STYLUS2 {
            Some(ManyMouseEvent {
                event_type: ManyMouseEventType::Button,
                device,
                item: 2,
                value: rec.value,
                minval: None,
                maxval: None,
            })
        } else {
            None
        }
    } else {
        None
    }
}

/// The fixed ceiling of concurrently tracked devices: the registry's
/// capacity. Devices discovered beyond it are silently dropped, a
/// documented platform limitation.
pub const MAX_MICE: usize = 32;

/// The absolute-axis bounds of an absolute pointer, as two range queries
/// report them.
#[derive(Clone, Copy, Debug, PartialEq, Eq, Structural)]
pub struct AxisRanges {
    pub min_x: i32,
    pub max_x: i32,
    pub min_y: i32,
    pub max_y: i32,
}

/// One registered device: the raw descriptor of its open non-blocking
/// stream (opened and read by the embedding program), its absolute-axis
/// bounds (zero unless it is an absolute pointer), and its fixed
/// display-name buffer.
#[derive(Debug)]
pub struct MouseStruct {
    pub fd: i32,
    pub min_x: i32,
    pub min_y: i32,
    pub max_x: i32,
    pub max_y: i32,
    pub name: Vec<u8>,
}

impl MouseStruct {
    /// A handle is well formed when its name buffer has the fixed size.
    pub open spec fn wf(self) -> bool {
        self.name@.len() == NAME_LEN
    }
}

/// The device registry: a fixed-capacity ordered sequence of optional
/// slots plus the active count. Registered devices occupy the first
/// `available_mice` slots contiguously, in discovery order; no removal
/// ever happens — device lifetime is bound to process lifetime.
#[derive(Debug)]
pub struct DriverContainer {
    pub mice: Vec<Option<MouseStruct>>,
    pub available_mice: usize,
}

impl DriverContainer {
    /// The registry invariant: exactly the fixed number of slots, the
    /// count within capacity, the first `available_mice` slots filled
    /// with well-formed handles and the rest empty.
    pub open spec fn wf(self) -> bool {
        &&& self.mice@.len() == MAX_MICE
        &&& self.available_mice <= MAX_MICE
        &&& forall|i: int|
            0 <= i < self.available_mice ==> ((#[trigger] self.mice@[i]) matches Some(m) && m.wf())
        &&& forall|i: int|
            self.available_mice <= i < MAX_MICE ==> (#[trigger] self.mice@[i]) is None
    }

    /// An empty registry with every slot free.
    pub fn new() -> (r: Self)
        ensures
            r.wf(),
            r.available_mice == 0,
    {
        let mut mice: Vec<Option<MouseStruct>> = Vec::new();
        let mut i: usize = 0;
        while i < MAX_MICE
            invariant
                i <= MAX_MICE,
                mice@.len() == i,
                forall|j: int| 0 <= j < i ==> (#[trigger] mice@[j]) is None,
            decreases MAX_MICE - i,
        {
            mice.push(None);
            i = i + 1;
        }
        DriverContainer { mice, available_mice: 0 }
    }

    /// Whether the probe results admit the device at all: it must be
    /// mouse-class, and an absolute pointer must have yielded both of its
    /// axis-range queries.
    pub open spec fn spec_accepts(class: MouseClass, ranges: Option<AxisRanges>) -> bool {
        class != MouseClass::NotMouse && !(class == MouseClass::AbsolutePointer && ranges is None)
    }

    /// Register one probed device. `class` is the capability
    /// classification; `ranges` the axis bounds, present when the range
    /// queries of an absolute pointer succeeded; `name` the queried
    /// display name, `None` when the name query failed.
    ///
    /// Returns whether the device was accepted as a mouse. A rejected
    /// device (not mouse-class, or an absolute pointer whose range query
    /// failed) leaves the registry unchanged. An accepted device fills
    /// the next free slot — with its descriptor, its bounds (zero for a
    /// relative mouse), and its name buffer (the placeholder where the
    /// query failed) — unless the registry is full, in which case it is
    /// silently dropped.
    pub fn init_mouse(
        &mut self,
        fd: i32,
        class: MouseClass,
        ranges: Option<AxisRanges>,
        name: Option<&Vec<u8>>,
    ) -> (r: bool)
        requires
            old(self).wf(),
        ensures
            final(self).wf(),
            r == Self::spec_accepts(class, ranges),
            !r ==> *final(self) == *old(self),
            r && old(self).available_mice == MAX_MICE ==> *final(self) == *old(self),
            r && old(self).available_mice < MAX_MICE ==> {
                &&& final(self).available_mice == old(self).available_mice + 1
                &&& forall|i: int|
                    0 <= i < MAX_MICE && i != old(self).available_mice ==> final(self).mice@[i]
                        == old(self).mice@[i]
                &&& final(self).mice@[old(self).available_mice as int] matches Some(m) && (
                m.fd == fd && m.name@ == spec_name_buffer(
                    match name {
                        Some(n) => n@,
                        None => spec_placeholder_name(),
                    },
                ) && (if class == MouseClass::AbsolutePointer {
                    ranges matches Some(rg) && m.min_x == rg.min_x && m.max_x == rg.max_x
                        && m.min_y == rg.min_y && m.max_y == rg.max_y
                } else {
                    m.min_x == 0 && m.max_x == 0 && m.min_y == 0 && m.max_y == 0
                }))
            },
    {
        if class == MouseClass::NotMouse {
            return false;
        }
        let mut min_x: i32 = 0;
        let mut max_x: i32 = 0;
        let mut min_y: i32 = 0;
        let mut max_y: i32 = 0;
        if class == MouseClass::AbsolutePointer {
            match ranges {
                Some(rg) => {
                    min_x = rg.min_x;
                    max_x = rg.max_x;
                    min_y = rg.min_y;
                    max_y = rg.max_y;
                },
                None => {
                    return false;
                },
            }
        }
        let name_buf: Vec<u8> = match name {
            Some(n) => make_name_buffer(n),
            None => placeholder_name(),
        };
        if self.available_mice < MAX_MICE {
            let mouse = MouseStruct { fd, min_x, min_y, max_x, max_y, name: name_buf };
            let slot: usize = self.available_mice;
            self.mice[slot] = Some(mouse);
            self.available_mice = slot + 1;
        }
        true
    }

    /// The display-name buffer of a registered device, nothing for a free
    /// slot or an index beyond the registry.
    pub fn linux_evdev_name(&self, index: usize) -> (r: Option<&Vec<u8>>)
        requires
            self.wf(),
        ensures
            index < self.available_mice ==> (r matches Some(nm) && nm@
                == self.mice@[index as int]->Some_0.name@),
            index >= self.available_mice ==> r is None,
    {
        if index < self.mice.len() {
            match &self.mice[index] {
                Some(m) => Some(&m.name),
                None => None,
            }
        } else {
            None
        }
    }

    /// The identifiers of the registered devices, in discovery order.
    pub fn get_all_ids(&self) -> (r: Vec<usize>)
        requires
            self.wf(),
        ensures
            r@.len() == self.available_mice,
            forall|i: int| 0 <= i < r@.len() ==> r@[i] == i,
    {
        let mut r: Vec<usize> = Vec::new();
        let mut i: usize = 0;
        while i < self.available_mice
            invariant
                i <= self.available_mice,
                r@.len() == i,
                forall|j: int| 0 <= j < i ==> r@[j] == j,
            decreases self.available_mice - i,
        {
            r.push(i);
            i = i + 1;
        }
        r
    }

    /// The display-name buffers of the registered devices, in discovery
    /// order.
    pub fn get_all_mouse_names(&self) -> (r: Vec<Vec<u8>>)
        requires
            self.wf(),
        ensures
            r@.len() == self.available_mice,
            forall|i: int|
                0 <= i < r@.len() ==> (#[trigger] r@[i])@ == self.mice@[i]->Some_0.name@,
    {
        let mut r: Vec<Vec<u8>> = Vec::new();
        let mut i: usize = 0;
        while i < self.available_mice
            invariant
                self.wf(),
                i <= self.available_mice,
                r@.len() == i,
                forall|j: int| 0 <= j < i ==> (#[trigger] r@[j])@ == self.mice@[j]->Some_0.name@,
            decreases self.available_mice - i,
        {
            match &self.mice[i] {
                Some(m) => {
                    let mut copy: Vec<u8> = Vec::new();
                    let mut k: usize = 0;
                    while k < m.name.len()
                        invariant
                            k <= m.name@.len(),
                            copy@.len() == k,
                            forall|t: int| 0 <= t < k ==> copy@[t] == m.name@[t],
                        decreases m.name@.len() - k,
                    {
                        copy.push(m.name[k]);
                        k = k + 1;
                    }
                    assert(copy@ =~= m.name@);
                    r.push(copy);
                },
                None => {
                    assert(false);
                },
            }
            i = i + 1;
        }
        r
    }
}

/// Law: the registry never exceeds its fixed capacity, whatever the scan
/// feeds it — the invariant bounds the count by the capacity at all times.
pub proof fn lemma_registry_capacity(c: DriverContainer)
    requires
        c.wf(),
    ensures
        c.available_mice <= MAX_MICE,
{
}

/// Decoding never invents an absolute-motion or scroll event without both
/// bounds: whenever it yields one, the bounds are present.
pub open spec fn event_has_bounds(ev: ManyMouseEvent) -> bool {
    (ev.event_type == ManyMouseEventType::Absmotion
        || ev.event_type == ManyMouseEventType::Scroll) ==> (ev.minval is Some
        && ev.maxval is Some)
}

/// Law: every event the decoder yields carries bounds wherever the facade
/// conversion will read them.
pub proof fn lemma_decoded_event_has_bounds(
    rec: InputRecord,
    min_x: i32,
    max_x: i32,
    min_y: i32,
    max_y: i32,
    device: usize,
)
    ensures
        match spec_decode(rec, min_x, max_x, min_y, max_y, device) {
            Some(ev) => event_has_bounds(ev),
            None => true,
        },
{
}

/// What the embedding program's non-blocking read of one device yielded:
/// a raw record, a would-block condition (the device's queue is empty for
/// now), or any other read failure.
#[derive(Clone, Copy, Debug, PartialEq, Eq, Structural)]
pub enum ReadOutcome {
    Record(InputRecord),
    WouldBlock,
    Failure,
}

/// What a poll call should do next: read one record from the given
/// registered device, return this event, report that no device had an
/// event, or propagate a fatal read error for this poll call.
#[derive(Clone, Debug, PartialEq, Eq, Structural)]
pub enum PollStep {
    Read(usize),
    Event(ManyMouseEvent),
    NoEvent,
    Failed,
}

/// The round-robin scan cursor and the state of the poll call in
/// progress: how many devices the call has found silent, and whether a
/// call is in progress at all.
#[derive(Clone, Copy, Debug, PartialEq, Eq, Structural)]
pub struct Poller {
    pub cursor: usize,
    pub visited: usize,
    pub scanning: bool,
}

/// The next registry index after `i`, wrapping at the device count.
pub open spec fn advance_index(i: int, n: int) -> int {
    if i + 1 == n {
        0
    } else {
        i + 1
    }
}

/// The registry index the cursor reaches after `k` single advances from
/// `c`, each wrapping at the device count `n`.
pub open spec fn cursor_after(c: int, k: nat, n: int) -> int
    decreases k,
{
    if k == 0 {
        c
    } else {
        advance_index(cursor_after(c, (k - 1) as nat, n), n)
    }
}

/// Decoding a record read from registered device `i`, against that
/// device's own axis bounds.
pub open spec fn spec_decode_at(driver: DriverContainer, i: int, rec: InputRecord) -> Option<
    ManyMouseEvent,
> {
    let m = driver.mice@[i]->Some_0;
    spec_decode(rec, m.min_x, m.max_x, m.min_y, m.max_y, i as usize)
}

/// Beginning a poll call: with no devices it reports "no event" at once;
/// otherwise the scan starts at the persistent cursor (reset to the first
/// device if it has run past the count) with no device visited yet.
pub open spec fn spec_poll_start(p: Poller, n: usize) -> (Poller, PollStep) {
    if n == 0 {
        (Poller { cursor: p.cursor, visited: p.visited, scanning: false }, PollStep::NoEvent)
    } else {
        let c = if p.cursor < n {
            p.cursor
        } else {
            0
        };
        (Poller { cursor: c, visited: 0, scanning: true }, PollStep::Read(c))
    }
}

/// One step of a poll call, given what the read of the device under the
/// cursor yielded.
///
/// A record that decodes to an event ends the call with that event and
/// leaves the cursor on the producing device, so the next call retries it
/// first. A record of no interest keeps reading the same device within the
/// same call. A would-block answer marks the device silent and advances
/// the cursor, wrapping; once every device has answered would-block the
/// call ends with "no event". Any other read failure is fatal for the
/// call.
pub open spec fn spec_poll_step(p: Poller, driver: DriverContainer, outcome: ReadOutcome) -> (
    Poller,
    PollStep,
) {
    let n = driver.available_mice;
    match outcome {
        ReadOutcome::Failure => (
            Poller { cursor: p.cursor, visited: p.visited, scanning: false },
            PollStep::Failed,
        ),
        ReadOutcome::WouldBlock => {
            let c2 = advance_index(p.cursor as int, n as int) as usize;
            if p.visited + 1 == n {
                (
                    Poller { cursor: c2, visited: (p.visited + 1) as usize, scanning: false },
                    PollStep::NoEvent,
                )
            } else {
                (
                    Poller { cursor: c2, visited: (p.visited + 1) as usize, scanning: true },
                    PollStep::Read(c2),
                )
            }
        },
        ReadOutcome::Record(rec) => match spec_decode_at(driver, p.cursor as int, rec) {
            Some(ev) => (
                Poller { cursor: p.cursor, visited: p.visited, scanning: false },
                PollStep::Event(ev),
            ),
            None => (p, PollStep::Read(p.cursor)),
        },
    }
}

impl Poller {
    /// A fresh cursor, no poll call in progress.
    pub fn new() -> (r: Self)
        ensures
            r.cursor == 0,
            r.visited == 0,
            !r.scanning,
    {
        Poller { cursor: 0, visited: 0, scanning: false }
    }

    /// Begin a poll call over the registered devices.
    pub fn poll_start(&mut self, driver: &DriverContainer) -> (r: PollStep)
        requires
            driver.wf(),
        ensures
            (*final(self), r) == spec_poll_start(*old(self), driver.available_mice),
            final(self).scanning ==> final(self).cursor < driver.available_mice
                && final(self).visited < driver.available_mice,
    {
        let n = driver.available_mice;
        if n == 0 {
            self.scanning = false;
            return PollStep::NoEvent;
        }
        if self.cursor >= n {
            self.cursor = 0;
        }
        self.visited = 0;
        self.scanning = true;
        PollStep::Read(self.cursor)
    }

    /// Continue the poll call in progress with the outcome of the read
    /// this machine last asked for.
    pub fn poll_step(&mut self, driver: &DriverContainer, outcome: ReadOutcome) -> (r: PollStep)
        requires
            driver.wf(),
            old(self).scanning,
            old(self).cursor < driver.available_mice,
            old(self).visited < driver.available_mice,
        ensures
            (*final(self), r) == spec_poll_step(*old(self), *driver, outcome),
            final(self).scanning ==> final(self).cursor < driver.available_mice
                && final(self).visited < driver.available_mice,
    {
        match outcome {
            ReadOutcome::Failure => {
                self.scanning = false;
                PollStep::Failed
            },
            ReadOutcome::WouldBlock => {
                let n = driver.available_mice;
                self.visited = self.visited + 1;
                let next: usize = if self.cursor + 1 == n {
                    0
                } else {
                    self.cursor + 1
                };
                self.cursor = next;
                if self.visited == n {
                    self.scanning = false;
                    PollStep::NoEvent
                } else {
                    PollStep::Read(next)
                }
            },
            ReadOutcome::Record(rec) => {
                match &driver.mice[self.cursor] {
                    Some(mouse) => {
                        match decode_record(
                            rec,
                            mouse.min_x,
                            mouse.max_x,
                            mouse.min_y,
                            mouse.max_y,
                            self.cursor,
                        ) {
                            Some(ev) => {
                                self.scanning = false;
                                PollStep::Event(ev)
                            },
                            None => PollStep::Read(self.cursor),
                        }
                    },
                    None => {
                        assert(false);
                        PollStep::Failed
                    },
                }
            },
        }
    }
}

/// While no advance wraps, the cursor moves linearly.
proof fn lemma_cursor_after_linear(c: int, k: nat, n: int)
    requires
        0 <= c,
        c + k < n,
    ensures
        cursor_after(c, k, n) == c + k,
    decreases k,
{
    if k > 0 {
        lemma_cursor_after_linear(c, (k - 1) as nat, n);
    }
}

/// Advancing `a + b` times is advancing `a` times, then `b` times.
proof fn lemma_cursor_after_compose(c: int, a: nat, b: nat, n: int)
    ensures
        cursor_after(c, a + b, n) == cursor_after(cursor_after(c, a, n), b, n),
    decreases b,
{
    if b > 0 {
        lemma_cursor_after_compose(c, a, (b - 1) as nat, n);
        assert(cursor_after(c, a + b, n) == advance_index(
            cursor_after(c, (a + b - 1) as nat, n),
            n,
        ));
    }
}

/// Law: round-robin fairness over silent devices. When every read answers
/// would-block, a poll call's reads fall on `cursor_after(c, 0, n)`,
/// `cursor_after(c, 1, n)`, and so on — and within `n` such advances from
/// any starting cursor, every registered device's index is reached, so a
/// full cycle visits every device before the call reports "no event".
pub proof fn lemma_round_robin_coverage(c: int, n: int, d: int)
    requires
        0 <= c < n,
        0 <= d < n,
    ensures
        exists|k: nat| k < n && cursor_after(c, k, n) == d,
{
    if d >= c {
        let k = (d - c) as nat;
        lemma_cursor_after_linear(c, k, n);
        assert(k < n && cursor_after(c, k, n) == d);
    } else {
        let a = (n - c - 1) as nat;
        lemma_cursor_after_linear(c, a, n);
        lemma_cursor_after_compose(c, a, 1, n);
        assert(cursor_after(c, (n - c) as nat, n) == 0);
        lemma_cursor_after_compose(c, (n - c) as nat, d as nat, n);
        lemma_cursor_after_linear(0, d as nat, n);
        let k = (n - c + d) as nat;
        assert(k < n && cursor_after(c, k, n) == d);
    }
}

/// The facade shape of one decoded event: relative motion splits into its
/// x and y components by item, absolute motion names its axis and carries
/// that axis's bounds, buttons map item one to the left side and every
/// other item to the right (this backend's two-way mapping), and a value
/// of one means pressed.
pub open spec fn spec_to_event(v: ManyMouseEvent) -> super::Event {
    super::Event {
        device_id: v.device,
        event: match v.event_type {
            ManyMouseEventType::Absmotion => super::ManyMouseEvent::AbsoluteMotion {
                moved: if v.item == 0 {
                    super::AbsoluteMotionMoved::X(v.value)
                } else {
                    super::AbsoluteMotionMoved::Y(v.value)
                },
                max: v.maxval->Some_0,
                min: v.minval->Some_0,
            },
            ManyMouseEventType::Relmotion => super::ManyMouseEvent::RelativeMotion {
                x: if v.item == 0 {
                    v.value
                } else {
                    0
                },
                y: if v.item == 0 {
                    0
                } else {
                    v.value
                },
            },
            ManyMouseEventType::Button => super::ManyMouseEvent::Button {
                side: if v.item == 1 {
                    super::Button::Left
                } else {
                    super::Button::Right
                },
                is_pressed: v.value == 1,
            },
            ManyMouseEventType::Scroll => super::ManyMouseEvent::Scroll {
                value: v.value,
                min: v.minval->Some_0,
                max: v.maxval->Some_0,
            },
            ManyMouseEventType::_Disconnect => super::ManyMouseEvent::Disconnect,
            ManyMouseEventType::_Max => super::ManyMouseEvent::Max {  },
        },
    }
}

/// Convert one decoded event to the facade shape shared by every backend.
/// The bounds it reads are present on every event the decoder yields.
pub fn to_event(v: &ManyMouseEvent) -> (r: super::Event)
    requires
        event_has_bounds(*v),
    ensures
        r == spec_to_event(*v),
{
    let event = match v.event_type {
        ManyMouseEventType::Absmotion => {
            let mn: i32 = match v.minval {
                Some(x) => x,
                None => {
                    assert(false);
                    0
                },
            };
            let mx: i32 = match v.maxval {
                Some(x) => x,
                None => {
                    assert(false);
                    0
                },
            };
            super::ManyMouseEvent::AbsoluteMotion {
                moved: if v.item == 0 {
                    super::AbsoluteMotionMoved::X(v.value)
                } else {
                    super::AbsoluteMotionMoved::Y(v.value)
                },
                max: mx,
                min: mn,
            }
        },
        ManyMouseEventType::Relmotion => super::ManyMouseEvent::RelativeMotion {
            x: if v.item == 0 {
                v.value
            } else {
                0
            },
            y: if v.item == 0 {
                0
            } else {
                v.value
            },
        },
        ManyMouseEventType::Button => super::ManyMouseEvent::Button {
            side: if v.item == 1 {
                super::Button::Left
            } else {
                super::Button::Right
            },
            is_pressed: v.value == 1,
        },
        ManyMouseEventType::Scroll => {
            let mn: i32 = match v.minval {
                Some(x) => x,
                None => {
                    assert(false);
                    0
                },
            };
            let mx: i32 = match v.maxval {
                Some(x) => x,
                None => {
                    assert(false);
                    0
                },
            };
            super::ManyMouseEvent::Scroll { value: v.value, min: mn, max: mx }
        },
        ManyMouseEventType::_Disconnect => super::ManyMouseEvent::Disconnect,
        ManyMouseEventType::_Max => super::ManyMouseEvent::Max {  },
    };
    super::Event { device_id: v.device, event }
}

/// The poller state after `k` would-block answers in one poll call.
pub open spec fn silent_after(p: Poller, d: DriverContainer, k: nat) -> Poller
    decreases k,
{
    if k == 0 {
        p
    } else {
        spec_poll_step(silent_after(p, d, (k - 1) as nat), d, ReadOutcome::WouldBlock).0
    }
}

/// Each would-block answer moves the cursor one advance along the cycle
/// and marks one more device visited; the scan stays in progress until
/// every device has answered.
proof fn lemma_silent_trace(p: Poller, d: DriverContainer, k: nat)
    requires
        p.scanning,
        p.visited == 0,
        p.cursor < d.available_mice,
        k <= d.available_mice,
    ensures
        silent_after(p, d, k).cursor == cursor_after(
            p.cursor as int,
            k,
            d.available_mice as int,
        ),
        silent_after(p, d, k).cursor < d.available_mice,
        silent_after(p, d, k).visited == k,
        silent_after(p, d, k).scanning <==> k < d.available_mice,
    decreases k,
{
    if k > 0 {
        lemma_silent_trace(p, d, (k - 1) as nat);
    }
}

/// Law: round-robin fairness over a silent registry. In a poll call whose
/// every read answers would-block, the device read at step `j` is the
/// cursor of `silent_after(p, d, j)` — so every registered device is read
/// at some step of the cycle — and the step after the last device answers
/// reports "no event".
pub proof fn lemma_silent_cycle_visits_every_device(p: Poller, d: DriverContainer, dev: int)
    requires
        d.wf(),
        p.scanning,
        p.visited == 0,
        p.cursor < d.available_mice,
        0 <= dev < d.available_mice,
    ensures
        exists|j: nat| j < d.available_mice && silent_after(p, d, j).cursor == dev,
        spec_poll_step(
            silent_after(p, d, (d.available_mice - 1) as nat),
            d,
            ReadOutcome::WouldBlock,
        ).1 == PollStep::NoEvent,
{
    let n = d.available_mice as int;
    lemma_round_robin_coverage(p.cursor as int, n, dev);
    let k = choose|k: nat| k < n && cursor_after(p.cursor as int, k, n) == dev;
    lemma_silent_trace(p, d, k);
    assert(k < d.available_mice && silent_after(p, d, k).cursor == dev);
    lemma_silent_trace(p, d, (n - 1) as nat);
}

/// Law: decoding is pure and deterministic. Two raw records with the same
/// fields, decoded against the same axis bounds for the same device, yield
/// the same result.
pub proof fn lemma_decode_deterministic(
    a: InputRecord,
    b: InputRecord,
    min_x: i32,
    max_x: i32,
    min_y: i32,
    max_y: i32,
    device: usize,
)
    requires
        a == b,
    ensures
        spec_decode(a, min_x, max_x, min_y, max_y, device) == spec_decode(
            b,
            min_x,
            max_x,
            min_y,
            max_y,
            device,
        ),
{
}

} // verus!
