//! Values on the two sides of the boundary.
//!
//! The native side speaks in machine integers and addresses; the managed side
//! in `bool`, enums, flag sets and handles. Each conversion here is total, and
//! the laws at the end say which round trips are the identity.
use vstd::prelude::*;

verus! {

/// The native truth value.
pub type Gboolean = libc::c_int;

/// The native encoding of `false`.
pub const GFALSE: Gboolean = 0;

/// The native encoding of `true`.
pub const GTRUE: Gboolean = 1;

/// What a native truth value means: everything but `GFALSE` is true.
pub open spec fn bool_of_glib(raw: Gboolean) -> bool {
    raw != GFALSE
}

/// How a `bool` is encoded: `GTRUE` or `GFALSE`.
pub open spec fn glib_of_bool(value: bool) -> Gboolean {
    if value {
        GTRUE
    } else {
        GFALSE
    }
}

/// Decodes a native truth value.
pub fn bool_from_glib(raw: Gboolean) -> (value: bool)
    ensures
        value == bool_of_glib(raw),
{
    raw != GFALSE
}

/// Encodes a `bool` for the native side.
pub fn bool_into_glib(value: bool) -> (raw: Gboolean)
    ensures
        raw == glib_of_bool(value),
{
    if value {
        GTRUE
    } else {
        GFALSE
    }
}

/// The direction in which keyboard focus moves.
#[derive(Clone, Copy, Debug, PartialEq, Eq, Structural)]
pub enum DirectionType {
    TabForward,
    TabBackward,
    Up,
    Down,
    Left,
    Right,
    /// A number the toolkit sent that has no name here; it is kept as it came.
    Unknown(i32),
}

impl DirectionType {
    /// The direction that a native number stands for.
    pub open spec fn of_glib(raw: i32) -> DirectionType {
        if raw == 0 {
            DirectionType::TabForward
        } else if raw == 1 {
            DirectionType::TabBackward
        } else if raw == 2 {
            DirectionType::Up
        } else if raw == 3 {
            DirectionType::Down
        } else if raw == 4 {
            DirectionType::Left
        } else if raw == 5 {
            DirectionType::Right
        } else {
            DirectionType::Unknown(raw)
        }
    }

    /// The native number of a direction.
    pub open spec fn to_glib(self) -> i32 {
        match self {
            DirectionType::TabForward => 0,
            DirectionType::TabBackward => 1,
            DirectionType::Up => 2,
            DirectionType::Down => 3,
            DirectionType::Left => 4,
            DirectionType::Right => 5,
            DirectionType::Unknown(raw) => raw,
        }
    }

    /// True of every value that decoding can produce: an `Unknown` never
    /// holds the number of a named direction.
    pub open spec fn is_canonical(self) -> bool {
        match self {
            DirectionType::Unknown(raw) => raw < 0 || raw > 5,
            _ => true,
        }
    }

    /// Decodes a native direction.
    pub fn from_glib(raw: i32) -> (direction: DirectionType)
        ensures
            direction == Self::of_glib(raw),
    {
        if raw == 0 {
            DirectionType::TabForward
        } else if raw == 1 {
            DirectionType::TabBackward
        } else if raw == 2 {
            DirectionType::Up
        } else if raw == 3 {
            DirectionType::Down
        } else if raw == 4 {
            DirectionType::Left
        } else if raw == 5 {
            DirectionType::Right
        } else {
            DirectionType::Unknown(raw)
        }
    }

    /// Encodes a direction for the native side.
    pub fn into_glib(self) -> (raw: i32)
        ensures
            raw == self.to_glib(),
    {
        match self {
            DirectionType::TabForward => 0,
            DirectionType::TabBackward => 1,
            DirectionType::Up => 2,
            DirectionType::Down => 3,
            DirectionType::Left => 4,
            DirectionType::Right => 5,
            DirectionType::Unknown(raw) => raw,
        }
    }
}

/// Whether a widget prefers to be asked for its height given a width, or the
/// other way round.
#[derive(Clone, Copy, Debug, PartialEq, Eq, Structural)]
pub enum SizeRequestMode {
    HeightForWidth,
    WidthForHeight,
    ConstantSize,
    /// A number the toolkit sent that has no name here; it is kept as it came.
    Unknown(i32),
}

impl SizeRequestMode {
    /// The mode that a native number stands for.
    pub open spec fn of_glib(raw: i32) -> SizeRequestMode {
        if raw == 0 {
            SizeRequestMode::HeightForWidth
        } else if raw == 1 {
            SizeRequestMode::WidthForHeight
        } else if raw == 2 {
            SizeRequestMode::ConstantSize
        } else {
            SizeRequestMode::Unknown(raw)
        }
    }

    /// The native number of a mode.
    pub open spec fn to_glib(self) -> i32 {
        match self {
            SizeRequestMode::HeightForWidth => 0,
            SizeRequestMode::WidthForHeight => 1,
            SizeRequestMode::ConstantSize => 2,
            SizeRequestMode::Unknown(raw) => raw,
        }
    }

    /// True of every value that decoding can produce.
    pub open spec fn is_canonical(self) -> bool {
        match self {
            SizeRequestMode::Unknown(raw) => raw < 0 || raw > 2,
            _ => true,
        }
    }

    /// Decodes a native size request mode.
    pub fn from_glib(raw: i32) -> (mode: SizeRequestMode)
        ensures
            mode == Self::of_glib(raw),
    {
        if raw == 0 {
            SizeRequestMode::HeightForWidth
        } else if raw == 1 {
            SizeRequestMode::WidthForHeight
        } else if raw == 2 {
            SizeRequestMode::ConstantSize
        } else {
            SizeRequestMode::Unknown(raw)
        }
    }

    /// Encodes a size request mode for the native side.
    pub fn into_glib(self) -> (raw: i32)
        ensures
            raw == self.to_glib(),
    {
        match self {
            SizeRequestMode::HeightForWidth => 0,
            SizeRequestMode::WidthForHeight => 1,
            SizeRequestMode::ConstantSize => 2,
            SizeRequestMode::Unknown(raw) => raw,
        }
    }
}

/// The state flags with which a cell is drawn or activated.
///
/// The set is held as its bits. Only the named bits can be set: decoding drops
/// the others.
#[derive(Clone, Copy, Debug, PartialEq, Eq, Structural)]
pub struct CellRendererState {
    bits: u32,
}

impl CellRendererState {
    pub const SELECTED: u32 = 1;

    pub const PRELIT: u32 = 2;

    pub const INSENSITIVE: u32 = 4;

    pub const SORTED: u32 = 8;

    pub const FOCUSED: u32 = 16;

    pub const EXPANDABLE: u32 = 32;

    pub const EXPANDED: u32 = 64;

    /// Every named bit.
    pub const ALL: u32 = 127;

    /// The bits of the set.
    pub closed spec fn view(self) -> u32 {
        self.bits
    }

    /// The bits that decoding keeps of native flags: the named ones.
    pub open spec fn named_bits(raw: u32) -> u32 {
        raw & Self::ALL
    }

    /// The set that native flags stand for.
    pub closed spec fn of_glib(raw: u32) -> CellRendererState {
        CellRendererState { bits: raw & Self::ALL }
    }

    /// Decodes native flags, dropping the bits that have no name.
    pub fn from_glib(raw: u32) -> (state: CellRendererState)
        ensures
            state == Self::of_glib(raw),
            state@ == Self::named_bits(raw),
    {
        CellRendererState { bits: raw & Self::ALL }
    }

    /// Encodes the set for the native side: its bits.
    pub fn into_glib(self) -> (raw: u32)
        ensures
            raw == self@,
    {
        self.bits
    }

    /// The bits of the set.
    pub fn bits(&self) -> (bits: u32)
        ensures
            bits == self@,
    {
        self.bits
    }

    /// Whether every bit of `flags` is in the set.
    pub fn contains(&self, flags: u32) -> (held: bool)
        ensures
            held == (self@ & flags == flags),
    {
        self.bits & flags == flags
    }
}

/// A rectangle in widget coordinates.
#[derive(Clone, Copy, Debug, PartialEq, Eq, Structural)]
pub struct Rectangle {
    pub x: i32,
    pub y: i32,
    pub width: i32,
    pub height: i32,
}

/// A cell area, by the address of its native instance.
///
/// A handle is not `Clone`: one that is passed by reference is borrowed for
/// the call, one that is passed by value is owned by whoever receives it.
#[derive(Debug, PartialEq, Eq)]
pub struct CellArea {
    pub ptr: usize,
}

/// The context of a cell area, by the address of its native instance.
#[derive(Debug, PartialEq, Eq)]
pub struct CellAreaContext {
    pub ptr: usize,
}

/// A cell renderer, by the address of its native instance.
#[derive(Debug, PartialEq, Eq)]
pub struct CellRenderer {
    pub ptr: usize,
}

/// A widget, by the address of its native instance.
#[derive(Debug, PartialEq, Eq)]
pub struct Widget {
    pub ptr: usize,
}

/// A tree model, by the address of its native instance.
#[derive(Debug, PartialEq, Eq)]
pub struct TreeModel {
    pub ptr: usize,
}

/// A position in a tree model, by the address of the native record.
#[derive(Debug, PartialEq, Eq)]
pub struct TreeIter {
    pub ptr: usize,
}

/// A snapshot under construction, by the address of its native instance.
#[derive(Debug, PartialEq, Eq)]
pub struct Snapshot {
    pub ptr: usize,
}

/// An input event, by the address of its native instance.
#[derive(Debug, PartialEq, Eq)]
pub struct Event {
    pub ptr: usize,
}

/// The kinds of content that a [`Value`] can be tagged with.
#[derive(Clone, Copy, Debug, PartialEq, Eq, Structural)]
pub enum ValueKind {
    Boolean,
    Int,
    UInt,
    Object,
    /// Any kind that has no name here.
    Other,
}

/// A value of the toolkit's generic container: a tag that says what kind of
/// content the value has, and the content. A value is not `Clone`: whoever
/// holds it owns what the content refers to.
#[derive(Debug, PartialEq, Eq)]
pub enum Value {
    Boolean(bool),
    Int(i32),
    UInt(u32),
    /// An object, by the address of its native instance.
    Object(usize),
    /// Content of a kind that has no name here: the toolkit's number for
    /// the kind and the two words of the content as they are.
    Other { g_type: usize, data: (u64, u64) },
}

/// The failure of reading a value as a kind that it is not tagged with.
#[derive(Clone, Copy, Debug, PartialEq, Eq, Structural)]
pub struct ValueTypeMismatchError {
    /// The kind that the value is tagged with.
    pub actual: ValueKind,
    /// The kind that the caller asked for.
    pub requested: ValueKind,
}

impl Value {
    /// The kind that the value is tagged with.
    pub open spec fn kind_spec(&self) -> ValueKind {
        match self {
            Value::Boolean(_) => ValueKind::Boolean,
            Value::Int(_) => ValueKind::Int,
            Value::UInt(_) => ValueKind::UInt,
            Value::Object(_) => ValueKind::Object,
            Value::Other { .. } => ValueKind::Other,
        }
    }

    /// The kind that the value is tagged with.
    pub fn kind(&self) -> (kind: ValueKind)
        ensures
            kind == self.kind_spec(),
    {
        match self {
            Value::Boolean(_) => ValueKind::Boolean,
            Value::Int(_) => ValueKind::Int,
            Value::UInt(_) => ValueKind::UInt,
            Value::Object(_) => ValueKind::Object,
            Value::Other { .. } => ValueKind::Other,
        }
    }

    /// Reads the value as a truth value. Fails, naming both kinds, when the
    /// value is tagged as anything else.
    pub fn get_boolean(&self) -> (content: Result<bool, ValueTypeMismatchError>)
        ensures
            content == (match *self {
                Value::Boolean(b) => Ok::<bool, ValueTypeMismatchError>(b),
                _ => Err(
                    ValueTypeMismatchError {
                        actual: self.kind_spec(),
                        requested: ValueKind::Boolean,
                    },
                ),
            }),
    {
        match self {
            Value::Boolean(b) => Ok(*b),
            _ => Err(ValueTypeMismatchError { actual: self.kind(), requested: ValueKind::Boolean }),
        }
    }

    /// Reads the value as a signed number. Fails, naming both kinds, when
    /// the value is tagged as anything else.
    pub fn get_int(&self) -> (content: Result<i32, ValueTypeMismatchError>)
        ensures
            content == (match *self {
                Value::Int(n) => Ok::<i32, ValueTypeMismatchError>(n),
                _ => Err(
                    ValueTypeMismatchError { actual: self.kind_spec(), requested: ValueKind::Int },
                ),
            }),
    {
        match self {
            Value::Int(n) => Ok(*n),
            _ => Err(ValueTypeMismatchError { actual: self.kind(), requested: ValueKind::Int }),
        }
    }

    /// Reads the value as an unsigned number. Fails, naming both kinds, when
    /// the value is tagged as anything else.
    pub fn get_uint(&self) -> (content: Result<u32, ValueTypeMismatchError>)
        ensures
            content == (match *self {
                Value::UInt(n) => Ok::<u32, ValueTypeMismatchError>(n),
                _ => Err(
                    ValueTypeMismatchError { actual: self.kind_spec(), requested: ValueKind::UInt },
                ),
            }),
    {
        match self {
            Value::UInt(n) => Ok(*n),
            _ => Err(ValueTypeMismatchError { actual: self.kind(), requested: ValueKind::UInt }),
        }
    }

    /// Reads the value as the address of an object. Fails, naming both
    /// kinds, when the value is tagged as anything else.
    pub fn get_object(&self) -> (content: Result<usize, ValueTypeMismatchError>)
        ensures
            content == (match *self {
                Value::Object(ptr) => Ok::<usize, ValueTypeMismatchError>(ptr),
                _ => Err(
                    ValueTypeMismatchError {
                        actual: self.kind_spec(),
                        requested: ValueKind::Object,
                    },
                ),
            }),
    {
        match self {
            Value::Object(ptr) => Ok(*ptr),
            _ => Err(ValueTypeMismatchError { actual: self.kind(), requested: ValueKind::Object }),
        }
    }
}

/// The address that hands an optional owned context to the native side: the
/// context's own, or null where there is none.
pub open spec fn context_to_glib_full(context: Option<CellAreaContext>) -> usize {
    match context {
        Some(c) => c.ptr,
        None => 0,
    }
}

/// Stores `value` through an out-parameter, unless the pointer is null.
pub fn store(out: Option<&mut libc::c_int>, value: libc::c_int)
    ensures
        out matches Some(cell) ==> *final(cell) == value,
{
    match out {
        Some(cell) => {
            *cell = value;
        },
        None => {},
    }
}

/// Decoding and encoding a truth value gives the truth value back, and
/// encoding what was decoded gives `GTRUE` for every number but `GFALSE`.
pub proof fn law_bool_round_trip(value: bool, raw: Gboolean)
    ensures
        bool_of_glib(glib_of_bool(value)) == value,
        glib_of_bool(bool_of_glib(raw)) == (if raw == GFALSE { GFALSE } else { GTRUE }),
{
}

/// Every native direction survives decoding and encoding unchanged, and so
/// does every direction that decoding can produce.
pub proof fn law_direction_round_trip(raw: i32, direction: DirectionType)
    ensures
        DirectionType::of_glib(raw).to_glib() == raw,
        DirectionType::of_glib(raw).is_canonical(),
        direction.is_canonical() ==> DirectionType::of_glib(direction.to_glib()) == direction,
{
}

/// Every native size request mode survives decoding and encoding unchanged,
/// and so does every mode that decoding can produce.
pub proof fn law_mode_round_trip(raw: i32, mode: SizeRequestMode)
    ensures
        SizeRequestMode::of_glib(raw).to_glib() == raw,
        SizeRequestMode::of_glib(raw).is_canonical(),
        mode.is_canonical() ==> SizeRequestMode::of_glib(mode.to_glib()) == mode,
{
}

/// The set that native flags stand for holds the named bits among them and
/// no others. Native flags made of named bits survive decoding and encoding
/// unchanged, and two sets with the same bits are the same set.
pub proof fn law_flags_round_trip(raw: u32, state: CellRendererState)
    ensures
        CellRendererState::of_glib(raw)@ == CellRendererState::named_bits(raw),
        CellRendererState::named_bits(raw) <= CellRendererState::ALL,
        raw <= CellRendererState::ALL ==> CellRendererState::of_glib(raw)@ == raw,
        state@ <= CellRendererState::ALL ==> CellRendererState::of_glib(state@) == state,
{
    assert(raw <= 127 ==> raw & 127 == raw) by (bit_vector);
    assert(raw & 127 <= 127) by (bit_vector);
    let bits = state@;
    assert(bits <= 127 ==> bits & 127 == bits) by (bit_vector);
}

} // verus!
