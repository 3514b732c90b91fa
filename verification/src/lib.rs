//! A subclassing bridge for the cell-area base class of a native widget
//! toolkit.
//!
//! The toolkit dispatches the virtual methods of a class through a table of
//! functions, one slot per method. A managed type acts as a subclass by
//! supplying a [`CellAreaImpl`](imp::CellAreaImpl). The bridge
//!
//! * builds the table of the new class when the class is registered: a copy
//!   of the parent's table with a trampoline in the slot of every method
//!   that the type overrides ([`class`], [`registry`]);
//! * adapts a call that arrives through such a slot into a call on the
//!   implementation and encodes the answer again ([`trampoline`]);
//! * lets an override call what the parent class provides for the same
//!   method ([`parent`]);
//! * pairs the native per-cell callback of the two iteration methods with
//!   its argument ([`callback`]).
//!
//! Pointers cross the boundary as addresses and native functions as function
//! values; the encodings of truth values, enumerations and flags are in
//! [`translate`]. The slot `Trampoline(id)` of a method stands for the
//! function of that method's name in [`trampoline`], applied to the
//! implementation that belongs to the instance of the class `id`.
pub mod callback;
pub mod class;
pub mod imp;
pub mod parent;
pub mod registry;
pub mod trampoline;
pub mod translate;
