//! The per-cell callbacks of the two iteration methods.
//!
//! The toolkit iterates over the cells of an area by calling the area's
//! `foreach` method with a function and an opaque argument for it. The
//! wrappers here pair the two, so that an implementation can invoke the
//! function for each of its cells without seeing the argument. A wrapper is
//! good for the one call that it was made for.
use crate::translate::{bool_from_glib, bool_of_glib, CellRenderer, Gboolean, Rectangle};
use vstd::prelude::*;

verus! {

/// A native per-cell callback with the argument that goes with it.
///
/// The function, if any, takes the address of a cell renderer and the
/// argument, and answers with a native truth value: true to stop iterating.
#[derive(Debug)]
pub struct CellCallback<C> {
    callback: Option<C>,
    user_data: usize,
}

impl<C: Fn(usize, usize) -> Gboolean> CellCallback<C> {
    /// The native function, if there is one.
    pub closed spec fn callback_spec(&self) -> Option<C> {
        self.callback
    }

    /// The argument that every call hands to the native function.
    pub closed spec fn user_data_spec(&self) -> usize {
        self.user_data
    }

    /// Whether `stop` is an answer that a call for `cell_renderer` can give:
    /// the decoding of what the native function returns for the renderer's
    /// address and the stored argument, and `true` where there is no function.
    pub open spec fn answers(&self, cell_renderer: &CellRenderer, stop: bool) -> bool {
        match self.callback_spec() {
            Some(f) => exists|raw: Gboolean| #[trigger]
                call_ensures(f, (cell_renderer.ptr, self.user_data_spec()), raw) && stop
                    == bool_of_glib(raw),
            None => stop,
        }
    }

    /// Pairs a native function with its argument.
    pub fn new(callback: Option<C>, user_data: usize) -> (wrapper: CellCallback<C>)
        ensures
            wrapper.callback_spec() == callback,
            wrapper.user_data_spec() == user_data,
    {
        CellCallback { callback, user_data }
    }

    /// The native function, if there is one.
    pub fn callback(&self) -> (callback: &Option<C>)
        ensures
            *callback == self.callback_spec(),
    {
        &self.callback
    }

    /// The argument that every call hands to the native function.
    pub fn user_data(&self) -> (user_data: usize)
        ensures
            user_data == self.user_data_spec(),
    {
        self.user_data
    }

    /// Invokes the callback for one cell renderer.
    ///
    /// The native function is called once, with the renderer's address and
    /// the stored argument, and its answer is decoded. Where there is no
    /// native function the answer is `true`, which stops the iteration.
    pub fn call(&self, cell_renderer: &CellRenderer) -> (stop: bool)
        requires
            self.callback_spec() matches Some(f) ==> call_requires(
                f,
                (cell_renderer.ptr, self.user_data_spec()),
            ),
        ensures
            self.answers(cell_renderer, stop),
    {
        match &self.callback {
            Some(callback) => {
                let raw: Gboolean = callback(cell_renderer.ptr, self.user_data);
                bool_from_glib(raw)
            },
            None => {
                // true to stop iterating over cells
                true
            },
        }
    }
}

/// A native per-cell callback that is also told where the cell lies, with
/// the argument that goes with it.
///
/// The function, if any, takes the address of a cell renderer, the cell's
/// area, the cell's background area and the argument, and answers with a
/// native truth value: true to stop iterating.
#[derive(Debug)]
pub struct CellCallbackAllocate<C> {
    callback: Option<C>,
    user_data: usize,
}

impl<C: Fn(usize, Rectangle, Rectangle, usize) -> Gboolean> CellCallbackAllocate<C> {
    /// The native function, if there is one.
    pub closed spec fn callback_spec(&self) -> Option<C> {
        self.callback
    }

    /// The argument that every call hands to the native function.
    pub closed spec fn user_data_spec(&self) -> usize {
        self.user_data
    }

    /// Whether `stop` is an answer that a call for `cell_renderer` and the
    /// two rectangles can give: the decoding of what the native function
    /// returns for them and the stored argument, and `true` where there is
    /// no function.
    pub open spec fn answers(
        &self,
        cell_renderer: &CellRenderer,
        cell_area: &Rectangle,
        cell_background: &Rectangle,
        stop: bool,
    ) -> bool {
        match self.callback_spec() {
            Some(f) => exists|raw: Gboolean| #[trigger]
                call_ensures(
                    f,
                    (cell_renderer.ptr, *cell_area, *cell_background, self.user_data_spec()),
                    raw,
                ) && stop == bool_of_glib(raw),
            None => stop,
        }
    }

    /// Pairs a native function with its argument.
    pub fn new(callback: Option<C>, user_data: usize) -> (wrapper: CellCallbackAllocate<C>)
        ensures
            wrapper.callback_spec() == callback,
            wrapper.user_data_spec() == user_data,
    {
        CellCallbackAllocate { callback, user_data }
    }

    /// The native function, if there is one.
    pub fn callback(&self) -> (callback: &Option<C>)
        ensures
            *callback == self.callback_spec(),
    {
        &self.callback
    }

    /// The argument that every call hands to the native function.
    pub fn user_data(&self) -> (user_data: usize)
        ensures
            user_data == self.user_data_spec(),
    {
        self.user_data
    }

    /// Invokes the callback for one cell renderer and the place of its cell.
    ///
    /// The native function is called once, with the renderer's address, the
    /// two rectangles and the stored argument, and its answer is decoded.
    /// Where there is no native function the answer is `true`, which stops
    /// the iteration.
    pub fn call(
        &self,
        cell_renderer: &CellRenderer,
        cell_area: &Rectangle,
        cell_background: &Rectangle,
    ) -> (stop: bool)
        requires
            self.callback_spec() matches Some(f) ==> call_requires(
                f,
                (cell_renderer.ptr, *cell_area, *cell_background, self.user_data_spec()),
            ),
        ensures
            self.answers(cell_renderer, cell_area, cell_background, stop),
    {
        match &self.callback {
            Some(callback) => {
                let raw: Gboolean = callback(
                    cell_renderer.ptr,
                    *cell_area,
                    *cell_background,
                    self.user_data,
                );
                bool_from_glib(raw)
            },
            None => {
                // true to stop iterating over cells
                true
            },
        }
    }
}

} // verus!
