//! Calling what the parent class provides.
//!
//! An override that extends the behaviour of the parent class, rather than
//! replacing it, calls the parent's function for the same method. It is
//! handed the parent's slot for that: the function of the parent class if
//! there is one, taken from the parent's table and never from the table of
//! the class that makes the call. The accessors here encode the arguments,
//! call the function and decode the answer.
//!
//! Where the slot is empty, a method that a parent may leave out answers
//! with a fixed default: `false` for the questions, nothing done for the
//! rest. The methods that every parent is bound to provide have no default:
//! their accessors demand the function.
use crate::callback::{CellCallback, CellCallbackAllocate};
use crate::translate::{
    bool_from_glib, bool_into_glib, bool_of_glib, glib_of_bool, CellArea, CellAreaContext,
    CellRenderer, CellRendererState, DirectionType, Event, Gboolean, Rectangle, SizeRequestMode,
    Snapshot, TreeIter, TreeModel, Widget,
};
use vstd::prelude::*;

verus! {

/// The parent calls of a cell-area implementation, one per virtual method.
///
/// Every type has them, whatever else it implements: a parent call reads
/// nothing of `self` and can call nothing of it, only the function in the
/// slot that it is given. So a parent call never leads back into the
/// implementation that makes it.
pub trait CellAreaImplExt {
    /// Asks the parent class to activate the cell at `area`. Answers whether
    /// the parent handled the activation; `false` where the parent has no
    /// function.
    fn parent_activate<F: Fn(usize, usize, usize, Rectangle, u32, Gboolean) -> Gboolean>(
        &self,
        parent: &Option<F>,
        cell_area: &CellArea,
        context: &CellAreaContext,
        widget: &Widget,
        area: &Rectangle,
        flags: CellRendererState,
        edit_only: bool,
    ) -> (handled: bool)
        requires
            parent matches Some(f) ==> call_requires(
                *f,
                (cell_area.ptr, context.ptr, widget.ptr, *area, flags@, glib_of_bool(edit_only)),
            ),
        ensures
            (match *parent {
                Some(f) => exists|raw: Gboolean| #[trigger]
                    call_ensures(
                        f,
                        (
                            cell_area.ptr,
                            context.ptr,
                            widget.ptr,
                            *area,
                            flags@,
                            glib_of_bool(edit_only),
                        ),
                        raw,
                    ) && handled == bool_of_glib(raw),
                None => !handled,
            }),
    ;

    /// Asks the parent class to add `renderer` to the area. Nothing is done
    /// where the parent has no function.
    fn parent_add<F: Fn(usize, usize)>(
        &self,
        parent: &Option<F>,
        cell_area: &CellArea,
        renderer: &CellRenderer,
    )
        requires
            parent matches Some(f) ==> call_requires(*f, (cell_area.ptr, renderer.ptr)),
        ensures
            parent matches Some(f) ==> call_ensures(*f, (cell_area.ptr, renderer.ptr), ()),
    ;

    /// Asks the parent class to apply the attributes of the row at `iter`
    /// to the cells. Nothing is done where the parent has no function.
    fn parent_apply_attributes<F: Fn(usize, usize, usize, Gboolean, Gboolean)>(
        &self,
        parent: &Option<F>,
        cell_area: &CellArea,
        tree_model: &TreeModel,
        iter: &TreeIter,
        is_expander: bool,
        is_expanded: bool,
    )
        requires
            parent matches Some(f) ==> call_requires(
                *f,
                (
                    cell_area.ptr,
                    tree_model.ptr,
                    iter.ptr,
                    glib_of_bool(is_expander),
                    glib_of_bool(is_expanded),
                ),
            ),
        ensures
            parent matches Some(f) ==> call_ensures(
                *f,
                (
                    cell_area.ptr,
                    tree_model.ptr,
                    iter.ptr,
                    glib_of_bool(is_expander),
                    glib_of_bool(is_expanded),
                ),
                (),
            ),
    ;

    /// Asks the parent class for a new context. Every parent class is bound
    /// to provide the function; the caller owns the context that it returns.
    fn parent_create_context<F: Fn(usize) -> usize>(
        &self,
        parent: &Option<F>,
        cell_area: &CellArea,
    ) -> (context: Option<CellAreaContext>)
        requires
            *parent matches Some(f) && call_requires(f, (cell_area.ptr,)),
        ensures
            exists|ret: usize| #[trigger]
                call_ensures(parent->0, (cell_area.ptr,), ret) && context == Some(
                    CellAreaContext { ptr: ret },
                ),
    ;

    /// Asks the parent class for a copy of `context`. Every parent class is
    /// bound to provide the function; the caller owns the context that it
    /// returns.
    fn parent_copy_context<F: Fn(usize, usize) -> usize>(
        &self,
        parent: &Option<F>,
        cell_area: &CellArea,
        context: &CellAreaContext,
    ) -> (copy: Option<CellAreaContext>)
        requires
            *parent matches Some(f) && call_requires(f, (cell_area.ptr, context.ptr)),
        ensures
            exists|ret: usize| #[trigger]
                call_ensures(parent->0, (cell_area.ptr, context.ptr), ret) && copy == Some(
                    CellAreaContext { ptr: ret },
                ),
    ;

    /// Hands an event to the parent class. Answers whether the parent
    /// handled the event; `false` where the parent has no function.
    fn parent_event<F: Fn(usize, usize, usize, usize, Rectangle, u32) -> Gboolean>(
        &self,
        parent: &Option<F>,
        cell_area: &CellArea,
        context: &CellAreaContext,
        widget: &Widget,
        event: &Event,
        area: &Rectangle,
        flags: CellRendererState,
    ) -> (handled: bool)
        requires
            parent matches Some(f) ==> call_requires(
                *f,
                (cell_area.ptr, context.ptr, widget.ptr, event.ptr, *area, flags@),
            ),
        ensures
            (match *parent {
                Some(f) => exists|raw: Gboolean| #[trigger]
                    call_ensures(
                        f,
                        (cell_area.ptr, context.ptr, widget.ptr, event.ptr, *area, flags@),
                        raw,
                    ) && handled == bool_of_glib(raw),
                None => !handled,
            }),
    ;

    /// Asks the parent class to run the callback for each of its cells.
    /// The parent's function receives the native function and the argument
    /// as the wrapper holds them. Nothing is done where the parent has no
    /// function.
    fn parent_foreach<C: Fn(usize, usize) -> Gboolean, F: Fn(usize, &Option<C>, usize)>(
        &self,
        parent: &Option<F>,
        cell_area: &CellArea,
        callback: &CellCallback<C>,
    )
        requires
            parent matches Some(f) ==> call_requires(
                *f,
                (cell_area.ptr, &callback.callback_spec(), callback.user_data_spec()),
            ),
        ensures
            parent matches Some(f) ==> call_ensures(
                *f,
                (cell_area.ptr, &callback.callback_spec(), callback.user_data_spec()),
                (),
            ),
    ;

    /// Asks the parent class to run the callback for each of its cells, with
    /// the place that each cell gets inside `area`. The parent's function
    /// receives the native function and the argument as the wrapper holds
    /// them. Nothing is done where the parent has no function.
    fn parent_foreach_alloc<
        C: Fn(usize, Rectangle, Rectangle, usize) -> Gboolean,
        F: Fn(usize, usize, usize, Rectangle, Rectangle, &Option<C>, usize),
    >(
        &self,
        parent: &Option<F>,
        cell_area: &CellArea,
        context: &CellAreaContext,
        widget: &Widget,
        area: &Rectangle,
        bg_area: &Rectangle,
        callback: &CellCallbackAllocate<C>,
    )
        requires
            parent matches Some(f) ==> call_requires(
                *f,
                (
                    cell_area.ptr,
                    context.ptr,
                    widget.ptr,
                    *area,
                    *bg_area,
                    &callback.callback_spec(),
                    callback.user_data_spec(),
                ),
            ),
        ensures
            parent matches Some(f) ==> call_ensures(
                *f,
                (
                    cell_area.ptr,
                    context.ptr,
                    widget.ptr,
                    *area,
                    *bg_area,
                    &callback.callback_spec(),
                    callback.user_data_spec(),
                ),
                (),
            ),
    ;

    /// Asks the parent class to remove `renderer` from the area. Nothing is
    /// done where the parent has no function.
    fn parent_remove<F: Fn(usize, usize)>(
        &self,
        parent: &Option<F>,
        cell_area: &CellArea,
        renderer: &CellRenderer,
    )
        requires
            parent matches Some(f) ==> call_requires(*f, (cell_area.ptr, renderer.ptr)),
        ensures
            parent matches Some(f) ==> call_ensures(*f, (cell_area.ptr, renderer.ptr), ()),
    ;

    /// Asks the parent class whether the area can be activated; `false`
    /// where the parent has no function.
    fn parent_is_activatable<F: Fn(usize) -> Gboolean>(
        &self,
        parent: &Option<F>,
        cell_area: &CellArea,
    ) -> (activatable: bool)
        requires
            parent matches Some(f) ==> call_requires(*f, (cell_area.ptr,)),
        ensures
            (match *parent {
                Some(f) => exists|raw: Gboolean| #[trigger]
                    call_ensures(f, (cell_area.ptr,), raw) && activatable == bool_of_glib(raw),
                None => !activatable,
            }),
    ;

    /// Asks the parent class to move the focus. Answers whether the focus
    /// stayed inside the area; `false` where the parent has no function.
    fn parent_focus<F: Fn(usize, i32) -> Gboolean>(
        &self,
        parent: &Option<F>,
        cell_area: &CellArea,
        direction_type: DirectionType,
    ) -> (kept: bool)
        requires
            parent matches Some(f) ==> call_requires(
                *f,
                (cell_area.ptr, direction_type.to_glib()),
            ),
        ensures
            (match *parent {
                Some(f) => exists|raw: Gboolean| #[trigger]
                    call_ensures(f, (cell_area.ptr, direction_type.to_glib()), raw) && kept
                        == bool_of_glib(raw),
                None => !kept,
            }),
    ;

    /// Asks the parent class for its size request mode. Every parent class
    /// is bound to provide the function.
    fn parent_request_mode<F: Fn(usize) -> i32>(
        &self,
        parent: &Option<F>,
        cell_area: &CellArea,
    ) -> (mode: SizeRequestMode)
        requires
            *parent matches Some(f) && call_requires(f, (cell_area.ptr,)),
        ensures
            exists|raw: i32| #[trigger]
                call_ensures(parent->0, (cell_area.ptr,), raw) && mode == SizeRequestMode::of_glib(
                    raw,
                ),
    ;

    /// Asks the parent class for the minimum and the natural width of the
    /// area: the two numbers that the parent's function stores, in that
    /// order. Every parent class is bound to provide the function.
    fn parent_preferred_width<F: Fn(usize, usize, usize) -> (libc::c_int, libc::c_int)>(
        &self,
        parent: &Option<F>,
        cell_area: &CellArea,
        cell_area_context: &CellAreaContext,
        widget: &Widget,
    ) -> (sizes: (i32, i32))
        requires
            *parent matches Some(f) && call_requires(
                f,
                (cell_area.ptr, cell_area_context.ptr, widget.ptr),
            ),
        ensures
            call_ensures(parent->0, (cell_area.ptr, cell_area_context.ptr, widget.ptr), sizes),
    ;

    /// Asks the parent class for the minimum and the natural height of the
    /// area: the two numbers that the parent's function stores, in that
    /// order. Every parent class is bound to provide the function.
    fn parent_preferred_height<F: Fn(usize, usize, usize) -> (libc::c_int, libc::c_int)>(
        &self,
        parent: &Option<F>,
        cell_area: &CellArea,
        cell_area_context: &CellAreaContext,
        widget: &Widget,
    ) -> (sizes: (i32, i32))
        requires
            *parent matches Some(f) && call_requires(
                f,
                (cell_area.ptr, cell_area_context.ptr, widget.ptr),
            ),
        ensures
            call_ensures(parent->0, (cell_area.ptr, cell_area_context.ptr, widget.ptr), sizes),
    ;

    /// Asks the parent class for the minimum and the natural width of the
    /// area at the given height. Every parent class is bound to provide the
    /// function.
    fn parent_preferred_width_for_height<
        F: Fn(usize, usize, usize, libc::c_int) -> (libc::c_int, libc::c_int),
    >(
        &self,
        parent: &Option<F>,
        cell_area: &CellArea,
        cell_area_context: &CellAreaContext,
        widget: &Widget,
        height: i32,
    ) -> (sizes: (i32, i32))
        requires
            *parent matches Some(f) && call_requires(
                f,
                (cell_area.ptr, cell_area_context.ptr, widget.ptr, height),
            ),
        ensures
            call_ensures(
                parent->0,
                (cell_area.ptr, cell_area_context.ptr, widget.ptr, height),
                sizes,
            ),
    ;

    /// Asks the parent class for the minimum and the natural height of the
    /// area at the given width. Every parent class is bound to provide the
    /// function.
    fn parent_preferred_height_for_width<
        F: Fn(usize, usize, usize, libc::c_int) -> (libc::c_int, libc::c_int),
    >(
        &self,
        parent: &Option<F>,
        cell_area: &CellArea,
        cell_area_context: &CellAreaContext,
        widget: &Widget,
        width: i32,
    ) -> (sizes: (i32, i32))
        requires
            *parent matches Some(f) && call_requires(
                f,
                (cell_area.ptr, cell_area_context.ptr, widget.ptr, width),
            ),
        ensures
            call_ensures(
                parent->0,
                (cell_area.ptr, cell_area_context.ptr, widget.ptr, width),
                sizes,
            ),
    ;

    /// Asks the parent class to draw the cells into `snapshot`. The parent's
    /// function takes the widget before the snapshot. Nothing is done where
    /// the parent has no function.
    fn parent_snapshot<
        F: Fn(usize, usize, usize, usize, Rectangle, Rectangle, u32, Gboolean),
    >(
        &self,
        parent: &Option<F>,
        cell_area: &CellArea,
        context: &CellAreaContext,
        snapshot: &Snapshot,
        widget: &Widget,
        background_area: &Rectangle,
        cellarea: &Rectangle,
        flags: CellRendererState,
        paint_focus: bool,
    )
        requires
            parent matches Some(f) ==> call_requires(
                *f,
                (
                    cell_area.ptr,
                    context.ptr,
                    widget.ptr,
                    snapshot.ptr,
                    *background_area,
                    *cellarea,
                    flags@,
                    glib_of_bool(paint_focus),
                ),
            ),
        ensures
            parent matches Some(f) ==> call_ensures(
                *f,
                (
                    cell_area.ptr,
                    context.ptr,
                    widget.ptr,
                    snapshot.ptr,
                    *background_area,
                    *cellarea,
                    flags@,
                    glib_of_bool(paint_focus),
                ),
                (),
            ),
    ;
}

impl<T> CellAreaImplExt for T {
    fn parent_activate<F: Fn(usize, usize, usize, Rectangle, u32, Gboolean) -> Gboolean>(
        &self,
        parent: &Option<F>,
        cell_area: &CellArea,
        context: &CellAreaContext,
        widget: &Widget,
        area: &Rectangle,
        flags: CellRendererState,
        edit_only: bool,
    ) -> (handled: bool) {
        match parent {
            Some(f) => {
                let raw: Gboolean = f(
                    cell_area.ptr,
                    context.ptr,
                    widget.ptr,
                    *area,
                    flags.into_glib(),
                    bool_into_glib(edit_only),
                );
                bool_from_glib(raw)
            },
            None => false,
        }
    }

    fn parent_add<F: Fn(usize, usize)>(
        &self,
        parent: &Option<F>,
        cell_area: &CellArea,
        renderer: &CellRenderer,
    ) {
        match parent {
            Some(f) => {
                f(cell_area.ptr, renderer.ptr)
            },
            None => {},
        }
    }

    fn parent_apply_attributes<F: Fn(usize, usize, usize, Gboolean, Gboolean)>(
        &self,
        parent: &Option<F>,
        cell_area: &CellArea,
        tree_model: &TreeModel,
        iter: &TreeIter,
        is_expander: bool,
        is_expanded: bool,
    ) {
        match parent {
            Some(f) => {
                f(
                    cell_area.ptr,
                    tree_model.ptr,
                    iter.ptr,
                    bool_into_glib(is_expander),
                    bool_into_glib(is_expanded),
                )
            },
            None => {},
        }
    }

    fn parent_create_context<F: Fn(usize) -> usize>(
        &self,
        parent: &Option<F>,
        cell_area: &CellArea,
    ) -> (context: Option<CellAreaContext>) {
        let f = parent.as_ref().expect("No parent class impl for \"create_context\"");
        let ret: usize = f(cell_area.ptr);
        Some(CellAreaContext { ptr: ret })
    }

    fn parent_copy_context<F: Fn(usize, usize) -> usize>(
        &self,
        parent: &Option<F>,
        cell_area: &CellArea,
        context: &CellAreaContext,
    ) -> (copy: Option<CellAreaContext>) {
        let f = parent.as_ref().expect("No parent class impl for \"copy_context\"");
        let ret: usize = f(cell_area.ptr, context.ptr);
        Some(CellAreaContext { ptr: ret })
    }

    fn parent_event<F: Fn(usize, usize, usize, usize, Rectangle, u32) -> Gboolean>(
        &self,
        parent: &Option<F>,
        cell_area: &CellArea,
        context: &CellAreaContext,
        widget: &Widget,
        event: &Event,
        area: &Rectangle,
        flags: CellRendererState,
    ) -> (handled: bool) {
        match parent {
            Some(f) => {
                let raw: Gboolean = f(
                    cell_area.ptr,
                    context.ptr,
                    widget.ptr,
                    event.ptr,
                    *area,
                    flags.into_glib(),
                );
                bool_from_glib(raw)
            },
            None => {
                // returns true only if the event is handled
                false
            },
        }
    }

    fn parent_foreach<C: Fn(usize, usize) -> Gboolean, F: Fn(usize, &Option<C>, usize)>(
        &self,
        parent: &Option<F>,
        cell_area: &CellArea,
        callback: &CellCallback<C>,
    ) {
        match parent {
            Some(f) => {
                f(cell_area.ptr, callback.callback(), callback.user_data())
            },
            None => {},
        }
    }

    fn parent_foreach_alloc<
        C: Fn(usize, Rectangle, Rectangle, usize) -> Gboolean,
        F: Fn(usize, usize, usize, Rectangle, Rectangle, &Option<C>, usize),
    >(
        &self,
        parent: &Option<F>,
        cell_area: &CellArea,
        context: &CellAreaContext,
        widget: &Widget,
        area: &Rectangle,
        bg_area: &Rectangle,
        callback: &CellCallbackAllocate<C>,
    ) {
        match parent {
            Some(f) => {
                f(
                    cell_area.ptr,
                    context.ptr,
                    widget.ptr,
                    *area,
                    *bg_area,
                    callback.callback(),
                    callback.user_data(),
                )
            },
            None => {},
        }
    }

    fn parent_remove<F: Fn(usize, usize)>(
        &self,
        parent: &Option<F>,
        cell_area: &CellArea,
        renderer: &CellRenderer,
    ) {
        match parent {
            Some(f) => {
                f(cell_area.ptr, renderer.ptr)
            },
            None => {},
        }
    }

    fn parent_is_activatable<F: Fn(usize) -> Gboolean>(
        &self,
        parent: &Option<F>,
        cell_area: &CellArea,
    ) -> (activatable: bool) {
        match parent {
            Some(f) => {
                let raw: Gboolean = f(cell_area.ptr);
                bool_from_glib(raw)
            },
            None => false,
        }
    }

    fn parent_focus<F: Fn(usize, i32) -> Gboolean>(
        &self,
        parent: &Option<F>,
        cell_area: &CellArea,
        direction_type: DirectionType,
    ) -> (kept: bool) {
        match parent {
            Some(f) => {
                let raw: Gboolean = f(cell_area.ptr, direction_type.into_glib());
                bool_from_glib(raw)
            },
            None => false,
        }
    }

    fn parent_request_mode<F: Fn(usize) -> i32>(
        &self,
        parent: &Option<F>,
        cell_area: &CellArea,
    ) -> (mode: SizeRequestMode) {
        let f = parent.as_ref().expect("No parent class impl for \"get_request_mode\"");
        let raw: i32 = f(cell_area.ptr);
        SizeRequestMode::from_glib(raw)
    }

    fn parent_preferred_width<F: Fn(usize, usize, usize) -> (libc::c_int, libc::c_int)>(
        &self,
        parent: &Option<F>,
        cell_area: &CellArea,
        cell_area_context: &CellAreaContext,
        widget: &Widget,
    ) -> (sizes: (i32, i32)) {
        let f = parent.as_ref().unwrap();
        let (minimum_size, natural_size) = f(cell_area.ptr, cell_area_context.ptr, widget.ptr);
        (minimum_size, natural_size)
    }

    fn parent_preferred_height<F: Fn(usize, usize, usize) -> (libc::c_int, libc::c_int)>(
        &self,
        parent: &Option<F>,
        cell_area: &CellArea,
        cell_area_context: &CellAreaContext,
        widget: &Widget,
    ) -> (sizes: (i32, i32)) {
        let f = parent.as_ref().unwrap();
        let (minimum_size, natural_size) = f(cell_area.ptr, cell_area_context.ptr, widget.ptr);
        (minimum_size, natural_size)
    }

    fn parent_preferred_width_for_height<
        F: Fn(usize, usize, usize, libc::c_int) -> (libc::c_int, libc::c_int),
    >(
        &self,
        parent: &Option<F>,
        cell_area: &CellArea,
        cell_area_context: &CellAreaContext,
        widget: &Widget,
        height: i32,
    ) -> (sizes: (i32, i32)) {
        let f = parent.as_ref().unwrap();
        let (minimum_size, natural_size) = f(
            cell_area.ptr,
            cell_area_context.ptr,
            widget.ptr,
            height,
        );
        (minimum_size, natural_size)
    }

    fn parent_preferred_height_for_width<
        F: Fn(usize, usize, usize, libc::c_int) -> (libc::c_int, libc::c_int),
    >(
        &self,
        parent: &Option<F>,
        cell_area: &CellArea,
        cell_area_context: &CellAreaContext,
        widget: &Widget,
        width: i32,
    ) -> (sizes: (i32, i32)) {
        let f = parent.as_ref().unwrap();
        let (minimum_size, natural_size) = f(
            cell_area.ptr,
            cell_area_context.ptr,
            widget.ptr,
            width,
        );
        (minimum_size, natural_size)
    }

    fn parent_snapshot<
        F: Fn(usize, usize, usize, usize, Rectangle, Rectangle, u32, Gboolean),
    >(
        &self,
        parent: &Option<F>,
        cell_area: &CellArea,
        context: &CellAreaContext,
        snapshot: &Snapshot,
        widget: &Widget,
        background_area: &Rectangle,
        cellarea: &Rectangle,
        flags: CellRendererState,
        paint_focus: bool,
    ) {
        match parent {
            Some(f) => {
                f(
                    cell_area.ptr,
                    context.ptr,
                    widget.ptr,
                    snapshot.ptr,
                    *background_area,
                    *cellarea,
                    flags.into_glib(),
                    bool_into_glib(paint_focus),
                )
            },
            None => {},
        }
    }
}

} // verus!
