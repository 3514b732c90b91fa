//! The trampolines: what stands in the slots of a managed class.
//!
//! A trampoline receives a call in native form. It is handed the
//! implementation that belongs to the instance, decodes the arguments, calls
//! the implementation's method once and encodes the answer. Each contract names that one call: the
//! implementation sees exactly the decoded arguments, and the native caller
//! gets exactly the encoding of what the implementation returned.
//!
//! Results that the native side takes through out-parameters are stored
//! only where the parameter is there: a null pointer is `None` and nothing
//! is written for it.
use crate::callback::{CellCallback, CellCallbackAllocate};
use crate::class::ParamSpec;
use crate::imp::CellAreaImpl;
use crate::translate::{
    bool_from_glib, bool_into_glib, bool_of_glib, context_to_glib_full, glib_of_bool, store,
    CellArea, CellAreaContext, CellRenderer, CellRendererState, DirectionType, Event, Gboolean,
    Rectangle, SizeRequestMode, Snapshot, TreeIter, TreeModel, Value, Widget,
};
use vstd::prelude::*;

verus! {

/// Sets a cell property: the implementation is handed the value as it is
/// and the identifier widened to `usize`.
pub fn cell_area_set_cell_property<T: CellAreaImpl>(
    imp: &T,
    ptr: usize,
    rendererptr: usize,
    id: u32,
    valueptr: &Value,
    pspecptr: usize,
)
    ensures
        call_ensures(
            T::set_cell_property,
            (
                imp,
                &CellArea { ptr },
                &CellRenderer { ptr: rendererptr },
                id as usize,
                valueptr,
                &ParamSpec { ptr: pspecptr },
            ),
            (),
        ),
{
    let wrap = CellArea { ptr };
    let renderer = CellRenderer { ptr: rendererptr };
    let pspec = ParamSpec { ptr: pspecptr };
    imp.set_cell_property(&wrap, &renderer, id as usize, valueptr, &pspec);
}

/// Gets a cell property: the value that the implementation returns replaces
/// what `valueptr` held.
pub fn cell_area_get_cell_property<T: CellAreaImpl>(
    imp: &T,
    ptr: usize,
    rendererptr: usize,
    id: u32,
    valueptr: &mut Value,
    pspecptr: usize,
)
    ensures
        call_ensures(
            T::cell_property,
            (
                imp,
                &CellArea { ptr },
                &CellRenderer { ptr: rendererptr },
                id as usize,
                &ParamSpec { ptr: pspecptr },
            ),
            *final(valueptr),
        ),
{
    let wrap = CellArea { ptr };
    let renderer = CellRenderer { ptr: rendererptr };
    let pspec = ParamSpec { ptr: pspecptr };
    let value = imp.cell_property(&wrap, &renderer, id as usize, &pspec);
    *valueptr = value;
}

/// Adds a renderer.
pub fn cell_area_add<T: CellAreaImpl>(
    imp: &T,
    ptr: usize,
    rendererptr: usize,
)
    ensures
        call_ensures(
            T::add,
            (imp, &CellArea { ptr }, &CellRenderer { ptr: rendererptr }),
            (),
        ),
{
    let wrap = CellArea { ptr };
    let renderer = CellRenderer { ptr: rendererptr };
    imp.add(&wrap, &renderer)
}

/// Applies the attributes of a row: the two native truth values are decoded.
pub fn cell_area_apply_attributes<T: CellAreaImpl>(
    imp: &T,
    ptr: usize,
    modelptr: usize,
    iterptr: usize,
    is_expander: Gboolean,
    is_expanded: Gboolean,
)
    ensures
        call_ensures(
            T::apply_attributes,
            (
                imp,
                &CellArea { ptr },
                &TreeModel { ptr: modelptr },
                &TreeIter { ptr: iterptr },
                bool_of_glib(is_expander),
                bool_of_glib(is_expanded),
            ),
            (),
        ),
{
    let wrap = CellArea { ptr };
    let model = TreeModel { ptr: modelptr };
    let iter = TreeIter { ptr: iterptr };
    imp.apply_attributes(&wrap,
        &model,
        &iter,
        bool_from_glib(is_expander),
        bool_from_glib(is_expanded),
    )
}

/// Removes a renderer.
pub fn cell_area_remove<T: CellAreaImpl>(
    imp: &T,
    ptr: usize,
    rendererptr: usize,
)
    ensures
        call_ensures(
            T::remove,
            (imp, &CellArea { ptr }, &CellRenderer { ptr: rendererptr }),
            (),
        ),
{
    let wrap = CellArea { ptr };
    let renderer = CellRenderer { ptr: rendererptr };
    imp.remove(&wrap, &renderer)
}

/// Asks whether the area can be activated and encodes the answer.
pub fn cell_area_is_activatable<T: CellAreaImpl>(
    imp: &T,
    ptr: usize,
) -> (ret: Gboolean)
    ensures
        exists|answer: bool| #[trigger]
            call_ensures(T::is_activatable, (imp, &CellArea { ptr }), answer) && ret
                == glib_of_bool(answer),
{
    let wrap = CellArea { ptr };
    bool_into_glib(imp.is_activatable(&wrap))
}

/// Moves the focus: the native direction is decoded and the answer encoded.
pub fn cell_area_focus<T: CellAreaImpl>(
    imp: &T,
    ptr: usize,
    directionptr: i32,
) -> (ret: Gboolean)
    ensures
        exists|answer: bool| #[trigger]
            call_ensures(
                T::focus,
                (imp, &CellArea { ptr }, DirectionType::of_glib(directionptr)),
                answer,
            ) && ret == glib_of_bool(answer),
{
    let wrap = CellArea { ptr };
    bool_into_glib(imp.focus(&wrap, DirectionType::from_glib(directionptr)))
}

/// Asks for the size request mode and encodes it.
pub fn cell_area_get_request_mode<T: CellAreaImpl>(
    imp: &T,
    ptr: usize,
) -> (ret: i32)
    ensures
        exists|mode: SizeRequestMode| #[trigger]
            call_ensures(T::request_mode, (imp, &CellArea { ptr }), mode) && ret
                == mode.to_glib(),
{
    let wrap = CellArea { ptr };
    imp.request_mode(&wrap).into_glib()
}

/// Asks for the preferred height and stores the minimum through `minptr`
/// and the natural height through `natptr`, each unless it is null.
pub fn cell_area_get_preferred_height<T: CellAreaImpl>(
    imp: &T,
    ptr: usize,
    contextptr: usize,
    wdgtptr: usize,
    minptr: Option<&mut libc::c_int>,
    natptr: Option<&mut libc::c_int>,
)
    ensures
        exists|sizes: (i32, i32)| #[trigger]
            call_ensures(
                T::preferred_height,
                (
                    imp,
                    &CellArea { ptr },
                    &CellAreaContext { ptr: contextptr },
                    &Widget { ptr: wdgtptr },
                ),
                sizes,
            ) && (minptr matches Some(minimum) ==> *final(minimum) == sizes.0) && (
            natptr matches Some(natural) ==> *final(natural) == sizes.1),
{
    let wrap = CellArea { ptr };
    let context = CellAreaContext { ptr: contextptr };
    let widget = Widget { ptr: wdgtptr };
    let (min_size, nat_size) = imp.preferred_height(&wrap, &context, &widget);
    store(minptr, min_size);
    store(natptr, nat_size);
}

/// Asks for the preferred width and stores the minimum through `minptr` and
/// the natural width through `natptr`, each unless it is null.
pub fn cell_area_get_preferred_width<T: CellAreaImpl>(
    imp: &T,
    ptr: usize,
    contextptr: usize,
    wdgtptr: usize,
    minptr: Option<&mut libc::c_int>,
    natptr: Option<&mut libc::c_int>,
)
    ensures
        exists|sizes: (i32, i32)| #[trigger]
            call_ensures(
                T::preferred_width,
                (
                    imp,
                    &CellArea { ptr },
                    &CellAreaContext { ptr: contextptr },
                    &Widget { ptr: wdgtptr },
                ),
                sizes,
            ) && (minptr matches Some(minimum) ==> *final(minimum) == sizes.0) && (
            natptr matches Some(natural) ==> *final(natural) == sizes.1),
{
    let wrap = CellArea { ptr };
    let context = CellAreaContext { ptr: contextptr };
    let widget = Widget { ptr: wdgtptr };
    let (min_size, nat_size) = imp.preferred_width(&wrap, &context, &widget);
    store(minptr, min_size);
    store(natptr, nat_size);
}

/// Asks for the preferred width at `height` and stores the minimum through
/// `min_width_ptr` and the natural width through `nat_width_ptr`, each
/// unless it is null.
pub fn cell_area_get_preferred_width_for_height<T: CellAreaImpl>(
    imp: &T,
    ptr: usize,
    contextptr: usize,
    wdgtptr: usize,
    height: i32,
    min_width_ptr: Option<&mut libc::c_int>,
    nat_width_ptr: Option<&mut libc::c_int>,
)
    ensures
        exists|sizes: (i32, i32)| #[trigger]
            call_ensures(
                T::preferred_width_for_height,
                (
                    imp,
                    &CellArea { ptr },
                    &CellAreaContext { ptr: contextptr },
                    &Widget { ptr: wdgtptr },
                    height,
                ),
                sizes,
            ) && (min_width_ptr matches Some(minimum) ==> *final(minimum) == sizes.0) && (
            nat_width_ptr matches Some(natural) ==> *final(natural) == sizes.1),
{
    let wrap = CellArea { ptr };
    let context = CellAreaContext { ptr: contextptr };
    let widget = Widget { ptr: wdgtptr };
    let (min_width, nat_width) = imp.preferred_width_for_height(&wrap,
        &context,
        &widget,
        height,
    );
    store(min_width_ptr, min_width);
    store(nat_width_ptr, nat_width);
}

/// Asks for the preferred height at `width` and stores the minimum through
/// `min_height_ptr` and the natural height through `nat_height_ptr`, each
/// unless it is null.
pub fn cell_area_get_preferred_height_for_width<T: CellAreaImpl>(
    imp: &T,
    ptr: usize,
    contextptr: usize,
    wdgtptr: usize,
    width: i32,
    min_height_ptr: Option<&mut libc::c_int>,
    nat_height_ptr: Option<&mut libc::c_int>,
)
    ensures
        exists|sizes: (i32, i32)| #[trigger]
            call_ensures(
                T::preferred_height_for_width,
                (
                    imp,
                    &CellArea { ptr },
                    &CellAreaContext { ptr: contextptr },
                    &Widget { ptr: wdgtptr },
                    width,
                ),
                sizes,
            ) && (min_height_ptr matches Some(minimum) ==> *final(minimum) == sizes.0) && (
            nat_height_ptr matches Some(natural) ==> *final(natural) == sizes.1),
{
    let wrap = CellArea { ptr };
    let context = CellAreaContext { ptr: contextptr };
    let widget = Widget { ptr: wdgtptr };
    let (min_height, nat_height) = imp.preferred_height_for_width(&wrap,
        &context,
        &widget,
        width,
    );
    store(min_height_ptr, min_height);
    store(nat_height_ptr, nat_height);
}

/// Activates a cell: flags and truth value are decoded, the answer encoded.
pub fn cell_area_activate<T: CellAreaImpl>(
    imp: &T,
    ptr: usize,
    contextptr: usize,
    wdgtptr: usize,
    cellptr: &Rectangle,
    flags: u32,
    edit_only: Gboolean,
) -> (ret: Gboolean)
    ensures
        exists|answer: bool| #[trigger]
            call_ensures(
                T::activate,
                (
                    imp,
                    &CellArea { ptr },
                    &CellAreaContext { ptr: contextptr },
                    &Widget { ptr: wdgtptr },
                    cellptr,
                    CellRendererState::of_glib(flags),
                    bool_of_glib(edit_only),
                ),
                answer,
            ) && ret == glib_of_bool(answer),
{
    let wrap = CellArea { ptr };
    let context = CellAreaContext { ptr: contextptr };
    let widget = Widget { ptr: wdgtptr };
    bool_into_glib(
        imp.activate(&wrap,
            &context,
            &widget,
            cellptr,
            CellRendererState::from_glib(flags),
            bool_from_glib(edit_only),
        ),
    )
}

/// Draws the cells. The native call names the widget before the snapshot;
/// the implementation is handed the snapshot before the widget.
pub fn cell_area_snapshot<T: CellAreaImpl>(
    imp: &T,
    ptr: usize,
    contextptr: usize,
    wdgtptr: usize,
    snapshotptr: usize,
    bgptr: &Rectangle,
    cellptr: &Rectangle,
    flags: u32,
    paint_focus: Gboolean,
)
    ensures
        call_ensures(
            T::snapshot,
            (
                imp,
                &CellArea { ptr },
                &CellAreaContext { ptr: contextptr },
                &Snapshot { ptr: snapshotptr },
                &Widget { ptr: wdgtptr },
                bgptr,
                cellptr,
                CellRendererState::of_glib(flags),
                bool_of_glib(paint_focus),
            ),
            (),
        ),
{
    let wrap = CellArea { ptr };
    let context = CellAreaContext { ptr: contextptr };
    let widget = Widget { ptr: wdgtptr };
    let snapshot = Snapshot { ptr: snapshotptr };
    imp.snapshot(&wrap,
        &context,
        &snapshot,
        &widget,
        bgptr,
        cellptr,
        CellRendererState::from_glib(flags),
        bool_from_glib(paint_focus),
    )
}

/// Creates a context and hands it to the native caller, who then owns it:
/// the context's address, or null where the implementation made none.
pub fn cell_area_create_context<T: CellAreaImpl>(
    imp: &T,
    ptr: usize,
) -> (ret: usize)
    ensures
        exists|context: Option<CellAreaContext>| #[trigger]
            call_ensures(T::create_context, (imp, &CellArea { ptr }), context) && ret
                == context_to_glib_full(context),
{
    let wrap = CellArea { ptr };
    match imp.create_context(&wrap) {
        Some(context) => context.ptr,
        None => 0,
    }
}

/// Copies a context and hands the copy to the native caller, who then owns
/// it: the copy's address, or null where the implementation made none.
pub fn cell_area_copy_context<T: CellAreaImpl>(
    imp: &T,
    ptr: usize,
    contextptr: usize,
) -> (ret: usize)
    ensures
        exists|copy: Option<CellAreaContext>| #[trigger]
            call_ensures(
                T::copy_context,
                (imp, &CellArea { ptr }, &CellAreaContext { ptr: contextptr }),
                copy,
            ) && ret == context_to_glib_full(copy),
{
    let wrap = CellArea { ptr };
    let context = CellAreaContext { ptr: contextptr };
    match imp.copy_context(&wrap, &context) {
        Some(copy) => copy.ptr,
        None => 0,
    }
}

/// Hands an event to the implementation and encodes whether it was handled.
pub fn cell_area_event<T: CellAreaImpl>(
    imp: &T,
    ptr: usize,
    contextptr: usize,
    widgetptr: usize,
    eventptr: usize,
    rectangleptr: &Rectangle,
    flags: u32,
) -> (ret: Gboolean)
    ensures
        exists|handled: bool| #[trigger]
            call_ensures(
                T::event,
                (
                    imp,
                    &CellArea { ptr },
                    &CellAreaContext { ptr: contextptr },
                    &Widget { ptr: widgetptr },
                    &Event { ptr: eventptr },
                    rectangleptr,
                    CellRendererState::of_glib(flags),
                ),
                handled,
            ) && ret == glib_of_bool(handled),
{
    let wrap = CellArea { ptr };
    let context = CellAreaContext { ptr: contextptr };
    let widget = Widget { ptr: widgetptr };
    let event = Event { ptr: eventptr };
    bool_into_glib(
        imp.event(&wrap,
            &context,
            &widget,
            &event,
            rectangleptr,
            CellRendererState::from_glib(flags),
        ),
    )
}

/// Iterates over the cells: the native function and its argument reach the
/// implementation paired in one wrapper.
pub fn cell_area_foreach<T: CellAreaImpl, C: Fn(usize, usize) -> Gboolean>(
    imp: &T,
    ptr: usize,
    callback: Option<C>,
    user_data: usize,
)
    ensures
        exists|wrapper: CellCallback<C>| #[trigger]
            call_ensures(T::foreach::<C>, (imp, &CellArea { ptr }, &wrapper), ())
                && wrapper.callback_spec() == callback && wrapper.user_data_spec() == user_data,
{
    let wrap = CellArea { ptr };
    let callback = CellCallback::new(callback, user_data);
    imp.foreach(&wrap, &callback)
}

/// Iterates over the cells and their places: the native function and its
/// argument reach the implementation paired in one wrapper. The native call
/// names the cell area's rectangle before the background's, and so does the
/// call of the implementation.
pub fn cell_area_foreach_alloc<
    T: CellAreaImpl,
    C: Fn(usize, Rectangle, Rectangle, usize) -> Gboolean,
>(
    imp: &T,
    ptr: usize,
    contextptr: usize,
    widgetptr: usize,
    areaptr: &Rectangle,
    rectangleptr: &Rectangle,
    callback: Option<C>,
    user_data: usize,
)
    ensures
        exists|wrapper: CellCallbackAllocate<C>| #[trigger]
            call_ensures(
                T::foreach_alloc::<C>,
                (
                    imp,
                    &CellArea { ptr },
                    &CellAreaContext { ptr: contextptr },
                    &Widget { ptr: widgetptr },
                    areaptr,
                    rectangleptr,
                    &wrapper,
                ),
                (),
            ) && wrapper.callback_spec() == callback && wrapper.user_data_spec() == user_data,
{
    let wrap = CellArea { ptr };
    let context = CellAreaContext { ptr: contextptr };
    let widget = Widget { ptr: widgetptr };
    let callback = CellCallbackAllocate::new(callback, user_data);
    imp.foreach_alloc(&wrap, &context, &widget, areaptr, rectangleptr, &callback)
}

} // verus!
