//! What a managed type implements to act as a cell-area subclass.
use crate::callback::{CellCallback, CellCallbackAllocate};
use crate::class::{Method, ParamSpec};
use crate::translate::{
    CellArea, CellAreaContext, CellRenderer, CellRendererState, DirectionType, Event,
    Gboolean, Rectangle, SizeRequestMode, Snapshot, TreeIter, TreeModel, Value, Widget,
};
use vstd::prelude::*;

verus! {

/// The implementation of a cell-area subclass.
///
/// There is one method per virtual method of the base class, with the
/// arguments in managed form. A method is reached through the class's table
/// if the type names it among its overridden methods; the slots of the
/// others keep what the parent class has. An override that wants to extend
/// what the parent class does, rather than replace it, keeps the parent's
/// function beside itself and calls it through the parent call of the same
/// name (see [`CellAreaImplExt`](crate::parent::CellAreaImplExt)).
pub trait CellAreaImpl {
    /// The descriptors of the cell properties that the class installs, in
    /// the order of their identifiers. None unless the type says otherwise:
    /// for a type that vouches that it installs none, the result is empty.
    fn cell_properties() -> (pspecs: Vec<ParamSpec>)
        ensures
            Self::installs_no_cell_properties() ==> pspecs@ == Seq::<ParamSpec>::empty(),
    {
        Vec::new()
    }

    /// The methods that the type overrides: their slots get the trampoline
    /// of the class when it is registered, the others keep what the parent
    /// class has. All of them unless the type says otherwise: for a type
    /// that vouches that it overrides every method, the result is every
    /// method in slot order.
    fn overridden_methods() -> (methods: Vec<Method>)
        ensures
            Self::overrides_every_method() ==> methods@ == Method::every(),
    {
        Method::all()
    }

    /// Whether the type vouches that it installs no cell property. A type
    /// vouches for nothing unless it says so here; one that does must leave
    /// `cell_properties` empty.
    open spec fn installs_no_cell_properties() -> bool {
        false
    }

    /// Whether the type vouches that it overrides every method. A type
    /// vouches for nothing unless it says so here; one that does must leave
    /// `overridden_methods` at every method.
    open spec fn overrides_every_method() -> bool {
        false
    }

    /// Sets the cell property with identifier `id` of `renderer`.
    fn set_cell_property(
        &self,
        obj: &CellArea,
        renderer: &CellRenderer,
        id: usize,
        value: &Value,
        pspec: &ParamSpec,
    );

    /// Gets the cell property with identifier `id` of `renderer`.
    fn cell_property(
        &self,
        obj: &CellArea,
        renderer: &CellRenderer,
        id: usize,
        pspec: &ParamSpec,
    ) -> Value;

    /// Activates the cell at `area`; answers whether the activation was
    /// handled.
    fn activate(
        &self,
        cell_area: &CellArea,
        context: &CellAreaContext,
        widget: &Widget,
        area: &Rectangle,
        flags: CellRendererState,
        edit_only: bool,
    ) -> bool
    ;

    /// Adds `renderer` to the area.
    fn add(
        &self,
        cell_area: &CellArea,
        renderer: &CellRenderer,
    )
    ;

    /// Applies the attributes of the row at `iter` to the cells.
    fn apply_attributes(
        &self,
        cell_area: &CellArea,
        tree_model: &TreeModel,
        iter: &TreeIter,
        is_expander: bool,
        is_expanded: bool,
    )
    ;

    /// Creates a context for the area; the caller owns it.
    fn create_context(
        &self,
        cell_area: &CellArea,
    ) -> Option<CellAreaContext>
    ;

    /// Copies `context`; the caller owns the copy.
    fn copy_context(
        &self,
        cell_area: &CellArea,
        context: &CellAreaContext,
    ) -> Option<CellAreaContext>
    ;

    /// Handles an event; answers whether it was handled.
    fn event(
        &self,
        cell_area: &CellArea,
        context: &CellAreaContext,
        widget: &Widget,
        event: &Event,
        area: &Rectangle,
        flags: CellRendererState,
    ) -> bool
    ;

    /// Runs `callback` for each cell of the area, until it answers `true`.
    fn foreach<C: Fn(usize, usize) -> Gboolean>(
        &self,
        cell_area: &CellArea,
        callback: &CellCallback<C>,
    )
    ;

    /// Runs `callback` for each cell of the area with the place that the
    /// cell gets inside `area`, until it answers `true`.
    fn foreach_alloc<C: Fn(usize, Rectangle, Rectangle, usize) -> Gboolean>(
        &self,
        cell_type: &CellArea,
        context: &CellAreaContext,
        widget: &Widget,
        area: &Rectangle,
        bg_area: &Rectangle,
        callback: &CellCallbackAllocate<C>,
    )
    ;

    /// Removes `renderer` from the area.
    fn remove(
        &self,
        cell_area: &CellArea,
        renderer: &CellRenderer,
    )
    ;

    /// Whether the area can be activated.
    fn is_activatable(
        &self,
        cell_area: &CellArea,
    ) -> bool
    ;

    /// Moves the focus; answers whether it stayed inside the area.
    fn focus(
        &self,
        cell_area: &CellArea,
        direction_type: DirectionType,
    ) -> bool
    ;

    /// The size request mode of the area.
    fn request_mode(
        &self,
        cell_area: &CellArea,
    ) -> SizeRequestMode
    ;

    /// The minimum and the natural width of the area.
    fn preferred_width(
        &self,
        cell_area: &CellArea,
        context: &CellAreaContext,
        widget: &Widget,
    ) -> (i32, i32)
    ;

    /// The minimum and the natural width of the area at the given height.
    fn preferred_width_for_height(
        &self,
        cell_area: &CellArea,
        context: &CellAreaContext,
        widget: &Widget,
        height: i32,
    ) -> (i32, i32)
    ;

    /// The minimum and the natural height of the area.
    fn preferred_height(
        &self,
        cell_area: &CellArea,
        context: &CellAreaContext,
        widget: &Widget,
    ) -> (i32, i32)
    ;

    /// The minimum and the natural height of the area at the given width.
    fn preferred_height_for_width(
        &self,
        cell_area: &CellArea,
        context: &CellAreaContext,
        widget: &Widget,
        width: i32,
    ) -> (i32, i32)
    ;

    /// Draws the cells into `snapshot`.
    fn snapshot(
        &self,
        cell_area: &CellArea,
        context: &CellAreaContext,
        snapshot: &Snapshot,
        widget: &Widget,
        background_area: &Rectangle,
        cellarea: &Rectangle,
        flags: CellRendererState,
        paint_focus: bool,
    )
    ;
}

} // verus!
