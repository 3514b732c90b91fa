use cell_area_bridge::callback::{CellCallback, CellCallbackAllocate};
use cell_area_bridge::class::{Method, ParamSpec};
use cell_area_bridge::imp::CellAreaImpl;
use cell_area_bridge::parent::CellAreaImplExt;
use cell_area_bridge::trampoline::{
    cell_area_activate, cell_area_add, cell_area_apply_attributes, cell_area_copy_context,
    cell_area_create_context, cell_area_event, cell_area_focus, cell_area_foreach,
    cell_area_foreach_alloc, cell_area_get_cell_property, cell_area_get_preferred_height,
    cell_area_get_preferred_height_for_width, cell_area_get_preferred_width,
    cell_area_get_preferred_width_for_height, cell_area_get_request_mode,
    cell_area_is_activatable, cell_area_remove, cell_area_set_cell_property, cell_area_snapshot,
};
use cell_area_bridge::translate::{
    CellArea, CellAreaContext, CellRenderer, CellRendererState, DirectionType, Event, Rectangle,
    SizeRequestMode, Snapshot, TreeIter, TreeModel, Value, Widget,
};
use std::cell::{Cell, RefCell};

const RECT_A: Rectangle = Rectangle { x: 1, y: 2, width: 3, height: 4 };
const RECT_B: Rectangle = Rectangle { x: 5, y: 6, width: 7, height: 8 };

/// An implementation that writes down every call it gets and answers with
/// what the test put into it.
struct Recorder {
    log: RefCell<Vec<String>>,
    answer: bool,
    sizes: (i32, i32),
    mode: SizeRequestMode,
    context: Option<usize>,
}

impl Recorder {
    fn new() -> Recorder {
        Recorder {
            log: RefCell::new(Vec::new()),
            answer: false,
            sizes: (10, 20),
            mode: SizeRequestMode::ConstantSize,
            context: Some(0x900),
        }
    }

    fn note(&self, line: String) {
        self.log.borrow_mut().push(line);
    }

    fn calls(&self) -> Vec<String> {
        self.log.borrow().clone()
    }
}

impl CellAreaImpl for Recorder {
    fn set_cell_property(
        &self,
        obj: &CellArea,
        renderer: &CellRenderer,
        id: usize,
        value: &Value,
        pspec: &ParamSpec,
    ) {
        self.note(format!("set {:#x} {:#x} {} {:?} {:#x}", obj.ptr, renderer.ptr, id, value, pspec.ptr));
    }

    fn cell_property(
        &self,
        obj: &CellArea,
        renderer: &CellRenderer,
        id: usize,
        pspec: &ParamSpec,
    ) -> Value {
        self.note(format!("get {:#x} {:#x} {} {:#x}", obj.ptr, renderer.ptr, id, pspec.ptr));
        Value::Int(id as i32 * 100)
    }

    fn activate(
        &self,
        cell_area: &CellArea,
        context: &CellAreaContext,
        widget: &Widget,
        area: &Rectangle,
        flags: CellRendererState,
        edit_only: bool,
    ) -> bool {
        self.note(format!(
            "activate {:#x} {:#x} {:#x} {:?} {} {}",
            cell_area.ptr,
            context.ptr,
            widget.ptr,
            area,
            flags.bits(),
            edit_only
        ));
        self.answer
    }

    fn add(&self, cell_area: &CellArea, renderer: &CellRenderer) {
        self.note(format!("add {:#x} {:#x}", cell_area.ptr, renderer.ptr));
    }

    fn apply_attributes(
        &self,
        cell_area: &CellArea,
        tree_model: &TreeModel,
        iter: &TreeIter,
        is_expander: bool,
        is_expanded: bool,
    ) {
        self.note(format!(
            "apply {:#x} {:#x} {:#x} {} {}",
            cell_area.ptr, tree_model.ptr, iter.ptr, is_expander, is_expanded
        ));
    }

    fn create_context(&self, cell_area: &CellArea) -> Option<CellAreaContext> {
        self.note(format!("create {:#x}", cell_area.ptr));
        self.context.map(|ptr| CellAreaContext { ptr })
    }

    fn copy_context(
        &self,
        cell_area: &CellArea,
        context: &CellAreaContext,
    ) -> Option<CellAreaContext> {
        self.note(format!("copy {:#x} {:#x}", cell_area.ptr, context.ptr));
        self.context.map(|ptr| CellAreaContext { ptr: ptr + context.ptr })
    }

    fn event(
        &self,
        cell_area: &CellArea,
        context: &CellAreaContext,
        widget: &Widget,
        event: &Event,
        area: &Rectangle,
        flags: CellRendererState,
    ) -> bool {
        self.note(format!(
            "event {:#x} {:#x} {:#x} {:#x} {:?} {}",
            cell_area.ptr,
            context.ptr,
            widget.ptr,
            event.ptr,
            area,
            flags.bits()
        ));
        self.answer
    }

    fn foreach<C: Fn(usize, usize) -> i32>(&self, cell_area: &CellArea, callback: &CellCallback<C>) {
        self.note(format!("foreach {:#x}", cell_area.ptr));
        for renderer in [0x51, 0x52, 0x53] {
            if callback.call(&CellRenderer { ptr: renderer }) {
                break;
            }
        }
    }

    fn foreach_alloc<C: Fn(usize, Rectangle, Rectangle, usize) -> i32>(
        &self,
        cell_type: &CellArea,
        context: &CellAreaContext,
        widget: &Widget,
        area: &Rectangle,
        bg_area: &Rectangle,
        callback: &CellCallbackAllocate<C>,
    ) {
        self.note(format!(
            "foreach_alloc {:#x} {:#x} {:#x} {:?} {:?}",
            cell_type.ptr, context.ptr, widget.ptr, area, bg_area
        ));
        callback.call(&CellRenderer { ptr: 0x51 }, area, bg_area);
    }

    fn remove(&self, cell_area: &CellArea, renderer: &CellRenderer) {
        self.note(format!("remove {:#x} {:#x}", cell_area.ptr, renderer.ptr));
    }

    fn is_activatable(&self, cell_area: &CellArea) -> bool {
        self.note(format!("is_activatable {:#x}", cell_area.ptr));
        self.answer
    }

    fn focus(&self, cell_area: &CellArea, direction_type: DirectionType) -> bool {
        self.note(format!("focus {:#x} {:?}", cell_area.ptr, direction_type));
        self.answer
    }

    fn request_mode(&self, cell_area: &CellArea) -> SizeRequestMode {
        self.note(format!("request_mode {:#x}", cell_area.ptr));
        self.mode
    }

    fn preferred_width(
        &self,
        cell_area: &CellArea,
        context: &CellAreaContext,
        widget: &Widget,
    ) -> (i32, i32) {
        self.note(format!("width {:#x} {:#x} {:#x}", cell_area.ptr, context.ptr, widget.ptr));
        self.sizes
    }

    fn preferred_width_for_height(
        &self,
        cell_area: &CellArea,
        context: &CellAreaContext,
        widget: &Widget,
        height: i32,
    ) -> (i32, i32) {
        self.note(format!(
            "width_for_height {:#x} {:#x} {:#x} {}",
            cell_area.ptr, context.ptr, widget.ptr, height
        ));
        self.sizes
    }

    fn preferred_height(
        &self,
        cell_area: &CellArea,
        context: &CellAreaContext,
        widget: &Widget,
    ) -> (i32, i32) {
        self.note(format!("height {:#x} {:#x} {:#x}", cell_area.ptr, context.ptr, widget.ptr));
        self.sizes
    }

    fn preferred_height_for_width(
        &self,
        cell_area: &CellArea,
        context: &CellAreaContext,
        widget: &Widget,
        width: i32,
    ) -> (i32, i32) {
        self.note(format!(
            "height_for_width {:#x} {:#x} {:#x} {}",
            cell_area.ptr, context.ptr, widget.ptr, width
        ));
        self.sizes
    }

    fn snapshot(
        &self,
        cell_area: &CellArea,
        context: &CellAreaContext,
        snapshot: &Snapshot,
        widget: &Widget,
        background_area: &Rectangle,
        cellarea: &Rectangle,
        flags: CellRendererState,
        paint_focus: bool,
    ) {
        self.note(format!(
            "snapshot {:#x} {:#x} snapshot={:#x} widget={:#x} {:?} {:?} {} {}",
            cell_area.ptr,
            context.ptr,
            snapshot.ptr,
            widget.ptr,
            background_area,
            cellarea,
            flags.bits(),
            paint_focus
        ));
    }
}

#[test]
fn declared_defaults_are_no_property_and_every_method() {
    assert!(Recorder::cell_properties().is_empty());
    assert_eq!(Recorder::overridden_methods(), Method::all());
}

#[test]
fn activate_reaches_the_implementation_once_with_decoded_arguments() {
    let mut imp = Recorder::new();
    imp.answer = true;
    let ret = cell_area_activate(&imp, 0x10, 0x20, 0x30, &RECT_A, 1 | 16, 1);
    assert_eq!(ret, 1);
    assert_eq!(
        imp.calls(),
        vec![format!("activate 0x10 0x20 0x30 {:?} 17 true", RECT_A)]
    );
}

#[test]
fn activate_encodes_a_refusal_as_gfalse() {
    let imp = Recorder::new();
    let ret = cell_area_activate(&imp, 0x10, 0x20, 0x30, &RECT_B, 0, 0);
    assert_eq!(ret, 0);
    assert_eq!(
        imp.calls(),
        vec![format!("activate 0x10 0x20 0x30 {:?} 0 false", RECT_B)]
    );
}

#[test]
fn activate_decodes_any_nonzero_number_as_true_and_drops_unnamed_flags() {
    let imp = Recorder::new();
    cell_area_activate(&imp, 1, 2, 3, &RECT_A, 0x80 | 2, -5);
    assert_eq!(imp.calls(), vec![format!("activate 0x1 0x2 0x3 {:?} 2 true", RECT_A)]);
}

#[test]
fn add_and_remove_reach_the_implementation() {
    let imp = Recorder::new();
    cell_area_add(&imp, 0x10, 0x40);
    cell_area_remove(&imp, 0x10, 0x41);
    assert_eq!(imp.calls(), vec!["add 0x10 0x40", "remove 0x10 0x41"]);
}

#[test]
fn apply_attributes_decodes_both_truth_values() {
    let imp = Recorder::new();
    cell_area_apply_attributes(&imp, 0x10, 0x50, 0x60, 1, 0);
    cell_area_apply_attributes(&imp, 0x10, 0x50, 0x60, 0, 7);
    assert_eq!(
        imp.calls(),
        vec!["apply 0x10 0x50 0x60 true false", "apply 0x10 0x50 0x60 false true"]
    );
}

#[test]
fn is_activatable_encodes_the_answer() {
    let mut imp = Recorder::new();
    assert_eq!(cell_area_is_activatable(&imp, 0x10), 0);
    imp.answer = true;
    assert_eq!(cell_area_is_activatable(&imp, 0x11), 1);
    assert_eq!(imp.calls(), vec!["is_activatable 0x10", "is_activatable 0x11"]);
}

#[test]
fn focus_decodes_the_direction() {
    let mut imp = Recorder::new();
    imp.answer = true;
    assert_eq!(cell_area_focus(&imp, 0x10, 3), 1);
    assert_eq!(cell_area_focus(&imp, 0x10, 77), 1);
    assert_eq!(imp.calls(), vec!["focus 0x10 Down", "focus 0x10 Unknown(77)"]);
}

#[test]
fn request_mode_is_encoded() {
    let mut imp = Recorder::new();
    assert_eq!(cell_area_get_request_mode(&imp, 0x10), 2);
    imp.mode = SizeRequestMode::HeightForWidth;
    assert_eq!(cell_area_get_request_mode(&imp, 0x10), 0);
    imp.mode = SizeRequestMode::Unknown(9);
    assert_eq!(cell_area_get_request_mode(&imp, 0x10), 9);
}

#[test]
fn preferred_width_for_height_fills_both_out_parameters() {
    let imp = Recorder::new();
    let (mut min, mut nat) = (0, 0);
    cell_area_get_preferred_width_for_height(&imp, 0x10, 0x20, 0x30, 55, Some(&mut min), Some(&mut nat));
    assert_eq!((min, nat), (10, 20));
    assert_eq!(imp.calls(), vec!["width_for_height 0x10 0x20 0x30 55"]);
}

#[test]
fn null_out_parameter_is_not_written() {
    let imp = Recorder::new();
    let (mut min, mut nat) = (-1, -1);
    cell_area_get_preferred_width_for_height(&imp, 0x10, 0x20, 0x30, 55, None, Some(&mut nat));
    assert_eq!(nat, 20);
    cell_area_get_preferred_width_for_height(&imp, 0x10, 0x20, 0x30, 55, Some(&mut min), None);
    assert_eq!(min, 10);
    cell_area_get_preferred_width_for_height(&imp, 0x10, 0x20, 0x30, 55, None, None);
    assert_eq!(imp.calls().len(), 3);
}

#[test]
fn every_size_trampoline_stores_minimum_then_natural() {
    let mut imp = Recorder::new();
    imp.sizes = (-3, 1 << 30);
    let (mut min, mut nat) = (0, 0);
    cell_area_get_preferred_width(&imp, 1, 2, 3, Some(&mut min), Some(&mut nat));
    assert_eq!((min, nat), (-3, 1 << 30));
    let (mut min, mut nat) = (0, 0);
    cell_area_get_preferred_height(&imp, 1, 2, 3, Some(&mut min), Some(&mut nat));
    assert_eq!((min, nat), (-3, 1 << 30));
    let (mut min, mut nat) = (0, 0);
    cell_area_get_preferred_height_for_width(&imp, 1, 2, 3, 8, Some(&mut min), Some(&mut nat));
    assert_eq!((min, nat), (-3, 1 << 30));
    let mut only = 0;
    cell_area_get_preferred_width(&imp, 1, 2, 3, None, Some(&mut only));
    assert_eq!(only, 1 << 30);
    cell_area_get_preferred_height(&imp, 1, 2, 3, Some(&mut only), None);
    assert_eq!(only, -3);
    assert_eq!(
        imp.calls(),
        vec![
            "width 0x1 0x2 0x3",
            "height 0x1 0x2 0x3",
            "height_for_width 0x1 0x2 0x3 8",
            "width 0x1 0x2 0x3",
            "height 0x1 0x2 0x3"
        ]
    );
}

#[test]
fn snapshot_hands_the_snapshot_before_the_widget() {
    let imp = Recorder::new();
    cell_area_snapshot(&imp, 0x10, 0x20, 0x30, 0x80, &RECT_A, &RECT_B, 4, 1);
    assert_eq!(
        imp.calls(),
        vec![format!(
            "snapshot 0x10 0x20 snapshot=0x80 widget=0x30 {:?} {:?} 4 true",
            RECT_A, RECT_B
        )]
    );
}

#[test]
fn create_context_hands_out_the_address_or_null() {
    let mut imp = Recorder::new();
    assert_eq!(cell_area_create_context(&imp, 0x10), 0x900);
    imp.context = None;
    assert_eq!(cell_area_create_context(&imp, 0x10), 0);
    assert_eq!(imp.calls(), vec!["create 0x10", "create 0x10"]);
}

#[test]
fn copy_context_hands_out_the_address_or_null() {
    let mut imp = Recorder::new();
    assert_eq!(cell_area_copy_context(&imp, 0x10, 0x20), 0x920);
    imp.context = None;
    assert_eq!(cell_area_copy_context(&imp, 0x10, 0x20), 0);
    assert_eq!(imp.calls(), vec!["copy 0x10 0x20", "copy 0x10 0x20"]);
}

#[test]
fn event_reaches_the_implementation() {
    let mut imp = Recorder::new();
    imp.answer = true;
    assert_eq!(cell_area_event(&imp, 0x10, 0x20, 0x30, 0x70, &RECT_B, 64 | 256), 1);
    assert_eq!(
        imp.calls(),
        vec![format!("event 0x10 0x20 0x30 0x70 {:?} 64", RECT_B)]
    );
}

#[test]
fn set_cell_property_widens_the_identifier() {
    let imp = Recorder::new();
    cell_area_set_cell_property(&imp, 0x10, 0x40, 3, &Value::Boolean(true), 0xa0);
    assert_eq!(imp.calls(), vec!["set 0x10 0x40 3 Boolean(true) 0xa0"]);
}

#[test]
fn get_cell_property_replaces_the_value() {
    let imp = Recorder::new();
    let mut value = Value::Boolean(false);
    cell_area_get_cell_property(&imp, 0x10, 0x40, 2, &mut value, 0xa0);
    assert_eq!(value, Value::Int(200));
    assert_eq!(imp.calls(), vec!["get 0x10 0x40 2 0xa0"]);
}

#[test]
fn foreach_pairs_function_and_argument() {
    let imp = Recorder::new();
    let seen = RefCell::new(Vec::new());
    let native = |renderer: usize, data: usize| -> i32 {
        seen.borrow_mut().push((renderer, data));
        (renderer == 0x52) as i32
    };
    cell_area_foreach(&imp, 0x10, Some(native), 0xabc);
    assert_eq!(imp.calls(), vec!["foreach 0x10"]);
    assert_eq!(*seen.borrow(), vec![(0x51, 0xabc), (0x52, 0xabc)]);
}

#[test]
fn foreach_without_function_stops_at_once() {
    let imp = Recorder::new();
    let none: Option<fn(usize, usize) -> i32> = None;
    cell_area_foreach(&imp, 0x10, none, 0xabc);
    assert_eq!(imp.calls(), vec!["foreach 0x10"]);
}

#[test]
fn foreach_alloc_pairs_function_and_argument() {
    let imp = Recorder::new();
    let seen = RefCell::new(Vec::new());
    let native = |renderer: usize, area: Rectangle, background: Rectangle, data: usize| -> i32 {
        seen.borrow_mut().push((renderer, area, background, data));
        0
    };
    cell_area_foreach_alloc(&imp, 0x10, 0x20, 0x30, &RECT_A, &RECT_B, Some(native), 0xdef);
    assert_eq!(
        imp.calls(),
        vec![format!("foreach_alloc 0x10 0x20 0x30 {:?} {:?}", RECT_A, RECT_B)]
    );
    assert_eq!(*seen.borrow(), vec![(0x51, RECT_A, RECT_B, 0xdef)]);
}

/// An implementation whose override of `is_activatable` asks the parent
/// class first and has the last word itself.
struct Extending<F> {
    parent_is_activatable: Option<F>,
    own_calls: Cell<u32>,
    inner: Recorder,
}

impl<F: Fn(usize) -> i32> CellAreaImpl for Extending<F> {
    fn overridden_methods() -> Vec<Method> {
        vec![Method::IsActivatable]
    }

    fn cell_properties() -> Vec<ParamSpec> {
        vec![ParamSpec { ptr: 0xa0 }]
    }

    fn is_activatable(&self, cell_area: &CellArea) -> bool {
        self.own_calls.set(self.own_calls.get() + 1);
        !self.parent_is_activatable(&self.parent_is_activatable, cell_area)
    }

    fn set_cell_property(&self, o: &CellArea, r: &CellRenderer, id: usize, v: &Value, p: &ParamSpec) {
        self.inner.set_cell_property(o, r, id, v, p)
    }

    fn cell_property(&self, o: &CellArea, r: &CellRenderer, id: usize, p: &ParamSpec) -> Value {
        self.inner.cell_property(o, r, id, p)
    }

    fn activate(
        &self,
        a: &CellArea,
        c: &CellAreaContext,
        w: &Widget,
        r: &Rectangle,
        f: CellRendererState,
        e: bool,
    ) -> bool {
        self.inner.activate(a, c, w, r, f, e)
    }

    fn add(&self, a: &CellArea, r: &CellRenderer) {
        self.inner.add(a, r)
    }

    fn apply_attributes(&self, a: &CellArea, m: &TreeModel, i: &TreeIter, x: bool, y: bool) {
        self.inner.apply_attributes(a, m, i, x, y)
    }

    fn create_context(&self, a: &CellArea) -> Option<CellAreaContext> {
        self.inner.create_context(a)
    }

    fn copy_context(&self, a: &CellArea, c: &CellAreaContext) -> Option<CellAreaContext> {
        self.inner.copy_context(a, c)
    }

    fn event(
        &self,
        a: &CellArea,
        c: &CellAreaContext,
        w: &Widget,
        e: &Event,
        r: &Rectangle,
        f: CellRendererState,
    ) -> bool {
        self.inner.event(a, c, w, e, r, f)
    }

    fn foreach<C: Fn(usize, usize) -> i32>(&self, a: &CellArea, callback: &CellCallback<C>) {
        self.inner.foreach(a, callback)
    }

    fn foreach_alloc<C: Fn(usize, Rectangle, Rectangle, usize) -> i32>(
        &self,
        a: &CellArea,
        c: &CellAreaContext,
        w: &Widget,
        r: &Rectangle,
        b: &Rectangle,
        callback: &CellCallbackAllocate<C>,
    ) {
        self.inner.foreach_alloc(a, c, w, r, b, callback)
    }

    fn remove(&self, a: &CellArea, r: &CellRenderer) {
        self.inner.remove(a, r)
    }

    fn focus(&self, a: &CellArea, d: DirectionType) -> bool {
        self.inner.focus(a, d)
    }

    fn request_mode(&self, a: &CellArea) -> SizeRequestMode {
        self.inner.request_mode(a)
    }

    fn preferred_width(&self, a: &CellArea, c: &CellAreaContext, w: &Widget) -> (i32, i32) {
        self.inner.preferred_width(a, c, w)
    }

    fn preferred_width_for_height(
        &self,
        a: &CellArea,
        c: &CellAreaContext,
        w: &Widget,
        h: i32,
    ) -> (i32, i32) {
        self.inner.preferred_width_for_height(a, c, w, h)
    }

    fn preferred_height(&self, a: &CellArea, c: &CellAreaContext, w: &Widget) -> (i32, i32) {
        self.inner.preferred_height(a, c, w)
    }

    fn preferred_height_for_width(
        &self,
        a: &CellArea,
        c: &CellAreaContext,
        w: &Widget,
        width: i32,
    ) -> (i32, i32) {
        self.inner.preferred_height_for_width(a, c, w, width)
    }

    fn snapshot(
        &self,
        a: &CellArea,
        c: &CellAreaContext,
        s: &Snapshot,
        w: &Widget,
        b: &Rectangle,
        r: &Rectangle,
        f: CellRendererState,
        p: bool,
    ) {
        self.inner.snapshot(a, c, s, w, b, r, f, p)
    }
}

#[test]
fn override_that_chains_up_runs_the_base_exactly_once() {
    let base_calls = Cell::new(0);
    let base = |area: usize| -> i32 {
        base_calls.set(base_calls.get() + 1);
        (area == 0x10) as i32
    };
    let imp = Extending {
        parent_is_activatable: Some(base),
        own_calls: Cell::new(0),
        inner: Recorder::new(),
    };
    let ret = cell_area_is_activatable(&imp, 0x10);
    assert_eq!(ret, 0);
    assert_eq!(base_calls.get(), 1);
    assert_eq!(imp.own_calls.get(), 1);
    let ret = cell_area_is_activatable(&imp, 0x11);
    assert_eq!(ret, 1);
    assert_eq!(base_calls.get(), 2);
    assert_eq!(imp.own_calls.get(), 2);
}

#[test]
fn override_that_chains_up_to_nothing_gets_the_default() {
    let none: Option<fn(usize) -> i32> = None;
    let imp = Extending {
        parent_is_activatable: none,
        own_calls: Cell::new(0),
        inner: Recorder::new(),
    };
    assert_eq!(cell_area_is_activatable(&imp, 0x10), 1);
    assert_eq!(imp.own_calls.get(), 1);
}

#[test]
fn declared_capabilities_can_be_narrowed() {
    assert_eq!(
        Extending::<fn(usize) -> i32>::overridden_methods(),
        vec![Method::IsActivatable]
    );
    assert_eq!(
        Extending::<fn(usize) -> i32>::cell_properties(),
        vec![ParamSpec { ptr: 0xa0 }]
    );
}
