use cell_area_bridge::class::{
    CellAreaClass, CellProperty, ClassId, Fallback, Method, ParamSpec, Slot, METHOD_COUNT,
};

#[test]
fn methods_are_numbered_in_slot_order() {
    assert_eq!(METHOD_COUNT, 19);
    assert_eq!(Method::Activate.index(), 0);
    assert_eq!(Method::Add.index(), 1);
    assert_eq!(Method::ApplyAttributes.index(), 2);
    assert_eq!(Method::CreateContext.index(), 3);
    assert_eq!(Method::CopyContext.index(), 4);
    assert_eq!(Method::Event.index(), 5);
    assert_eq!(Method::Foreach.index(), 6);
    assert_eq!(Method::ForeachAlloc.index(), 7);
    assert_eq!(Method::Remove.index(), 8);
    assert_eq!(Method::IsActivatable.index(), 9);
    assert_eq!(Method::Focus.index(), 10);
    assert_eq!(Method::GetRequestMode.index(), 11);
    assert_eq!(Method::GetPreferredWidth.index(), 12);
    assert_eq!(Method::GetPreferredWidthForHeight.index(), 13);
    assert_eq!(Method::GetPreferredHeight.index(), 14);
    assert_eq!(Method::GetPreferredHeightForWidth.index(), 15);
    assert_eq!(Method::Snapshot.index(), 16);
    assert_eq!(Method::SetCellProperty.index(), 17);
    assert_eq!(Method::GetCellProperty.index(), 18);
}

#[test]
fn index_and_from_index_are_inverse() {
    for i in 0..METHOD_COUNT {
        let method = Method::from_index(i).unwrap();
        assert_eq!(method.index(), i);
    }
    assert_eq!(Method::from_index(METHOD_COUNT), None);
    assert_eq!(Method::from_index(usize::MAX), None);
}

#[test]
fn all_lists_every_method_once() {
    let all = Method::all();
    assert_eq!(all.len(), 19);
    for (i, method) in all.iter().enumerate() {
        assert_eq!(method.index(), i);
    }
}

#[test]
fn empty_class_has_no_function_and_no_property() {
    let klass = CellAreaClass::empty();
    for method in Method::all() {
        assert_eq!(klass.slot(method), Slot::Empty);
    }
    assert_eq!(klass.n_cell_properties(), 0);
    assert_eq!(klass.cell_property(0), None);
}

#[test]
fn set_native_fills_one_slot() {
    let mut klass = CellAreaClass::empty();
    klass.set_native(Method::Event, 0x4000);
    assert_eq!(klass.slot(Method::Event), Slot::Native(0x4000));
    assert_eq!(klass.slot(Method::Activate), Slot::Empty);
    assert_eq!(klass.slot(Method::Foreach), Slot::Empty);
}

#[test]
fn set_native_with_null_empties_the_slot() {
    let mut klass = CellAreaClass::empty();
    klass.set_native(Method::Event, 0x4000);
    klass.set_native(Method::Event, 0);
    assert_eq!(klass.slot(Method::Event), Slot::Empty);
}

#[test]
fn inherit_copies_the_slots_but_not_the_properties() {
    let mut parent = CellAreaClass::empty();
    parent.set_native(Method::Activate, 0x10);
    parent.class_init(ClassId(1), &vec![Method::Add], &vec![ParamSpec { ptr: 0x99 }]);
    let child = parent.inherit();
    assert_eq!(child.slot(Method::Activate), Slot::Native(0x10));
    assert_eq!(child.slot(Method::Add), Slot::Trampoline(ClassId(1)));
    assert_eq!(child.slot(Method::Remove), Slot::Empty);
    assert_eq!(child.n_cell_properties(), 0);
    assert_eq!(parent.n_cell_properties(), 1);
}

#[test]
fn class_init_overwrites_exactly_the_overridden_slots() {
    let mut klass = CellAreaClass::empty();
    klass.set_native(Method::Activate, 0x10);
    klass.set_native(Method::Event, 0x20);
    klass.set_native(Method::IsActivatable, 0x30);
    klass.class_init(ClassId(7), &vec![Method::Activate, Method::Focus], &vec![]);
    assert_eq!(klass.slot(Method::Activate), Slot::Trampoline(ClassId(7)));
    assert_eq!(klass.slot(Method::Focus), Slot::Trampoline(ClassId(7)));
    assert_eq!(klass.slot(Method::Event), Slot::Native(0x20));
    assert_eq!(klass.slot(Method::IsActivatable), Slot::Native(0x30));
    assert_eq!(klass.slot(Method::Add), Slot::Empty);
}

#[test]
fn class_init_with_no_override_leaves_the_table() {
    let mut klass = CellAreaClass::empty();
    klass.set_native(Method::Activate, 0x10);
    klass.class_init(ClassId(7), &vec![], &vec![]);
    assert_eq!(klass.slot(Method::Activate), Slot::Native(0x10));
    for method in Method::all() {
        assert!(!klass.dispatches_to(method, ClassId(7)));
    }
}

#[test]
fn class_init_with_every_override_fills_the_table() {
    let mut klass = CellAreaClass::empty();
    klass.set_native(Method::Activate, 0x10);
    klass.class_init(ClassId(2), &Method::all(), &vec![]);
    for method in Method::all() {
        assert_eq!(klass.slot(method), Slot::Trampoline(ClassId(2)));
        assert!(klass.dispatches_to(method, ClassId(2)));
        assert!(!klass.dispatches_to(method, ClassId(3)));
    }
}

#[test]
fn class_init_accepts_a_method_named_twice() {
    let mut klass = CellAreaClass::empty();
    klass.class_init(ClassId(4), &vec![Method::Add, Method::Add, Method::Remove], &vec![]);
    assert_eq!(klass.slot(Method::Add), Slot::Trampoline(ClassId(4)));
    assert_eq!(klass.slot(Method::Remove), Slot::Trampoline(ClassId(4)));
    assert_eq!(klass.slot(Method::Activate), Slot::Empty);
}

#[test]
fn class_init_numbers_the_properties_from_zero() {
    let mut klass = CellAreaClass::empty();
    let pspecs = vec![ParamSpec { ptr: 0xa0 }, ParamSpec { ptr: 0xb0 }, ParamSpec { ptr: 0xc0 }];
    klass.class_init(ClassId(1), &vec![], &pspecs);
    assert_eq!(klass.n_cell_properties(), 3);
    assert_eq!(
        klass.cell_property(0),
        Some(CellProperty { id: 0, pspec: ParamSpec { ptr: 0xa0 } })
    );
    assert_eq!(
        klass.cell_property(1),
        Some(CellProperty { id: 1, pspec: ParamSpec { ptr: 0xb0 } })
    );
    assert_eq!(
        klass.cell_property(2),
        Some(CellProperty { id: 2, pspec: ParamSpec { ptr: 0xc0 } })
    );
    assert_eq!(klass.cell_property(3), None);
}

#[test]
fn class_init_replaces_the_properties() {
    let mut klass = CellAreaClass::empty();
    klass.class_init(ClassId(1), &vec![], &vec![ParamSpec { ptr: 1 }, ParamSpec { ptr: 2 }]);
    klass.class_init(ClassId(1), &vec![], &vec![ParamSpec { ptr: 3 }]);
    assert_eq!(klass.n_cell_properties(), 1);
    assert_eq!(klass.cell_property(0), Some(CellProperty { id: 0, pspec: ParamSpec { ptr: 3 } }));
}

#[test]
fn questions_fall_back_to_false() {
    for method in [Method::Activate, Method::Event, Method::IsActivatable, Method::Focus] {
        assert_eq!(method.fallback(), Some(Fallback::False));
    }
}

#[test]
fn commands_fall_back_to_nothing() {
    for method in [
        Method::Add,
        Method::ApplyAttributes,
        Method::Foreach,
        Method::ForeachAlloc,
        Method::Remove,
        Method::Snapshot,
    ] {
        assert_eq!(method.fallback(), Some(Fallback::Nothing));
    }
}

#[test]
fn methods_that_a_parent_must_provide_have_no_fallback() {
    for method in [
        Method::CreateContext,
        Method::CopyContext,
        Method::GetRequestMode,
        Method::GetPreferredWidth,
        Method::GetPreferredWidthForHeight,
        Method::GetPreferredHeight,
        Method::GetPreferredHeightForWidth,
        Method::SetCellProperty,
        Method::GetCellProperty,
    ] {
        assert_eq!(method.fallback(), None);
    }
}
