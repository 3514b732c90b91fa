//! The virtual function table of a cell-area class and how a subclass fills
//! it in.
//!
//! A table has one slot per virtual method. A slot is empty, holds a function
//! of the toolkit, or holds the trampoline that leads into the managed
//! implementation of one registered class. Initialising a subclass starts from
//! a copy of the parent's table and overwrites the slots of the methods that
//! the subclass overrides; all other slots keep what the parent had.
use vstd::prelude::*;

verus! {

/// The virtual methods of the cell-area base class, in the order of their
/// slots.
#[derive(Clone, Copy, Debug, PartialEq, Eq, Structural)]
pub enum Method {
    Activate,
    Add,
    ApplyAttributes,
    CreateContext,
    CopyContext,
    Event,
    Foreach,
    ForeachAlloc,
    Remove,
    IsActivatable,
    Focus,
    GetRequestMode,
    GetPreferredWidth,
    GetPreferredWidthForHeight,
    GetPreferredHeight,
    GetPreferredHeightForWidth,
    Snapshot,
    SetCellProperty,
    GetCellProperty,
}

/// The number of virtual methods, and so of slots in a table.
pub const METHOD_COUNT: usize = 19;

/// What a parent call amounts to when the parent class has no function for
/// the method.
#[derive(Clone, Copy, Debug, PartialEq, Eq, Structural)]
pub enum Fallback {
    /// The call answers `false`.
    False,
    /// The call does nothing.
    Nothing,
}

impl Method {
    /// The position of the method's slot.
    pub open spec fn index_spec(self) -> int {
        match self {
            Method::Activate => 0,
            Method::Add => 1,
            Method::ApplyAttributes => 2,
            Method::CreateContext => 3,
            Method::CopyContext => 4,
            Method::Event => 5,
            Method::Foreach => 6,
            Method::ForeachAlloc => 7,
            Method::Remove => 8,
            Method::IsActivatable => 9,
            Method::Focus => 10,
            Method::GetRequestMode => 11,
            Method::GetPreferredWidth => 12,
            Method::GetPreferredWidthForHeight => 13,
            Method::GetPreferredHeight => 14,
            Method::GetPreferredHeightForWidth => 15,
            Method::Snapshot => 16,
            Method::SetCellProperty => 17,
            Method::GetCellProperty => 18,
        }
    }

    /// The method whose slot is at `index`; out of range, the last one.
    pub open spec fn at(index: int) -> Method {
        if index == 0 {
            Method::Activate
        } else if index == 1 {
            Method::Add
        } else if index == 2 {
            Method::ApplyAttributes
        } else if index == 3 {
            Method::CreateContext
        } else if index == 4 {
            Method::CopyContext
        } else if index == 5 {
            Method::Event
        } else if index == 6 {
            Method::Foreach
        } else if index == 7 {
            Method::ForeachAlloc
        } else if index == 8 {
            Method::Remove
        } else if index == 9 {
            Method::IsActivatable
        } else if index == 10 {
            Method::Focus
        } else if index == 11 {
            Method::GetRequestMode
        } else if index == 12 {
            Method::GetPreferredWidth
        } else if index == 13 {
            Method::GetPreferredWidthForHeight
        } else if index == 14 {
            Method::GetPreferredHeight
        } else if index == 15 {
            Method::GetPreferredHeightForWidth
        } else if index == 16 {
            Method::Snapshot
        } else if index == 17 {
            Method::SetCellProperty
        } else {
            Method::GetCellProperty
        }
    }

    /// The position of the method's slot.
    pub fn index(self) -> (index: usize)
        ensures
            index == self.index_spec(),
            index < METHOD_COUNT,
    {
        match self {
            Method::Activate => 0,
            Method::Add => 1,
            Method::ApplyAttributes => 2,
            Method::CreateContext => 3,
            Method::CopyContext => 4,
            Method::Event => 5,
            Method::Foreach => 6,
            Method::ForeachAlloc => 7,
            Method::Remove => 8,
            Method::IsActivatable => 9,
            Method::Focus => 10,
            Method::GetRequestMode => 11,
            Method::GetPreferredWidth => 12,
            Method::GetPreferredWidthForHeight => 13,
            Method::GetPreferredHeight => 14,
            Method::GetPreferredHeightForWidth => 15,
            Method::Snapshot => 16,
            Method::SetCellProperty => 17,
            Method::GetCellProperty => 18,
        }
    }

    /// The method whose slot is at `index`, if there is such a slot.
    pub fn from_index(index: usize) -> (method: Option<Method>)
        ensures
            method == (if index < METHOD_COUNT {
                Some(Method::at(index as int))
            } else {
                None
            }),
    {
        if index == 0 {
            Some(Method::Activate)
        } else if index == 1 {
            Some(Method::Add)
        } else if index == 2 {
            Some(Method::ApplyAttributes)
        } else if index == 3 {
            Some(Method::CreateContext)
        } else if index == 4 {
            Some(Method::CopyContext)
        } else if index == 5 {
            Some(Method::Event)
        } else if index == 6 {
            Some(Method::Foreach)
        } else if index == 7 {
            Some(Method::ForeachAlloc)
        } else if index == 8 {
            Some(Method::Remove)
        } else if index == 9 {
            Some(Method::IsActivatable)
        } else if index == 10 {
            Some(Method::Focus)
        } else if index == 11 {
            Some(Method::GetRequestMode)
        } else if index == 12 {
            Some(Method::GetPreferredWidth)
        } else if index == 13 {
            Some(Method::GetPreferredWidthForHeight)
        } else if index == 14 {
            Some(Method::GetPreferredHeight)
        } else if index == 15 {
            Some(Method::GetPreferredHeightForWidth)
        } else if index == 16 {
            Some(Method::Snapshot)
        } else if index == 17 {
            Some(Method::SetCellProperty)
        } else if index == 18 {
            Some(Method::GetCellProperty)
        } else {
            None
        }
    }

    /// The fallback of a parent call of the method, for the methods that a
    /// parent class may leave out. The methods that every parent class is
    /// bound to provide have none, nor have the two cell property methods,
    /// for which there is no parent call.
    pub open spec fn fallback_spec(self) -> Option<Fallback> {
        match self {
            Method::Activate | Method::Event | Method::IsActivatable | Method::Focus => Some(
                Fallback::False,
            ),
            Method::Add
            | Method::ApplyAttributes
            | Method::Foreach
            | Method::ForeachAlloc
            | Method::Remove
            | Method::Snapshot => Some(Fallback::Nothing),
            _ => None,
        }
    }

    /// The fallback of a parent call of the method, if it has one.
    pub fn fallback(self) -> (fallback: Option<Fallback>)
        ensures
            fallback == self.fallback_spec(),
    {
        match self {
            Method::Activate | Method::Event | Method::IsActivatable | Method::Focus => Some(
                Fallback::False,
            ),
            Method::Add
            | Method::ApplyAttributes
            | Method::Foreach
            | Method::ForeachAlloc
            | Method::Remove
            | Method::Snapshot => Some(Fallback::Nothing),
            _ => None,
        }
    }

    /// Every method, in slot order.
    pub open spec fn every() -> Seq<Method> {
        Seq::new(METHOD_COUNT as nat, |i: int| Method::at(i))
    }

    /// Every method, in slot order.
    pub fn all() -> (methods: Vec<Method>)
        ensures
            methods@ == Method::every(),
            methods@.len() == METHOD_COUNT,
            forall|i: int| 0 <= i < METHOD_COUNT ==> methods@[i] == Method::at(i),
            forall|m: Method| methods@.to_set().contains(m),
    {
        let mut methods: Vec<Method> = Vec::new();
        let mut i: usize = 0;
        while i < METHOD_COUNT
            invariant
                i <= METHOD_COUNT,
                methods@.len() == i,
                forall|j: int| 0 <= j < i ==> methods@[j] == Method::at(j),
            decreases METHOD_COUNT - i,
        {
            match Method::from_index(i) {
                Some(method) => {
                    methods.push(method);
                },
                None => {},
            }
            i = i + 1;
        }
        assert(methods@ =~= Method::every());
        assert forall|m: Method| methods@.to_set().contains(m) by {
            law_method_index_bijection(m, 0);
            assert(methods@[m.index_spec()] == m);
        }
        methods
    }
}

/// Every method has a slot of its own, and every slot belongs to a method.
pub proof fn law_method_index_bijection(method: Method, index: int)
    ensures
        0 <= method.index_spec() < METHOD_COUNT,
        Method::at(method.index_spec()) == method,
        0 <= index < METHOD_COUNT ==> Method::at(index).index_spec() == index,
{
}

/// The identity of a registered class: its position in the registry.
#[derive(Clone, Copy, Debug, PartialEq, Eq, Structural)]
pub struct ClassId(pub usize);

/// What one slot of a table holds.
#[derive(Clone, Copy, Debug, PartialEq, Eq, Structural)]
pub enum Slot {
    /// Nothing: the class has no function for the method.
    Empty,
    /// A function of the toolkit, by its address.
    Native(usize),
    /// The trampoline into the managed implementation of the given class.
    Trampoline(ClassId),
}

/// The descriptor of a property, by the address of the native record.
#[derive(Clone, Copy, Debug, PartialEq, Eq, Structural)]
pub struct ParamSpec {
    pub ptr: usize,
}

/// A cell property as a class installs it: the descriptor and the identifier
/// under which the class will be asked for the property's value.
#[derive(Clone, Copy, Debug, PartialEq, Eq, Structural)]
pub struct CellProperty {
    pub id: u32,
    pub pspec: ParamSpec,
}

/// The slots of `slots` after the class `id` has put its trampoline into the
/// slot of every method in `overrides`.
pub open spec fn slots_with_overrides(slots: Seq<Slot>, id: ClassId, overrides: Set<Method>) -> Seq<
    Slot,
> {
    Seq::new(
        slots.len(),
        |i: int|
            if overrides.contains(Method::at(i)) {
                Slot::Trampoline(id)
            } else {
                slots[i]
            },
    )
}

/// The cell properties that installing `pspecs` in order gives: each
/// descriptor under its position.
pub open spec fn numbered_properties(pspecs: Seq<ParamSpec>) -> Seq<CellProperty> {
    Seq::new(pspecs.len(), |i: int| CellProperty { id: i as u32, pspec: pspecs[i] })
}

/// The class structure of one cell-area class: its virtual function table and
/// the cell properties that it installed.
#[derive(Debug)]
pub struct CellAreaClass {
    slots: Vec<Slot>,
    properties: Vec<CellProperty>,
}

impl CellAreaClass {
    /// The slots of the table, one per method, in slot order.
    pub closed spec fn slots(&self) -> Seq<Slot> {
        self.slots@
    }

    /// The cell properties that the class installed, in the order of their
    /// identifiers.
    pub closed spec fn properties(&self) -> Seq<CellProperty> {
        self.properties@
    }

    /// What the slot of `method` holds.
    pub open spec fn slot_spec(&self, method: Method) -> Slot {
        self.slots()[method.index_spec()]
    }

    /// A class structure is well formed when it has a slot for every method
    /// and its properties are numbered by their position.
    pub open spec fn wf(&self) -> bool {
        &&& self.slots().len() == METHOD_COUNT
        &&& self.properties().len() <= u32::MAX
        &&& forall|i: int|
            0 <= i < self.properties().len() ==> (#[trigger] self.properties()[i]).id == i
    }

    /// The table of a class that has no function for any method, and no cell
    /// property.
    pub fn empty() -> (klass: CellAreaClass)
        ensures
            klass.wf(),
            klass.properties().len() == 0,
            klass.slots() == Seq::new(METHOD_COUNT as nat, |i: int| Slot::Empty),
    {
        let mut slots: Vec<Slot> = Vec::new();
        let mut i: usize = 0;
        while i < METHOD_COUNT
            invariant
                i <= METHOD_COUNT,
                slots@.len() == i,
                forall|j: int| 0 <= j < i ==> slots@[j] == Slot::Empty,
            decreases METHOD_COUNT - i,
        {
            slots.push(Slot::Empty);
            i = i + 1;
        }
        assert(slots@ =~= Seq::new(METHOD_COUNT as nat, |i: int| Slot::Empty));
        CellAreaClass { slots, properties: Vec::new() }
    }

    /// What the slot of `method` holds.
    pub fn slot(&self, method: Method) -> (slot: Slot)
        requires
            self.wf(),
        ensures
            slot == self.slot_spec(method),
    {
        self.slots[method.index()]
    }

    /// Puts the toolkit's function at `address` into the slot of `method`;
    /// a null address empties the slot. This is how the table of a class of
    /// the toolkit itself is written down.
    pub fn set_native(&mut self, method: Method, address: usize)
        requires
            old(self).wf(),
        ensures
            final(self).wf(),
            final(self).properties() == old(self).properties(),
            final(self).slots() == old(self).slots().update(
                method.index_spec(),
                if address == 0 {
                    Slot::Empty
                } else {
                    Slot::Native(address)
                },
            ),
    {
        let slot = if address == 0 {
            Slot::Empty
        } else {
            Slot::Native(address)
        };
        self.slots.set(method.index(), slot);
    }

    /// The table with which a subclass starts: a copy of every slot of this
    /// one. Cell properties belong to the class that installed them and are
    /// not copied.
    pub fn inherit(&self) -> (child: CellAreaClass)
        requires
            self.wf(),
        ensures
            child.wf(),
            child.slots() == self.slots(),
            child.properties().len() == 0,
    {
        let mut slots: Vec<Slot> = Vec::new();
        let mut i: usize = 0;
        while i < METHOD_COUNT
            invariant
                i <= METHOD_COUNT,
                self.slots@.len() == METHOD_COUNT,
                slots@.len() == i,
                forall|j: int| 0 <= j < i ==> slots@[j] == self.slots@[j],
            decreases METHOD_COUNT - i,
        {
            slots.push(self.slots[i]);
            i = i + 1;
        }
        assert(slots@ =~= self.slots@);
        CellAreaClass { slots, properties: Vec::new() }
    }

    /// The number of cell properties that the class installed.
    pub fn n_cell_properties(&self) -> (n: usize)
        ensures
            n == self.properties().len(),
    {
        self.properties.len()
    }

    /// The cell property with identifier `id`, if the class installed one.
    pub fn cell_property(&self, id: u32) -> (property: Option<CellProperty>)
        requires
            self.wf(),
        ensures
            property == (if id < self.properties().len() {
                Some(self.properties()[id as int])
            } else {
                None
            }),
            property matches Some(p) ==> p.id == id,
    {
        if (id as usize) < self.properties.len() {
            Some(self.properties[id as usize])
        } else {
            None
        }
    }

    /// Whether the slot of `method` leads into the managed implementation of
    /// the class `id`.
    pub fn dispatches_to(&self, method: Method, id: ClassId) -> (yes: bool)
        requires
            self.wf(),
        ensures
            yes == (self.slot_spec(method) == Slot::Trampoline(id)),
    {
        match self.slots[method.index()] {
            Slot::Trampoline(owner) => owner.0 == id.0,
            _ => false,
        }
    }

    /// Initialises the class structure of the subclass `id`.
    ///
    /// On entry the structure holds the table inherited from the parent. The
    /// trampoline of `id` replaces what the slot of every method in
    /// `overrides` held; every other slot is left as it was. The descriptors
    /// in `pspecs` become the cell properties of the class, numbered from 0
    /// in the order given.
    pub fn class_init(&mut self, id: ClassId, overrides: &Vec<Method>, pspecs: &Vec<ParamSpec>)
        requires
            old(self).wf(),
            pspecs@.len() <= u32::MAX,
        ensures
            final(self).wf(),
            final(self).slots() == slots_with_overrides(
                old(self).slots(),
                id,
                overrides@.to_set(),
            ),
            final(self).properties() == numbered_properties(pspecs@),
    {
        let mut properties: Vec<CellProperty> = Vec::new();
        let mut prop_id: usize = 0;
        while prop_id < pspecs.len()
            invariant
                prop_id <= pspecs@.len(),
                pspecs@.len() <= u32::MAX,
                properties@.len() == prop_id,
                forall|j: int|
                    0 <= j < prop_id ==> properties@[j] == (CellProperty {
                        id: j as u32,
                        pspec: pspecs@[j],
                    }),
            decreases pspecs@.len() - prop_id,
        {
            properties.push(CellProperty { id: prop_id as u32, pspec: pspecs[prop_id] });
            prop_id = prop_id + 1;
        }
        assert(properties@ =~= numbered_properties(pspecs@));
        self.properties = properties;

        let ghost inherited = self.slots@;
        let mut k: usize = 0;
        while k < overrides.len()
            invariant
                k <= overrides@.len(),
                inherited.len() == METHOD_COUNT,
                self.slots@.len() == METHOD_COUNT,
                self.properties@ == numbered_properties(pspecs@),
                self.slots@ == slots_with_overrides(
                    inherited,
                    id,
                    overrides@.subrange(0, k as int).to_set(),
                ),
            decreases overrides@.len() - k,
        {
            let method = overrides[k];
            let ghost before = self.slots@;
            self.slots.set(method.index(), Slot::Trampoline(id));
            proof {
                let done = overrides@.subrange(0, k as int);
                let next = overrides@.subrange(0, k as int + 1);
                assert(next == done.push(method));
                assert(next.to_set() =~= done.to_set().insert(method)) by {
                    assert forall|m: Method| next.to_set().contains(m) <==> done.to_set().insert(
                        method,
                    ).contains(m) by {
                        if next.contains(m) {
                            let j = choose|j: int| 0 <= j < next.len() && next[j] == m;
                            if j < done.len() {
                                assert(done[j] == m);
                            }
                        }
                        if done.contains(m) {
                            let j = choose|j: int| 0 <= j < done.len() && done[j] == m;
                            assert(next[j] == m);
                        }
                        assert(next[k as int] == method);
                    }
                }
                assert forall|i: int| 0 <= i < METHOD_COUNT implies self.slots@[i]
                    == slots_with_overrides(inherited, id, next.to_set())[i] by {
                    law_method_index_bijection(method, i);
                    assert(before[i] == slots_with_overrides(inherited, id, done.to_set())[i]);
                }
                assert(self.slots@ =~= slots_with_overrides(inherited, id, next.to_set()));
            }
            k = k + 1;
        }
        proof {
            assert(overrides@.subrange(0, overrides@.len() as int) =~= overrides@);
        }
    }
}

} // verus!
