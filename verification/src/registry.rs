//! The registry of classes: which class derives from which, and the table
//! that each one was given when it was registered.
//!
//! Registration is the only way in which the registry changes. It appends one
//! class and touches no class that is already there, so the table of a class
//! is fixed from the moment of its registration on.
use crate::class::{
    numbered_properties, slots_with_overrides, CellAreaClass, CellProperty, ClassId, Fallback,
    Method, ParamSpec, Slot, METHOD_COUNT,
};
use vstd::prelude::*;

verus! {

/// Why a registration was turned down.
#[derive(Clone, Copy, Debug, PartialEq, Eq, Structural)]
pub enum RegistrationError {
    /// A class of that name is registered already.
    AlreadyRegistered,
    /// The parent is not a registered class.
    UnknownParent,
}

/// Where a parent call ends.
#[derive(Clone, Copy, Debug, PartialEq, Eq, Structural)]
pub enum ParentCall {
    /// In the function that the parent class has for the method: one of the
    /// toolkit, or the trampoline of an ancestor.
    Forward(Slot),
    /// The parent class has no function, and the call answers with the
    /// method's fallback.
    Fallback(Fallback),
    /// The parent class has no function for a method that it is bound to
    /// provide. The call cannot be made.
    Missing,
}

/// Where a parent call ends that finds `slot` in the parent's table.
pub open spec fn parent_call_of(slot: Slot, method: Method) -> ParentCall {
    match slot {
        Slot::Empty => match method.fallback_spec() {
            Some(fallback) => ParentCall::Fallback(fallback),
            None => ParentCall::Missing,
        },
        _ => ParentCall::Forward(slot),
    }
}

/// One class as the registry sees it.
pub struct ClassModel {
    /// The name under which the class was registered.
    pub name: Seq<char>,
    /// The class it derives from; `None` for a class of the toolkit itself.
    pub parent: Option<ClassId>,
    /// The methods that the class overrides.
    pub overrides: Set<Method>,
    /// The virtual function table of the class.
    pub slots: Seq<Slot>,
    /// The cell properties that the class installed.
    pub properties: Seq<CellProperty>,
}

/// The registry as a value: the classes in the order of their registration.
pub struct RegistryModel {
    /// Whether the toolkit has been initialised.
    pub initialized: bool,
    pub classes: Seq<ClassModel>,
}

/// The table of a class of the toolkit whose functions are at `functions`,
/// one address per method in slot order, null where the class has none.
pub open spec fn native_slots(functions: Seq<usize>) -> Seq<Slot> {
    Seq::new(
        METHOD_COUNT as nat,
        |i: int|
            if i < functions.len() && functions[i] != 0 {
                Slot::Native(functions[i])
            } else {
                Slot::Empty
            },
    )
}

/// What the invariant of a registry asks of the class at position `i`.
pub open spec fn class_invariant(registry: RegistryModel, i: int) -> bool {
    let c = registry.classes[i];
    &&& c.slots.len() == METHOD_COUNT
    &&& c.properties.len() <= u32::MAX
    &&& forall|k: int| 0 <= k < c.properties.len() ==> (#[trigger] c.properties[k]).id == k
    &&& match c.parent {
        None => {
            &&& c.overrides == Set::<Method>::empty()
            &&& forall|k: int| 0 <= k < METHOD_COUNT ==> !((#[trigger] c.slots[k]) is Trampoline)
        },
        Some(parent) => {
            &&& parent.0 < i
            &&& c.slots == slots_with_overrides(
                registry.classes[parent.0 as int].slots,
                ClassId(i as usize),
                c.overrides,
            )
        },
    }
}

impl RegistryModel {
    /// Whether `id` names a registered class.
    pub open spec fn contains(self, id: ClassId) -> bool {
        id.0 < self.classes.len()
    }

    /// The class that `id` names.
    pub open spec fn class(self, id: ClassId) -> ClassModel {
        self.classes[id.0 as int]
    }

    /// Whether a class of that name is registered.
    pub open spec fn has_name(self, name: Seq<char>) -> bool {
        exists|i: int| 0 <= i < self.classes.len() && (#[trigger] self.classes[i]).name == name
    }

    /// What runs when `method` is invoked on an instance of the class `id`:
    /// the content of that slot in the table of the class.
    pub open spec fn slot(self, id: ClassId, method: Method) -> Slot {
        self.class(id).slots[method.index_spec()]
    }

    /// What a parent call of `method` made by the class `id` reaches: the
    /// slot in the table of its parent.
    pub open spec fn parent_slot(self, id: ClassId, method: Method) -> Option<Slot> {
        if self.contains(id) {
            match self.class(id).parent {
                Some(parent) => Some(self.slot(parent, method)),
                None => None,
            }
        } else {
            None
        }
    }

    /// Where a parent call of `method` made by the class `id` ends; `None`
    /// where there is no such class or it has no parent.
    pub open spec fn parent_call(self, id: ClassId, method: Method) -> Option<ParentCall> {
        match self.parent_slot(id, method) {
            Some(slot) => Some(parent_call_of(slot, method)),
            None => None,
        }
    }

    /// Method resolution along the chain of parents: the trampoline of the
    /// nearest class, starting at `id` itself, that overrides `method`, and
    /// where no managed class on the chain does, what the toolkit's class at
    /// its root provides.
    pub open spec fn resolve(self, id: ClassId, method: Method) -> Slot
        decreases id.0,
    {
        match self.class(id).parent {
            None => self.slot(id, method),
            Some(parent) => if self.class(id).overrides.contains(method) {
                Slot::Trampoline(id)
            } else if parent.0 < id.0 {
                self.resolve(parent, method)
            } else {
                Slot::Empty
            },
        }
    }

    /// Whether `ancestor` is `id` or lies on the chain of parents of `id`.
    pub open spec fn derives_from(self, id: ClassId, ancestor: ClassId) -> bool
        decreases id.0,
    {
        id == ancestor || match self.class(id).parent {
            Some(parent) => parent.0 < id.0 && self.derives_from(parent, ancestor),
            None => false,
        }
    }

    /// The invariant of a registry.
    ///
    /// Every class has a full table and numbered properties. A class of the
    /// toolkit overrides nothing and holds no trampoline. A managed class was
    /// registered after its parent, and its table is the parent's with its
    /// own trampoline in the slots of the methods it overrides. No two
    /// classes share a name.
    pub open spec fn wf(self) -> bool {
        &&& forall|i: int| 0 <= i < self.classes.len() ==> #[trigger] class_invariant(self, i)
        &&& forall|i: int, j: int|
            0 <= i < j < self.classes.len() ==> (#[trigger] self.classes[i]).name != (
            #[trigger] self.classes[j]).name
    }

    /// The registry after the toolkit has been initialised.
    pub open spec fn initialize(self) -> RegistryModel {
        RegistryModel { initialized: true, classes: self.classes }
    }

    /// Registering a class of the toolkit: rejected when the name is taken,
    /// else appended with the table that `functions` describes.
    pub open spec fn register_native(self, name: Seq<char>, functions: Seq<usize>) -> (
        RegistryModel,
        Result<ClassId, RegistrationError>,
    ) {
        if self.has_name(name) {
            (self, Err(RegistrationError::AlreadyRegistered))
        } else {
            (
                RegistryModel {
                    initialized: self.initialized,
                    classes: self.classes.push(
                        ClassModel {
                            name,
                            parent: None,
                            overrides: Set::empty(),
                            slots: native_slots(functions),
                            properties: Seq::empty(),
                        },
                    ),
                },
                Ok(ClassId(self.classes.len() as usize)),
            )
        }
    }

    /// Registering a managed subclass: rejected when the name is taken or
    /// the parent unknown, else appended with the parent's table overwritten
    /// in the overridden slots and with its own cell properties.
    pub open spec fn register(
        self,
        name: Seq<char>,
        parent: ClassId,
        overrides: Set<Method>,
        pspecs: Seq<ParamSpec>,
    ) -> (RegistryModel, Result<ClassId, RegistrationError>) {
        if self.has_name(name) {
            (self, Err(RegistrationError::AlreadyRegistered))
        } else if !self.contains(parent) {
            (self, Err(RegistrationError::UnknownParent))
        } else {
            let id = ClassId(self.classes.len() as usize);
            (
                RegistryModel {
                    initialized: self.initialized,
                    classes: self.classes.push(
                        ClassModel {
                            name,
                            parent: Some(parent),
                            overrides,
                            slots: slots_with_overrides(self.class(parent).slots, id, overrides),
                            properties: numbered_properties(pspecs),
                        },
                    ),
                },
                Ok(id),
            )
        }
    }
}

/// One registered class.
#[derive(Debug)]
struct ClassRecord {
    name: String,
    parent: Option<ClassId>,
    overrides: Vec<Method>,
    klass: CellAreaClass,
}

impl ClassRecord {
    /// The class as the registry's model holds it.
    spec fn model(&self) -> ClassModel {
        ClassModel {
            name: self.name@,
            parent: self.parent,
            overrides: self.overrides@.to_set(),
            slots: self.klass.slots(),
            properties: self.klass.properties(),
        }
    }
}

/// The registry of cell-area classes of one process.
#[derive(Debug)]
pub struct TypeRegistry {
    initialized: bool,
    records: Vec<ClassRecord>,
}

impl View for TypeRegistry {
    type V = RegistryModel;

    closed spec fn view(&self) -> RegistryModel {
        RegistryModel {
            initialized: self.initialized,
            classes: Seq::new(self.records@.len(), |i: int| self.records@[i].model()),
        }
    }
}

impl TypeRegistry {
    /// The registry of a process in which the toolkit has not been
    /// initialised yet: no class is registered.
    pub fn new() -> (registry: TypeRegistry)
        ensures
            registry@.wf(),
            !registry@.initialized,
            registry@.classes.len() == 0,
    {
        TypeRegistry { initialized: false, records: Vec::new() }
    }

    /// Records that the toolkit has been initialised. The classes are left
    /// as they are.
    pub fn initialize(&mut self)
        ensures
            final(self)@ == old(self)@.initialize(),
            old(self)@.wf() ==> final(self)@.wf(),
    {
        self.initialized = true;
        assert(self@.classes =~= old(self)@.classes);
        proof {
            if old(self)@.wf() {
                law_initialize_keeps_invariant(old(self)@);
            }
        }
    }

    /// Whether the toolkit has been initialised.
    pub fn is_initialized(&self) -> (initialized: bool)
        ensures
            initialized == self@.initialized,
    {
        self.initialized
    }

    /// The number of registered classes.
    pub fn len(&self) -> (n: usize)
        ensures
            n == self@.classes.len(),
    {
        self.records.len()
    }

    /// Whether `id` names a registered class.
    pub fn contains(&self, id: ClassId) -> (known: bool)
        ensures
            known == self@.contains(id),
    {
        id.0 < self.records.len()
    }

    /// The class registered under `name`, if there is one.
    pub fn lookup(&self, name: &str) -> (found: Option<ClassId>)
        ensures
            found matches Some(id) ==> self@.contains(id) && self@.class(id).name == name@,
            found matches Some(id) ==> forall|j: int|
                0 <= j < id.0 ==> (#[trigger] self@.classes[j]).name != name@,
            found is None ==> !self@.has_name(name@),
    {
        let wanted: String = name.to_owned();
        let mut i: usize = 0;
        while i < self.records.len()
            invariant
                i <= self.records@.len(),
                wanted@ == name@,
                forall|j: int| 0 <= j < i ==> (#[trigger] self@.classes[j]).name != name@,
            decreases self.records@.len() - i,
        {
            if self.records[i].name == wanted {
                return Some(ClassId(i));
            }
            i = i + 1;
        }
        None
    }

    /// The class that `id` derives from; `None` for a class of the toolkit
    /// and for an unknown `id`.
    pub fn parent(&self, id: ClassId) -> (parent: Option<ClassId>)
        ensures
            parent == (if self@.contains(id) {
                self@.class(id).parent
            } else {
                None
            }),
    {
        if id.0 < self.records.len() {
            self.records[id.0].parent
        } else {
            None
        }
    }

    /// The class structure of `id`, if `id` names a registered class.
    pub fn class(&self, id: ClassId) -> (klass: Option<&CellAreaClass>)
        requires
            self@.wf(),
        ensures
            klass is Some == self@.contains(id),
            klass matches Some(k) ==> k.wf(),
            klass matches Some(k) ==> k.slots() == self@.class(id).slots,
            klass matches Some(k) ==> k.properties() == self@.class(id).properties,
    {
        if id.0 < self.records.len() {
            assert(class_invariant(self@, id.0 as int));
            Some(&self.records[id.0].klass)
        } else {
            None
        }
    }

    /// What runs when `method` is invoked on an instance of the class `id`;
    /// `None` for an unknown `id`.
    pub fn slot(&self, id: ClassId, method: Method) -> (slot: Option<Slot>)
        requires
            self@.wf(),
        ensures
            slot == (if self@.contains(id) {
                Some(self@.slot(id, method))
            } else {
                None
            }),
    {
        match self.class(id) {
            Some(klass) => Some(klass.slot(method)),
            None => None,
        }
    }

    /// What a parent call of `method` made by the class `id` reaches: the
    /// slot of the parent's table. `None` for an unknown `id` and for a class
    /// without a parent.
    pub fn parent_slot(&self, id: ClassId, method: Method) -> (slot: Option<Slot>)
        requires
            self@.wf(),
        ensures
            slot == self@.parent_slot(id, method),
    {
        match self.parent(id) {
            Some(parent) => {
                assert(class_invariant(self@, id.0 as int));
                self.slot(parent, method)
            },
            None => None,
        }
    }

    /// Where a parent call of `method` made by the class `id` ends: in the
    /// parent's function if the parent has one, else in the method's
    /// fallback, and for a method without a fallback nowhere. `None` for an
    /// unknown `id` and for a class without a parent.
    pub fn parent_call(&self, id: ClassId, method: Method) -> (call: Option<ParentCall>)
        requires
            self@.wf(),
        ensures
            call == self@.parent_call(id, method),
    {
        match self.parent_slot(id, method) {
            Some(Slot::Empty) => match method.fallback() {
                Some(fallback) => Some(ParentCall::Fallback(fallback)),
                None => Some(ParentCall::Missing),
            },
            Some(slot) => Some(ParentCall::Forward(slot)),
            None => None,
        }
    }

    /// Registers a class of the toolkit itself under `name`.
    ///
    /// `functions` gives the address of the class's function for each method
    /// in slot order; a null or missing address leaves the slot empty. The
    /// registration is rejected, and the registry left as it was, when a
    /// class of that name exists.
    pub fn register_native(&mut self, name: &str, functions: &Vec<usize>) -> (result: Result<
        ClassId,
        RegistrationError,
    >)
        requires
            old(self)@.wf(),
        ensures
            final(self)@.wf(),
            (final(self)@, result) == old(self)@.register_native(name@, functions@),
    {
        if self.lookup(name).is_some() {
            return Err(RegistrationError::AlreadyRegistered);
        }
        let mut klass = CellAreaClass::empty();
        let mut i: usize = 0;
        while i < METHOD_COUNT
            invariant
                i <= METHOD_COUNT,
                klass.wf(),
                klass.properties().len() == 0,
                forall|k: int|
                    0 <= k < i ==> #[trigger] klass.slots()[k] == native_slots(functions@)[k],
                forall|k: int| i <= k < METHOD_COUNT ==> #[trigger] klass.slots()[k] == Slot::Empty,
            decreases METHOD_COUNT - i,
        {
            if i < functions.len() {
                match Method::from_index(i) {
                    Some(method) => {
                        proof {
                            crate::class::law_method_index_bijection(method, i as int);
                        }
                        klass.set_native(method, functions[i]);
                    },
                    None => {},
                }
            }
            i = i + 1;
        }
        assert(klass.slots() =~= native_slots(functions@));
        assert(klass.properties() =~= Seq::<CellProperty>::empty());
        let id = ClassId(self.records.len());
        let record = ClassRecord {
            name: name.to_owned(),
            parent: None,
            overrides: Vec::new(),
            klass,
        };
        assert(record.overrides@.to_set() =~= Set::<Method>::empty());
        self.records.push(record);
        proof {
            let expected = old(self)@.register_native(name@, functions@).0;
            assert(self@.classes =~= expected.classes);
            law_register_native_keeps_invariant(old(self)@, name@, functions@);
        }
        Ok(id)
    }

    /// Registers a managed subclass of `parent` under `name`.
    ///
    /// The new class gets a copy of the parent's table in which its own
    /// trampoline stands in the slot of every method in `overrides`, and the
    /// descriptors in `pspecs` as its cell properties, numbered from 0. The
    /// registration is rejected, and the registry left as it was, when a
    /// class of that name exists or `parent` is not registered. The toolkit
    /// must have been initialised.
    pub fn register(
        &mut self,
        name: &str,
        parent: ClassId,
        overrides: &Vec<Method>,
        pspecs: &Vec<ParamSpec>,
    ) -> (result: Result<ClassId, RegistrationError>)
        requires
            old(self)@.wf(),
            old(self)@.initialized,
            pspecs@.len() <= u32::MAX,
        ensures
            final(self)@.wf(),
            (final(self)@, result) == old(self)@.register(
                name@,
                parent,
                overrides@.to_set(),
                pspecs@,
            ),
    {
        if self.lookup(name).is_some() {
            return Err(RegistrationError::AlreadyRegistered);
        }
        if parent.0 >= self.records.len() {
            return Err(RegistrationError::UnknownParent);
        }
        let id = ClassId(self.records.len());
        assert(class_invariant(self@, parent.0 as int));
        let mut klass = self.records[parent.0].klass.inherit();
        klass.class_init(id, overrides, pspecs);
        let mut declared: Vec<Method> = Vec::new();
        let mut k: usize = 0;
        while k < overrides.len()
            invariant
                k <= overrides@.len(),
                declared@ == overrides@.subrange(0, k as int),
            decreases overrides@.len() - k,
        {
            declared.push(overrides[k]);
            assert(overrides@.subrange(0, k as int).push(overrides@[k as int])
                =~= overrides@.subrange(0, k as int + 1));
            k = k + 1;
        }
        assert(declared@ =~= overrides@);
        let record = ClassRecord {
            name: name.to_owned(),
            parent: Some(parent),
            overrides: declared,
            klass,
        };
        self.records.push(record);
        proof {
            let expected = old(self)@.register(name@, parent, overrides@.to_set(), pspecs@).0;
            assert(self@.classes =~= expected.classes);
            law_register_keeps_invariant(old(self)@, name@, parent, overrides@.to_set(), pspecs@);
        }
        Ok(id)
    }
}

/// Initialising the toolkit keeps the invariant of the registry.
pub proof fn law_initialize_keeps_invariant(registry: RegistryModel)
    requires
        registry.wf(),
    ensures
        registry.initialize().wf(),
{
    let after = registry.initialize();
    assert forall|i: int| 0 <= i < after.classes.len() implies class_invariant(after, i) by {
        assert(class_invariant(registry, i));
    }
}

/// Registering a class of the toolkit keeps the invariant of the registry.
pub proof fn law_register_native_keeps_invariant(
    registry: RegistryModel,
    name: Seq<char>,
    functions: Seq<usize>,
)
    requires
        registry.wf(),
    ensures
        registry.register_native(name, functions).0.wf(),
{
    let after = registry.register_native(name, functions).0;
    if !registry.has_name(name) {
        let n = registry.classes.len() as int;
        assert forall|i: int, j: int| 0 <= i < j < after.classes.len() implies (
        #[trigger] after.classes[i]).name != (#[trigger] after.classes[j]).name by {
            assert(after.classes[i] == registry.classes[i]);
            if j < n {
                assert(after.classes[j] == registry.classes[j]);
            }
        }
        assert forall|i: int| 0 <= i < after.classes.len() implies class_invariant(
            after,
            i,
        ) by {
            if i < n {
                assert(after.classes[i] == registry.classes[i]);
                assert(class_invariant(registry, i));
                match after.classes[i].parent {
                    Some(p) => {
                        assert(after.classes[p.0 as int] == registry.classes[p.0 as int]);
                    },
                    None => {},
                }
            }
        }
    }
}

/// Registering a managed subclass keeps the invariant of the registry.
pub proof fn law_register_keeps_invariant(
    registry: RegistryModel,
    name: Seq<char>,
    parent: ClassId,
    overrides: Set<Method>,
    pspecs: Seq<ParamSpec>,
)
    requires
        registry.wf(),
        pspecs.len() <= u32::MAX,
    ensures
        registry.register(name, parent, overrides, pspecs).0.wf(),
{
    let after = registry.register(name, parent, overrides, pspecs).0;
    if !registry.has_name(name) && registry.contains(parent) {
        let n = registry.classes.len() as int;
        assert forall|i: int, j: int| 0 <= i < j < after.classes.len() implies (
        #[trigger] after.classes[i]).name != (#[trigger] after.classes[j]).name by {
            assert(after.classes[i] == registry.classes[i]);
            if j < n {
                assert(after.classes[j] == registry.classes[j]);
            }
        }
        assert forall|i: int| 0 <= i < after.classes.len() implies class_invariant(
            after,
            i,
        ) by {
            if i < n {
                assert(after.classes[i] == registry.classes[i]);
                assert(class_invariant(registry, i));
                match after.classes[i].parent {
                    Some(p) => {
                        assert(after.classes[p.0 as int] == registry.classes[p.0 as int]);
                    },
                    None => {},
                }
            } else {
                assert(after.classes[parent.0 as int] == registry.classes[parent.0 as int]);
                assert(class_invariant(registry, parent.0 as int));
            }
        }
    }
}

/// Registration never touches a class that is registered already: whatever
/// is registered, and whether or not the registration succeeds, every class
/// that was there keeps its name, its parent, its table and its properties.
/// A successful registration adds exactly one class, a rejected one none.
pub proof fn law_registered_classes_are_immutable(
    registry: RegistryModel,
    name: Seq<char>,
    parent: ClassId,
    overrides: Set<Method>,
    pspecs: Seq<ParamSpec>,
    functions: Seq<usize>,
    id: ClassId,
)
    requires
        registry.contains(id),
    ensures
        registry.register(name, parent, overrides, pspecs).0.contains(id),
        registry.register(name, parent, overrides, pspecs).0.class(id) == registry.class(id),
        registry.register_native(name, functions).0.contains(id),
        registry.register_native(name, functions).0.class(id) == registry.class(id),
        registry.register(name, parent, overrides, pspecs).0.classes.len() == registry.classes.len()
            + (if registry.register(name, parent, overrides, pspecs).1 is Ok {
            1int
        } else {
            0int
        }),
        registry.register_native(name, functions).0.classes.len() == registry.classes.len() + (
        if registry.register_native(name, functions).1 is Ok {
            1int
        } else {
            0int
        }),
{
}

/// A class cannot be registered twice. Once a registration under `name` has
/// succeeded, every further registration under that name is rejected as
/// `AlreadyRegistered` and leaves the registry, and with it every table,
/// exactly as it was.
pub proof fn law_second_registration_is_rejected(
    registry: RegistryModel,
    name: Seq<char>,
    parent: ClassId,
    overrides: Set<Method>,
    pspecs: Seq<ParamSpec>,
    parent_again: ClassId,
    overrides_again: Set<Method>,
    pspecs_again: Seq<ParamSpec>,
)
    requires
        registry.register(name, parent, overrides, pspecs).1 is Ok,
    ensures
        registry.register(name, parent, overrides, pspecs).0.register(
            name,
            parent_again,
            overrides_again,
            pspecs_again,
        ) == (
            registry.register(name, parent, overrides, pspecs).0,
            Err::<ClassId, RegistrationError>(RegistrationError::AlreadyRegistered),
        ),
{
    let after = registry.register(name, parent, overrides, pspecs).0;
    let n = registry.classes.len() as int;
    assert(after.classes[n].name == name);
    assert(after.has_name(name));
}

/// A class that overrides a method is reached by it: the slot of the method
/// in the class's own table holds the class's own trampoline.
pub proof fn law_override_is_dispatched_to(registry: RegistryModel, id: ClassId, method: Method)
    requires
        registry.wf(),
        registry.contains(id),
        registry.class(id).overrides.contains(method),
    ensures
        registry.slot(id, method) == Slot::Trampoline(id),
{
    assert(class_invariant(registry, id.0 as int));
    crate::class::law_method_index_bijection(method, 0);
}

/// A class that does not override a method inherits it: the slot of the
/// method holds what the parent's table holds, be that a trampoline of an
/// ancestor, a function of the toolkit or nothing.
pub proof fn law_unoverridden_method_is_inherited(
    registry: RegistryModel,
    id: ClassId,
    method: Method,
)
    requires
        registry.wf(),
        registry.contains(id),
        registry.class(id).parent is Some,
        !registry.class(id).overrides.contains(method),
    ensures
        registry.parent_slot(id, method) == Some(registry.slot(id, method)),
{
    assert(class_invariant(registry, id.0 as int));
    crate::class::law_method_index_bijection(method, 0);
}

/// The table of a class agrees with method resolution along its chain of
/// parents.
pub proof fn law_slot_is_method_resolution(registry: RegistryModel, id: ClassId, method: Method)
    requires
        registry.wf(),
        registry.contains(id),
    ensures
        registry.slot(id, method) == registry.resolve(id, method),
    decreases id.0,
{
    assert(class_invariant(registry, id.0 as int));
    crate::class::law_method_index_bijection(method, 0);
    match registry.class(id).parent {
        Some(parent) => {
            if !registry.class(id).overrides.contains(method) {
                law_slot_is_method_resolution(registry, parent, method);
            }
        },
        None => {},
    }
}

/// A trampoline in the table of a class leads into the class itself or into
/// one of its ancestors, and that class overrides the method.
pub proof fn law_trampoline_owner_is_ancestor(registry: RegistryModel, id: ClassId, method: Method)
    requires
        registry.wf(),
        registry.contains(id),
    ensures
        registry.slot(id, method) matches Slot::Trampoline(owner) ==> owner.0 <= id.0,
        registry.slot(id, method) matches Slot::Trampoline(owner) ==> registry.derives_from(
            id,
            owner,
        ),
        registry.slot(id, method) matches Slot::Trampoline(owner) ==> registry.class(
            owner,
        ).overrides.contains(method),
    decreases id.0,
{
    assert(class_invariant(registry, id.0 as int));
    crate::class::law_method_index_bijection(method, 0);
    match registry.class(id).parent {
        Some(parent) => {
            if !registry.class(id).overrides.contains(method) {
                law_trampoline_owner_is_ancestor(registry, parent, method);
            }
        },
        None => {},
    }
}

/// A parent call of a method that a parent may leave out can always be made:
/// it ends in a function or in the method's fallback. Where neither the
/// class's ancestors nor the toolkit's class at the root have a function for
/// the method, it ends in the fallback.
pub proof fn law_optional_parent_call_has_an_end(
    registry: RegistryModel,
    id: ClassId,
    method: Method,
)
    requires
        registry.wf(),
        registry.contains(id),
        registry.class(id).parent is Some,
        method.fallback_spec() is Some,
    ensures
        registry.parent_call(id, method) is Some,
        registry.parent_call(id, method) != Some(ParentCall::Missing),
        registry.resolve(registry.class(id).parent->0, method) == Slot::Empty
            ==> registry.parent_call(id, method) == Some(
            ParentCall::Fallback(method.fallback_spec()->0),
        ),
{
    assert(class_invariant(registry, id.0 as int));
    law_slot_is_method_resolution(registry, registry.class(id).parent->0, method);
}

/// A parent call never comes back to the class that makes it. What the call
/// reaches is the parent's slot, and a trampoline there leads into a class
/// that was registered before the caller; so a chain of parent calls visits
/// each class at most once and ends.
pub proof fn law_parent_call_never_reenters(registry: RegistryModel, id: ClassId, method: Method)
    requires
        registry.wf(),
        registry.contains(id),
    ensures
        registry.parent_slot(id, method) != Some(Slot::Trampoline(id)),
        registry.parent_slot(id, method) matches Some(Slot::Trampoline(owner)) ==> owner.0 < id.0,
        registry.parent_call(id, method) != Some(ParentCall::Forward(Slot::Trampoline(id))),
{
    assert(class_invariant(registry, id.0 as int));
    match registry.class(id).parent {
        Some(parent) => {
            law_trampoline_owner_is_ancestor(registry, parent, method);
        },
        None => {},
    }
}

} // verus!
