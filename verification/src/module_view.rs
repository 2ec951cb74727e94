//! A read-only view of the module that declares a native function: the names
//! of its struct handles, in the order of its handle table.

use crate::file_format::StructHandleIndex;
use crate::text::str_eq;
use vstd::prelude::*;

verus! {

/// The most struct handles that a module can hold: as many as a
/// `StructHandleIndex` can tell apart.
pub const MAX_STRUCT_HANDLES: usize = 65536;

/// The names that a sequence of strings denotes, in order.
pub open spec fn names_of(strings: Seq<String>) -> Seq<Seq<char>> {
    Seq::new(strings.len(), |i: int| strings[i]@)
}

/// The struct handles of a module, by name.
#[derive(Debug)]
pub struct ModuleView {
    struct_handle_names: Vec<String>,
}

impl View for ModuleView {
    type V = Seq<Seq<char>>;

    closed spec fn view(&self) -> Seq<Seq<char>> {
        names_of(self.struct_handle_names@)
    }
}

impl ModuleView {
    #[verifier::type_invariant]
    spec fn well_formed(&self) -> bool {
        self.struct_handle_names@.len() <= MAX_STRUCT_HANDLES
    }

    /// The view of a module whose struct handles have the given names, if
    /// they are no more than a module can hold.
    pub fn new(struct_handle_names: Vec<String>) -> (view: Option<ModuleView>)
        ensures
            view is Some <==> struct_handle_names@.len() <= MAX_STRUCT_HANDLES,
            view matches Some(v) ==> v@ == names_of(struct_handle_names@),
    {
        if struct_handle_names.len() <= MAX_STRUCT_HANDLES {
            Some(ModuleView { struct_handle_names })
        } else {
            None
        }
    }

    /// How many struct handles the module holds.
    pub fn struct_handle_count(&self) -> (count: usize)
        ensures
            count == self@.len(),
            count <= MAX_STRUCT_HANDLES,
    {
        proof {
            use_type_invariant(self);
        }
        self.struct_handle_names.len()
    }

    /// The name of the struct handle at a position of the handle table, if
    /// the table has such a position.
    pub fn struct_handle_name(&self, position: usize) -> (name: Option<&str>)
        ensures
            match name {
                Some(name) => position < self@.len() && name@ == self@[position as int],
                None => position >= self@.len(),
            },
    {
        if position < self.struct_handle_names.len() {
            Some(self.struct_handle_names[position].as_str())
        } else {
            None
        }
    }
}

/// Whether `position` is the first place at which `names` holds `name`.
pub open spec fn is_first_named(names: Seq<Seq<char>>, name: Seq<char>, position: int) -> bool {
    &&& 0 <= position < names.len()
    &&& names[position] == name
    &&& forall|j: int| 0 <= j < position ==> names[j] != name
}

/// The index of the first of `names` that is `name`, or nothing where none is.
pub open spec fn spec_struct_handle_idx(names: Seq<Seq<char>>, name: Seq<char>) -> Option<
    StructHandleIndex,
> {
    if exists|position: int| is_first_named(names, name, position) {
        Some(StructHandleIndex((choose|position: int| is_first_named(names, name, position)) as u16))
    } else {
        None
    }
}

/// At most one position is the first at which `names` holds `name`.
pub proof fn lemma_first_named_is_unique(
    names: Seq<Seq<char>>,
    name: Seq<char>,
    one: int,
    other: int,
)
    requires
        is_first_named(names, name, one),
        is_first_named(names, name, other),
    ensures
        one == other,
{
}

/// Where any of `names` is `name`, one of them is the first.
pub proof fn lemma_some_named_has_first(names: Seq<Seq<char>>, name: Seq<char>)
    ensures
        (exists|position: int| 0 <= position < names.len() && #[trigger] names[position] == name)
            ==> exists|position: int| is_first_named(names, name, position),
        spec_struct_handle_idx(names, name) is None ==> forall|position: int|
            0 <= position < names.len() ==> #[trigger] names[position] != name,
{
    if exists|position: int| 0 <= position < names.len() && #[trigger] names[position] == name {
        let found = choose|position: int|
            0 <= position < names.len() && #[trigger] names[position] == name;
        lemma_first_named_before(names, name, found);
    }
}

/// Where `names` holds `name` at `found`, it holds it first at `found` or
/// before.
proof fn lemma_first_named_before(names: Seq<Seq<char>>, name: Seq<char>, found: int)
    requires
        0 <= found < names.len(),
        names[found] == name,
    ensures
        exists|position: int| position <= found && is_first_named(names, name, position),
    decreases found,
{
    if exists|earlier: int| 0 <= earlier < found && #[trigger] names[earlier] == name {
        let earlier = choose|earlier: int| 0 <= earlier < found && #[trigger] names[earlier] == name;
        lemma_first_named_before(names, name, earlier);
    } else {
        assert(is_first_named(names, name, found));
    }
}

/// The index of the first struct handle of the module that bears the given
/// name, or nothing where no handle bears it.
pub fn struct_handle_idx(m: &ModuleView, name: &str) -> (found: Option<StructHandleIndex>)
    ensures
        found == spec_struct_handle_idx(m@, name@),
        match found {
            Some(index) => is_first_named(m@, name@, index.0 as int),
            None => forall|j: int| 0 <= j < m@.len() ==> m@[j] != name@,
        },
{
    let count = m.struct_handle_count();
    let mut idx: usize = 0;
    while idx < count
        invariant
            count == m@.len(),
            count <= MAX_STRUCT_HANDLES,
            idx <= count,
            forall|j: int| 0 <= j < idx ==> m@[j] != name@,
        decreases count - idx,
    {
        let handle_name = match m.struct_handle_name(idx) {
            Some(handle_name) => handle_name,
            None => return None,
        };
        if str_eq(handle_name, name) {
            proof {
                assert(is_first_named(m@, name@, idx as int));
                let chosen = choose|position: int| is_first_named(m@, name@, position);
                lemma_first_named_is_unique(m@, name@, idx as int, chosen);
            }
            return Some(StructHandleIndex::new(idx as u16));
        }
        idx = idx + 1;
    }
    None
}

} // verus!
