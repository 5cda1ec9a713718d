//! The native function registration table.
//!
//! The engine's descriptor records store a raw reference to each exposed
//! name rather than a copy, so whoever builds the descriptor list must keep
//! every name's backing storage alive for as long as the engine may resolve
//! a call through it. This table is that single owner: it holds the name
//! storage and a descriptor per entry, each descriptor pointing at its name
//! by index, and the two stay alive and consistent together for the table's
//! whole lifetime.

use vstd::prelude::*;

verus! {

/// One host function to expose: its guest-visible name, an opaque handle
/// into the host's trampoline table, the declared argument count, and the
/// property flags for the definition.
pub struct FunctionEntry {
    pub name: String,
    pub handler: usize,
    pub arity: u16,
    pub flags: u16,
}

/// One descriptor record as the engine consumes it. `name_index` points into
/// the owning table's name storage, standing for the raw name reference the
/// engine would hold.
#[derive(Clone, Copy, PartialEq, Eq, Structural, Debug)]
pub struct FunctionDescriptor {
    pub name_index: usize,
    pub handler: usize,
    pub arity: u16,
    pub flags: u16,
}

/// The registration artifact: the owned name storage and the descriptor
/// list built over it.
pub struct NativeFunctionTable {
    names: Vec<String>,
    descriptors: Vec<FunctionDescriptor>,
}

impl NativeFunctionTable {
    /// The owned name storage, one name per registered function.
    pub closed spec fn spec_names(&self) -> Seq<String> {
        self.names@
    }

    /// The descriptor list handed to the engine.
    pub closed spec fn spec_descriptors(&self) -> Seq<FunctionDescriptor> {
        self.descriptors@
    }

    /// Names and descriptors pair up one to one, and each descriptor points
    /// at its own entry's name.
    pub open spec fn well_formed(&self) -> bool {
        &&& self.spec_descriptors().len() == self.spec_names().len()
        &&& forall|i: int|
            0 <= i < self.spec_descriptors().len() ==> (#[trigger] self.spec_descriptors()[i]).name_index == i
    }

    /// The table carries exactly the given entries: the same names in the
    /// same order, and each descriptor with that entry's handler, arity and
    /// flags.
    pub open spec fn carries(&self, entries: Seq<FunctionEntry>) -> bool {
        &&& self.spec_names().len() == entries.len()
        &&& self.spec_descriptors().len() == entries.len()
        &&& forall|i: int|
            0 <= i < entries.len() ==> (#[trigger] self.spec_names()[i])@ == entries[i].name@
        &&& forall|i: int|
            0 <= i < entries.len() ==> {
                &&& (#[trigger] self.spec_descriptors()[i]).handler == entries[i].handler
                &&& self.spec_descriptors()[i].arity == entries[i].arity
                &&& self.spec_descriptors()[i].flags == entries[i].flags
            }
    }

    /// Builds the registration artifact from a list of functions to expose.
    /// The table owns a copy of every name, so the descriptors stay backed
    /// however long the input outlives this call.
    pub fn build(entries: &Vec<FunctionEntry>) -> (table: NativeFunctionTable)
        ensures
            table.well_formed(),
            table.carries(entries@),
    {
        let mut names: Vec<String> = Vec::new();
        let mut descriptors: Vec<FunctionDescriptor> = Vec::new();
        let mut i: usize = 0;
        while i < entries.len()
            invariant
                i <= entries@.len(),
                names@.len() == i,
                descriptors@.len() == i,
                forall|j: int| 0 <= j < i ==> (#[trigger] names@[j])@ == entries@[j].name@,
                forall|j: int|
                    0 <= j < i ==> {
                        &&& (#[trigger] descriptors@[j]).name_index == j
                        &&& descriptors@[j].handler == entries@[j].handler
                        &&& descriptors@[j].arity == entries@[j].arity
                        &&& descriptors@[j].flags == entries@[j].flags
                    },
            decreases entries@.len() - i,
        {
            let entry = &entries[i];
            let descriptor = FunctionDescriptor {
                name_index: i,
                handler: entry.handler,
                arity: entry.arity,
                flags: entry.flags,
            };
            names.push(entry.name.clone());
            descriptors.push(descriptor);
            i += 1;
        }
        NativeFunctionTable { names, descriptors }
    }

    /// How many functions the table registers.
    pub fn len(&self) -> (count: usize)
        ensures
            count == self.spec_names().len(),
    {
        self.names.len()
    }

    /// The name backing the descriptor at `index`; the storage the engine's
    /// raw reference would point into.
    pub fn name_at(&self, index: usize) -> (name: &String)
        requires
            index < self.spec_names().len(),
        ensures
            name == self.spec_names()[index as int],
    {
        &self.names[index]
    }

    /// The descriptor record at `index`.
    pub fn descriptor_at(&self, index: usize) -> (descriptor: FunctionDescriptor)
        requires
            index < self.spec_descriptors().len(),
        ensures
            descriptor == self.spec_descriptors()[index as int],
    {
        self.descriptors[index]
    }
}

} // verus!
