//! The module descriptor and its ordered `declare_*` construction contract.

use crate::exports::Export;
use crate::exports::ExportMap;
use crate::types::FunctionIndex;
use crate::types::Global;
use crate::types::GlobalIndex;
use crate::types::Memory;
use crate::types::MemoryIndex;
use crate::types::Signature;
use crate::types::SignatureIndex;
use crate::types::Table;
use crate::types::TableIndex;
use vstd::prelude::*;

verus! {

/// A value a table element can take.
#[derive(Clone, Copy, Debug, PartialEq, Eq)]
pub enum TableElement {
    /// An element that, if called, produces a trap.
    Trap,
    /// A function.
    Function(FunctionIndex),
}

/// A table initializer: at instantiation, the function indices in `elements`
/// are written into table `table_index` starting at the element position
/// `base + offset`, where `base` is the runtime value of the global
/// `base`, or zero when absent.
///
/// Initializers are applied in the order they were declared; a later
/// initializer overwrites whatever an earlier one wrote to the same
/// positions.
#[derive(Clone, Debug, PartialEq, Eq)]
pub struct TableElements {
    /// The index of the table to initialize.
    pub table_index: TableIndex,
    /// Optionally, a global variable giving a base index.
    pub base: Option<GlobalIndex>,
    /// The offset to add to the base.
    pub offset: usize,
    /// The function indices to write into the table elements.
    pub elements: Vec<FunctionIndex>,
}

/// A translated WebAssembly module's static shape, excluding function bodies
/// and linear-memory initializer data.
///
/// A decoder populates the structure through the `declare_*` operations, in
/// the order the entities appear in the module source; each appending
/// operation returns the new entry's zero-based position in its collection,
/// and that position is stable for the structure's lifetime. After that
/// single pass the structure is read-only.
///
/// No operation validates the indices it stores: an out-of-range reference
/// is recorded as given, and the consumer must bounds-check every index it
/// resolves, rejecting the module when one is out of range.
#[derive(Debug)]
pub struct Module {
    /// Unprocessed signatures exactly as provided by `declare_signature`.
    pub signatures: Vec<Signature>,
    /// Names of imported functions, one `(module, field)` pair per imported
    /// function, parallel to the imported prefix of `functions`.
    pub imported_funcs: Vec<(String, String)>,
    /// Types of functions, imported and local: for each function, the index
    /// of its signature. Imported functions occupy the lowest indices.
    pub functions: Vec<SignatureIndex>,
    /// WebAssembly tables.
    pub tables: Vec<Table>,
    /// WebAssembly linear memories.
    pub memories: Vec<Memory>,
    /// WebAssembly global variables.
    pub globals: Vec<Global>,
    /// Exported entities, by export name.
    pub exports: ExportMap,
    /// The module "start" function, if present.
    pub start_func: Option<FunctionIndex>,
    /// WebAssembly table initializers, in declaration order.
    pub table_elements: Vec<TableElements>,
}

impl Module {
    /// The import-name sequence cannot name more functions than the function
    /// collection holds: the imported functions are a prefix of it.
    ///
    /// The structure does not enforce this by itself — a producer that
    /// appends to `imported_funcs` without a matching function entry breaks
    /// it — but every `declare_*` operation preserves it, and a consumer can
    /// detect a violation by comparing the two lengths.
    pub open spec fn import_names_in_step(self) -> bool {
        self.imported_funcs@.len() <= self.functions@.len()
    }

    /// Allocates the module data structures, all empty.
    pub fn new() -> (m: Module)
        ensures
            m.signatures@ == Seq::<Signature>::empty(),
            m.imported_funcs@ == Seq::<(String, String)>::empty(),
            m.functions@ == Seq::<SignatureIndex>::empty(),
            m.tables@ == Seq::<Table>::empty(),
            m.memories@ == Seq::<Memory>::empty(),
            m.globals@ == Seq::<Global>::empty(),
            m.exports@ == Map::<Seq<char>, Export>::empty(),
            m.start_func == None::<FunctionIndex>,
            m.table_elements@ == Seq::<TableElements>::empty(),
            m.import_names_in_step(),
    {
        Module {
            signatures: Vec::new(),
            imported_funcs: Vec::new(),
            functions: Vec::new(),
            tables: Vec::new(),
            memories: Vec::new(),
            globals: Vec::new(),
            exports: ExportMap::new(),
            start_func: None,
            table_elements: Vec::new(),
        }
    }

    /// Appends a signature; its index is the signature collection's length
    /// before the append.
    pub fn declare_signature(&mut self, sig: Signature) -> (index: SignatureIndex)
        ensures
            index == old(self).signatures@.len(),
            final(self).signatures@ == old(self).signatures@.push(sig),
            final(self).signatures@.len() == old(self).signatures@.len() + 1,
            final(self).signatures@[index as int] == sig,
            old(self).import_names_in_step() ==> final(self).import_names_in_step(),
            final(self).imported_funcs == old(self).imported_funcs,
            final(self).functions == old(self).functions,
            final(self).tables == old(self).tables,
            final(self).memories == old(self).memories,
            final(self).globals == old(self).globals,
            final(self).exports == old(self).exports,
            final(self).start_func == old(self).start_func,
            final(self).table_elements == old(self).table_elements,
    {
        let index = self.signatures.len();
        self.signatures.push(sig);
        index
    }

    /// Appends an imported function referencing the signature `sig_index`,
    /// together with its import name pair; the two sequences grow in step.
    /// The returned function index is the function collection's length
    /// before the append.
    pub fn declare_func_import(
        &mut self,
        sig_index: SignatureIndex,
        module: String,
        field: String,
    ) -> (index: FunctionIndex)
        ensures
            index == old(self).functions@.len(),
            final(self).functions@ == old(self).functions@.push(sig_index),
            final(self).functions@.len() == old(self).functions@.len() + 1,
            final(self).functions@[index as int] == sig_index,
            final(self).imported_funcs@ == old(self).imported_funcs@.push((module, field)),
            final(self).imported_funcs@.len() == old(self).imported_funcs@.len() + 1,
            old(self).import_names_in_step() ==> final(self).import_names_in_step(),
            final(self).signatures == old(self).signatures,
            final(self).tables == old(self).tables,
            final(self).memories == old(self).memories,
            final(self).globals == old(self).globals,
            final(self).exports == old(self).exports,
            final(self).start_func == old(self).start_func,
            final(self).table_elements == old(self).table_elements,
    {
        let index = self.functions.len();
        self.functions.push(sig_index);
        self.imported_funcs.push((module, field));
        index
    }

    /// Appends a locally defined function referencing the signature
    /// `sig_index`; its function index is the function collection's length
    /// before the append.
    pub fn declare_function(&mut self, sig_index: SignatureIndex) -> (index: FunctionIndex)
        ensures
            index == old(self).functions@.len(),
            final(self).functions@ == old(self).functions@.push(sig_index),
            final(self).functions@.len() == old(self).functions@.len() + 1,
            final(self).functions@[index as int] == sig_index,
            old(self).import_names_in_step() ==> final(self).import_names_in_step(),
            final(self).signatures == old(self).signatures,
            final(self).imported_funcs == old(self).imported_funcs,
            final(self).tables == old(self).tables,
            final(self).memories == old(self).memories,
            final(self).globals == old(self).globals,
            final(self).exports == old(self).exports,
            final(self).start_func == old(self).start_func,
            final(self).table_elements == old(self).table_elements,
    {
        let index = self.functions.len();
        self.functions.push(sig_index);
        index
    }

    /// Appends a table; its index is the table collection's length before
    /// the append.
    pub fn declare_table(&mut self, table: Table) -> (index: TableIndex)
        ensures
            index == old(self).tables@.len(),
            final(self).tables@ == old(self).tables@.push(table),
            final(self).tables@.len() == old(self).tables@.len() + 1,
            final(self).tables@[index as int] == table,
            old(self).import_names_in_step() ==> final(self).import_names_in_step(),
            final(self).signatures == old(self).signatures,
            final(self).imported_funcs == old(self).imported_funcs,
            final(self).functions == old(self).functions,
            final(self).memories == old(self).memories,
            final(self).globals == old(self).globals,
            final(self).exports == old(self).exports,
            final(self).start_func == old(self).start_func,
            final(self).table_elements == old(self).table_elements,
    {
        let index = self.tables.len();
        self.tables.push(table);
        index
    }

    /// Appends a linear memory; its index is the memory collection's length
    /// before the append.
    pub fn declare_memory(&mut self, memory: Memory) -> (index: MemoryIndex)
        ensures
            index == old(self).memories@.len(),
            final(self).memories@ == old(self).memories@.push(memory),
            final(self).memories@.len() == old(self).memories@.len() + 1,
            final(self).memories@[index as int] == memory,
            old(self).import_names_in_step() ==> final(self).import_names_in_step(),
            final(self).signatures == old(self).signatures,
            final(self).imported_funcs == old(self).imported_funcs,
            final(self).functions == old(self).functions,
            final(self).tables == old(self).tables,
            final(self).globals == old(self).globals,
            final(self).exports == old(self).exports,
            final(self).start_func == old(self).start_func,
            final(self).table_elements == old(self).table_elements,
    {
        let index = self.memories.len();
        self.memories.push(memory);
        index
    }

    /// Appends a global variable; its index is the global collection's
    /// length before the append.
    pub fn declare_global(&mut self, global: Global) -> (index: GlobalIndex)
        ensures
            index == old(self).globals@.len(),
            final(self).globals@ == old(self).globals@.push(global),
            final(self).globals@.len() == old(self).globals@.len() + 1,
            final(self).globals@[index as int] == global,
            old(self).import_names_in_step() ==> final(self).import_names_in_step(),
            final(self).signatures == old(self).signatures,
            final(self).imported_funcs == old(self).imported_funcs,
            final(self).functions == old(self).functions,
            final(self).tables == old(self).tables,
            final(self).memories == old(self).memories,
            final(self).exports == old(self).exports,
            final(self).start_func == old(self).start_func,
            final(self).table_elements == old(self).table_elements,
    {
        let index = self.globals.len();
        self.globals.push(global);
        index
    }

    /// Records that the entity `export` is exported under `name`. A second
    /// export under the same name silently overwrites the first.
    pub fn declare_export(&mut self, name: String, export: Export)
        ensures
            final(self).exports@ == old(self).exports@.insert(name@, export),
            old(self).import_names_in_step() ==> final(self).import_names_in_step(),
            final(self).signatures == old(self).signatures,
            final(self).imported_funcs == old(self).imported_funcs,
            final(self).functions == old(self).functions,
            final(self).tables == old(self).tables,
            final(self).memories == old(self).memories,
            final(self).globals == old(self).globals,
            final(self).start_func == old(self).start_func,
            final(self).table_elements == old(self).table_elements,
    {
        self.exports.insert(name, export);
    }

    /// Records the module's start function. Setting it again overwrites the
    /// previous value: only the last one is kept.
    pub fn declare_start_func(&mut self, index: FunctionIndex)
        ensures
            final(self).start_func == Some(index),
            old(self).import_names_in_step() ==> final(self).import_names_in_step(),
            final(self).signatures == old(self).signatures,
            final(self).imported_funcs == old(self).imported_funcs,
            final(self).functions == old(self).functions,
            final(self).tables == old(self).tables,
            final(self).memories == old(self).memories,
            final(self).globals == old(self).globals,
            final(self).exports == old(self).exports,
            final(self).table_elements == old(self).table_elements,
    {
        self.start_func = Some(index);
    }

    /// Appends a table initializer. Initializers are kept in declaration
    /// order, the order in which the consumer must apply them.
    pub fn declare_table_elements(&mut self, elements: TableElements)
        ensures
            final(self).table_elements@ == old(self).table_elements@.push(elements),
            final(self).table_elements@.len() == old(self).table_elements@.len() + 1,
            old(self).import_names_in_step() ==> final(self).import_names_in_step(),
            final(self).signatures == old(self).signatures,
            final(self).imported_funcs == old(self).imported_funcs,
            final(self).functions == old(self).functions,
            final(self).tables == old(self).tables,
            final(self).memories == old(self).memories,
            final(self).globals == old(self).globals,
            final(self).exports == old(self).exports,
            final(self).start_func == old(self).start_func,
    {
        self.table_elements.push(elements);
    }

    /// Whether the import-name sequence is no longer than the function
    /// collection, the consistency a consumer must check before treating the
    /// import names as parallel to the imported prefix of `functions`.
    pub fn check_import_names(&self) -> (r: bool)
        ensures
            r == self.import_names_in_step(),
    {
        self.imported_funcs.len() <= self.functions.len()
    }
}

} // verus!
