use wasm_module::Export;
use wasm_module::Global;
use wasm_module::GlobalInit;
use wasm_module::Memory;
use wasm_module::Module;
use wasm_module::Signature;
use wasm_module::Table;
use wasm_module::TableElement;
use wasm_module::TableElementType;
use wasm_module::TableElements;
use wasm_module::ValueType;

fn empty_signature() -> Signature {
    Signature { params: Vec::new(), results: Vec::new() }
}

#[test]
fn new_module_is_empty() {
    let m = Module::new();
    assert_eq!(m.signatures.len(), 0);
    assert_eq!(m.imported_funcs.len(), 0);
    assert_eq!(m.functions.len(), 0);
    assert_eq!(m.tables.len(), 0);
    assert_eq!(m.memories.len(), 0);
    assert_eq!(m.globals.len(), 0);
    assert_eq!(m.exports.len(), 0);
    assert!(m.exports.is_empty());
    assert_eq!(m.start_func, None);
    assert_eq!(m.table_elements.len(), 0);
}

#[test]
fn declare_returns_zero_based_positions() {
    let mut m = Module::new();

    let s0 = m.declare_signature(empty_signature());
    let s1 = m.declare_signature(Signature {
        params: vec![ValueType::I32],
        results: vec![ValueType::I64],
    });
    assert_eq!(s0, 0);
    assert_eq!(s1, 1);
    assert_eq!(m.signatures.len(), 2);

    let f0 = m.declare_func_import(s0, "env".to_string(), "f".to_string());
    let f1 = m.declare_function(s1);
    assert_eq!(f0, 0);
    assert_eq!(f1, 1);
    assert_eq!(m.functions.len(), 2);
    assert_eq!(m.imported_funcs.len(), 1);

    let t0 = m.declare_table(Table { ty: TableElementType::Func, size: 4, maximum: None });
    let t1 = m.declare_table(Table { ty: TableElementType::Func, size: 8, maximum: Some(16) });
    assert_eq!(t0, 0);
    assert_eq!(t1, 1);
    assert_eq!(m.tables.len(), 2);

    let mem0 = m.declare_memory(Memory { pages_count: 1, maximum: None });
    assert_eq!(mem0, 0);
    assert_eq!(m.memories.len(), 1);

    let g0 = m.declare_global(Global {
        ty: ValueType::I32,
        mutability: false,
        initializer: GlobalInit::I32Const(7),
    });
    let g1 = m.declare_global(Global {
        ty: ValueType::I64,
        mutability: true,
        initializer: GlobalInit::GlobalRef(g0),
    });
    assert_eq!(g0, 0);
    assert_eq!(g1, 1);
    assert_eq!(m.globals.len(), 2);
}

#[test]
fn declared_entries_are_stored_in_position() {
    let mut m = Module::new();
    let sig = Signature { params: vec![ValueType::F32], results: vec![ValueType::F64] };
    let s = m.declare_signature(sig.clone());
    assert_eq!(m.signatures[s], sig);

    let table = Table { ty: TableElementType::Val(ValueType::I32), size: 3, maximum: Some(9) };
    let t = m.declare_table(table.clone());
    assert_eq!(m.tables[t], table);

    let memory = Memory { pages_count: 2, maximum: Some(4) };
    let i = m.declare_memory(memory.clone());
    assert_eq!(m.memories[i], memory);

    let global = Global {
        ty: ValueType::I64,
        mutability: true,
        initializer: GlobalInit::I64Const(-1),
    };
    let g = m.declare_global(global.clone());
    assert_eq!(m.globals[g], global);
}

#[test]
fn function_references_declared_signature() {
    let mut m = Module::new();
    let s = m.declare_signature(empty_signature());
    let f = m.declare_function(s);
    assert_eq!(m.functions.len(), 1);
    assert_eq!(m.functions[f], s);
}

#[test]
fn start_function_last_write_wins() {
    let mut m = Module::new();
    m.declare_start_func(3);
    assert_eq!(m.start_func, Some(3));
    m.declare_start_func(5);
    assert_eq!(m.start_func, Some(5));
}

#[test]
fn table_initializer_is_stored_unchanged() {
    let mut m = Module::new();
    let init = TableElements { table_index: 0, base: None, offset: 5, elements: vec![0, 1] };
    m.declare_table_elements(init.clone());
    assert_eq!(m.table_elements.len(), 1);
    assert_eq!(m.table_elements[0].table_index, 0);
    assert_eq!(m.table_elements[0].base, None);
    assert_eq!(m.table_elements[0].offset, 5);
    assert_eq!(m.table_elements[0].elements, vec![0, 1]);
    assert_eq!(m.table_elements[0], init);
}

#[test]
fn table_initializers_keep_declaration_order() {
    let mut m = Module::new();
    let first = TableElements { table_index: 0, base: Some(2), offset: 0, elements: vec![1] };
    let second = TableElements { table_index: 0, base: None, offset: 0, elements: vec![2] };
    m.declare_table_elements(first.clone());
    m.declare_table_elements(second.clone());
    assert_eq!(m.table_elements, vec![first, second]);
}

#[test]
fn table_element_values() {
    let f = TableElement::Function(4);
    assert_eq!(f, TableElement::Function(4));
    assert_ne!(f, TableElement::Trap);
    assert_ne!(f, TableElement::Function(5));
    assert_eq!(f.clone(), f);
}

#[test]
fn import_names_match_declared_imports() {
    let mut m = Module::new();
    let s = m.declare_signature(empty_signature());
    m.declare_func_import(s, "env".to_string(), "read".to_string());
    m.declare_func_import(s, "env".to_string(), "write".to_string());
    m.declare_function(s);
    assert_eq!(m.imported_funcs.len(), 2);
    assert_eq!(m.imported_funcs[0], ("env".to_string(), "read".to_string()));
    assert_eq!(m.imported_funcs[1], ("env".to_string(), "write".to_string()));
    assert!(m.check_import_names());
}

#[test]
fn import_name_violation_is_detectable() {
    let mut m = Module::new();
    // A producer that appends an import name with no matching function entry
    // breaks the parallel-sequence discipline; comparing lengths exposes it.
    m.imported_funcs.push(("env".to_string(), "f".to_string()));
    assert_eq!(m.imported_funcs.len(), 1);
    assert_eq!(m.functions.len(), 0);
    assert!(!m.check_import_names());
}
