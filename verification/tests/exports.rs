use wasm_module::Export;
use wasm_module::ExportMap;
use wasm_module::Module;
use wasm_module::Signature;

fn empty_signature() -> Signature {
    Signature { params: Vec::new(), results: Vec::new() }
}

#[test]
fn empty_map_has_no_entries() {
    let m = ExportMap::new();
    assert!(m.is_empty());
    assert_eq!(m.len(), 0);
    assert_eq!(m.get(&"anything".to_string()), None);
    assert!(!m.contains_key(&"anything".to_string()));
}

#[test]
fn insert_and_get() {
    let mut m = ExportMap::new();
    m.insert("memory".to_string(), Export::Memory(0));
    m.insert("table".to_string(), Export::Table(1));
    m.insert("global".to_string(), Export::Global(2));
    assert_eq!(m.len(), 3);
    assert!(!m.is_empty());
    assert_eq!(m.get(&"memory".to_string()), Some(&Export::Memory(0)));
    assert_eq!(m.get(&"table".to_string()), Some(&Export::Table(1)));
    assert_eq!(m.get(&"global".to_string()), Some(&Export::Global(2)));
    assert_eq!(m.get(&"missing".to_string()), None);
    assert!(m.contains_key(&"table".to_string()));
}

#[test]
fn duplicate_export_name_last_write_wins() {
    let mut m = Module::new();
    m.declare_export("run".to_string(), Export::Function(0));
    m.declare_export("run".to_string(), Export::Function(1));
    assert_eq!(m.exports.len(), 1);
    assert_eq!(m.exports.get(&"run".to_string()), Some(&Export::Function(1)));
}

#[test]
fn overwrite_keeps_other_entries() {
    let mut m = ExportMap::new();
    m.insert("a".to_string(), Export::Function(0));
    m.insert("b".to_string(), Export::Function(1));
    m.insert("a".to_string(), Export::Table(2));
    assert_eq!(m.len(), 2);
    assert_eq!(m.get(&"a".to_string()), Some(&Export::Table(2)));
    assert_eq!(m.get(&"b".to_string()), Some(&Export::Function(1)));
}

#[test]
fn entries_enumerate_all_exports() {
    let mut m = ExportMap::new();
    m.insert("a".to_string(), Export::Function(0));
    m.insert("b".to_string(), Export::Global(1));
    m.insert("a".to_string(), Export::Memory(2));
    let entries = m.entries();
    assert_eq!(entries.len(), 2);
    let mut seen_a = false;
    let mut seen_b = false;
    for (name, export) in entries {
        match name.as_str() {
            "a" => {
                assert_eq!(*export, Export::Memory(2));
                seen_a = true;
            }
            "b" => {
                assert_eq!(*export, Export::Global(1));
                seen_b = true;
            }
            _ => panic!("unexpected export name"),
        }
    }
    assert!(seen_a && seen_b);
}

#[test]
fn exporting_every_function_round_trips() {
    let mut m = Module::new();
    let n_signatures = 3;
    let n_functions = 7;
    let mut sigs = Vec::new();
    for _ in 0..n_signatures {
        sigs.push(m.declare_signature(empty_signature()));
    }
    let mut funcs = Vec::new();
    for i in 0..n_functions {
        funcs.push(m.declare_function(sigs[i % n_signatures]));
    }
    for (i, f) in funcs.iter().enumerate() {
        m.declare_export(format!("func_{}", i), Export::Function(*f));
    }
    assert_eq!(m.exports.len(), n_functions);
    for (i, f) in funcs.iter().enumerate() {
        assert_eq!(m.exports.get(&format!("func_{}", i)), Some(&Export::Function(*f)));
    }
}
