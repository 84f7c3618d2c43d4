//! Index spaces and the plain-value entity descriptions a module records.
//!
//! Each index space is a distinct zero-based integer identifier domain:
//! an index is only meaningful against the collection it was assigned from,
//! and callers must not mix index spaces.

use vstd::prelude::*;

verus! {

/// A position in the function index space (imported and local functions).
pub type FunctionIndex = usize;

/// A position in the table index space.
pub type TableIndex = usize;

/// A position in the linear-memory index space.
pub type MemoryIndex = usize;

/// A position in the global-variable index space.
pub type GlobalIndex = usize;

/// A position in the signature index space.
pub type SignatureIndex = usize;

/// A WebAssembly value type.
#[derive(Clone, Copy, Debug, PartialEq, Eq)]
pub enum ValueType {
    /// 32-bit integer.
    I32,
    /// 64-bit integer.
    I64,
    /// 32-bit floating point, carried as a type tag only.
    F32,
    /// 64-bit floating point, carried as a type tag only.
    F64,
}

/// A function type: the value types of the parameters and of the results.
#[derive(Clone, Debug, PartialEq, Eq)]
pub struct Signature {
    /// Parameter value types, in declaration order.
    pub params: Vec<ValueType>,
    /// Result value types, in declaration order.
    pub results: Vec<ValueType>,
}

/// How a global variable obtains its initial value.
#[derive(Clone, Copy, Debug, PartialEq, Eq)]
pub enum GlobalInit {
    /// A constant 32-bit integer.
    I32Const(i32),
    /// A constant 64-bit integer.
    I64Const(i64),
    /// A constant 32-bit float, carried as its raw bit pattern.
    F32Const(u32),
    /// A constant 64-bit float, carried as its raw bit pattern.
    F64Const(u64),
    /// The value of another global variable.
    GlobalRef(GlobalIndex),
    /// An imported value, supplied at instantiation.
    Import,
}

/// A global variable description.
#[derive(Clone, Copy, Debug, PartialEq, Eq)]
pub struct Global {
    /// The value type of the global.
    pub ty: ValueType,
    /// Whether the global may be written after instantiation.
    pub mutability: bool,
    /// How the global obtains its initial value.
    pub initializer: GlobalInit,
}

/// The element type of a table.
#[derive(Clone, Copy, Debug, PartialEq, Eq)]
pub enum TableElementType {
    /// Elements holding plain values of one value type.
    Val(ValueType),
    /// Elements holding function references.
    Func,
}

/// A table description.
#[derive(Clone, Copy, Debug, PartialEq, Eq)]
pub struct Table {
    /// The element type of the table.
    pub ty: TableElementType,
    /// The minimum number of elements.
    pub size: usize,
    /// The maximum number of elements, if bounded.
    pub maximum: Option<usize>,
}

/// A linear-memory description.
#[derive(Clone, Copy, Debug, PartialEq, Eq)]
pub struct Memory {
    /// The minimum number of pages.
    pub pages_count: usize,
    /// The maximum number of pages, if bounded.
    pub maximum: Option<usize>,
}

} // verus!
