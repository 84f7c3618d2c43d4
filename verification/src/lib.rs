//! An in-memory description of a translated WebAssembly module's static
//! shape: its function-type signatures, imports, exports, tables, memories,
//! globals, table initializers, and optional start function.
//!
//! A decoder populates a [`Module`] through ordered `declare_*` operations
//! during one translation pass; afterwards the structure is read-only and a
//! code generator or instantiator resolves every stored index against the
//! matching collection. The structure itself performs no validation: every
//! cross-entity reference is a plain index into one of the owned sequences,
//! and bounds checking is the consumer's responsibility.

pub mod exports;
pub mod module;
pub mod types;

pub use exports::Export;
pub use exports::ExportMap;
pub use module::Module;
pub use module::TableElement;
pub use module::TableElements;
pub use types::FunctionIndex;
pub use types::Global;
pub use types::GlobalIndex;
pub use types::GlobalInit;
pub use types::Memory;
pub use types::MemoryIndex;
pub use types::Signature;
pub use types::SignatureIndex;
pub use types::Table;
pub use types::TableElementType;
pub use types::TableIndex;
pub use types::ValueType;
