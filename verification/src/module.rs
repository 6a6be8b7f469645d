//! Types and functions for parsing WebAssembly [modules encoded in the binary format].
//!
//! [modules encoded in the binary format]: https://webassembly.github.io/spec/core/binary/modules.html#binary-module

pub mod binary;
pub mod custom;
pub mod import_sec;
pub mod module_section;
pub mod module_section_sequence;
pub mod preamble;
pub mod type_sec;

pub use module_section::{ModuleSection, ModuleSectionId};
pub use module_section_sequence::ModuleSectionOrder;
pub use binary::{module_section_sequence, module_section_sequence_with_unknown, parse_binary_sections, Module};
pub use import_sec::{Import, ImportDesc, ImportSec};
pub use type_sec::TypeSec;
