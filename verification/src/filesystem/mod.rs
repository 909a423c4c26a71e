pub mod file_entry_kind;
pub mod storage;
pub mod file_entry_stub;
pub mod memory;
