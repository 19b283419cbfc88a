//! Transaction-scoped coordinator that keeps an external storage/indexing
//! engine consistent with the commit/abort outcome of a host database
//! process, together with the request/response data model of the
//! text-embedding and completion service the host can query.

pub mod handle;
pub mod hook_transaction;
pub mod openai;
pub mod pdf;
