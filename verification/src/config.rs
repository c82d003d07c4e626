//! Which storage stands behind the ledger.

use vstd::prelude::*;
use vstd::string::*;

verus! {

/// The storage behind the ledger.
#[derive(Debug, Clone, Copy, PartialEq, Eq, Structural)]
pub enum DataBackendType {
    /// A transactional database.
    Pg,
    /// The memory of the process.
    Mem,
}

/// The storage that a setting names: `postgres` or `memory`.
pub open spec fn backend_named(value: Seq<char>) -> Option<DataBackendType> {
    if value == "postgres"@ {
        Some(DataBackendType::Pg)
    } else if value == "memory"@ {
        Some(DataBackendType::Mem)
    } else {
        None
    }
}

/// Reads the name of a storage from a setting.
pub fn data_backend_type(value: &str) -> (r: Option<DataBackendType>)
    ensures
        r == backend_named(value@),
{
    let value = String::from_str(value);
    if value == String::from_str("postgres") {
        Some(DataBackendType::Pg)
    } else if value == String::from_str("memory") {
        Some(DataBackendType::Mem)
    } else {
        None
    }
}

} // verus!
