//! Failures of the three commands, each with a localized message.
use vstd::prelude::*;
use vstd::string::*;

verus! {

/// Why a command failed, with the detail that the filesystem gave.
pub enum StoreError {
    ReadFailure(String),
    WriteFailure(String),
    DeleteFailure(String),
}

/// Message prefix of a failed read.
pub open spec fn read_prefix() -> Seq<char> {
    "Greška pri čitanju fajla: "@
}

/// Message prefix of a failed write.
pub open spec fn write_prefix() -> Seq<char> {
    "Greška pri pisanju fajla: "@
}

/// Message prefix of a failed delete.
pub open spec fn delete_prefix() -> Seq<char> {
    "Greška pri brisanju fajla: "@
}

impl StoreError {
    /// The detail that the filesystem gave.
    pub open spec fn detail(&self) -> Seq<char> {
        match self {
            StoreError::ReadFailure(d) => d@,
            StoreError::WriteFailure(d) => d@,
            StoreError::DeleteFailure(d) => d@,
        }
    }

    /// The localized message: the prefix of the command that failed, then the detail.
    pub open spec fn message_spec(&self) -> Seq<char> {
        match self {
            StoreError::ReadFailure(d) => read_prefix() + d@,
            StoreError::WriteFailure(d) => write_prefix() + d@,
            StoreError::DeleteFailure(d) => delete_prefix() + d@,
        }
    }

    /// The localized message handed to the front end.
    pub fn message(&self) -> (r: String)
        ensures
            r@ == self.message_spec(),
    {
        proof {
            reveal_strlit("Greška pri čitanju fajla: ");
            reveal_strlit("Greška pri pisanju fajla: ");
            reveal_strlit("Greška pri brisanju fajla: ");
        }
        let (prefix, detail) = match self {
            StoreError::ReadFailure(d) => ("Greška pri čitanju fajla: ", d),
            StoreError::WriteFailure(d) => ("Greška pri pisanju fajla: ", d),
            StoreError::DeleteFailure(d) => ("Greška pri brisanju fajla: ", d),
        };
        let mut r = String::from_str(prefix);
        r.append(detail.as_str());
        r
    }
}

} // verus!
