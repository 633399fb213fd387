use vstd::prelude::*;

verus! {

/// Why a reconciliation run stopped.
#[derive(Debug, PartialEq, Eq)]
pub enum ReconcileError {
    /// The entries directory could not be listed.
    Config(String),
    /// An entry file or the state file does not hold a valid list of entries.
    Parse { source_name: String, message: String },
    /// The state file could not be locked.
    Lock(String),
    /// The package transaction refused an operation or failed to run.
    Transaction(String),
    /// The new state could not be written after a successful transaction.
    Commit(String),
}

/// The description of an error: what failed, then the detail.
pub open spec fn description(e: ReconcileError) -> Seq<char> {
    match e {
        ReconcileError::Config(m) => "cannot list the entries directory: "@ + m@,
        ReconcileError::Parse { source_name, message } => "cannot parse "@ + source_name@ + ": "@
            + message@,
        ReconcileError::Lock(m) => "cannot lock the state file: "@ + m@,
        ReconcileError::Transaction(m) => "package transaction failed: "@ + m@,
        ReconcileError::Commit(m) => "cannot write the state file: "@ + m@,
    }
}

impl ReconcileError {
    /// A copy that has the same value.
    pub fn duplicate(&self) -> (r: ReconcileError)
        ensures
            r == *self,
    {
        match self {
            ReconcileError::Config(m) => ReconcileError::Config(m.clone()),
            ReconcileError::Parse { source_name, message } => ReconcileError::Parse {
                source_name: source_name.clone(),
                message: message.clone(),
            },
            ReconcileError::Lock(m) => ReconcileError::Lock(m.clone()),
            ReconcileError::Transaction(m) => ReconcileError::Transaction(m.clone()),
            ReconcileError::Commit(m) => ReconcileError::Commit(m.clone()),
        }
    }

    /// A description of the error for a person to read.
    pub fn describe(&self) -> (r: String)
        ensures
            r@ == description(*self),
    {
        let (head, detail): (&str, &String) = match self {
            ReconcileError::Config(m) => ("cannot list the entries directory: ", m),
            ReconcileError::Parse { source_name, message } => {
                let mut s = String::from_str("cannot parse ");
                s.append(source_name.as_str());
                s.append(": ");
                s.append(message.as_str());
                return s;
            },
            ReconcileError::Lock(m) => ("cannot lock the state file: ", m),
            ReconcileError::Transaction(m) => ("package transaction failed: ", m),
            ReconcileError::Commit(m) => ("cannot write the state file: ", m),
        };
        let mut s = String::from_str(head);
        s.append(detail.as_str());
        s
    }
}

} // verus!
