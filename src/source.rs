use vstd::prelude::*;

use crate::entry::{EntryModel, FlatpakDefinition};
use crate::error::ReconcileError;
use crate::set::{models_of, set_of, EntrySet};

verus! {

/// One entry declaration file: its name, and its entries or why they could not be read.
#[derive(Debug)]
pub struct EntryFile {
    pub name: String,
    pub entries: Result<Vec<FlatpakDefinition>, String>,
}

/// Every file of the list was parsed.
pub open spec fn all_parsed(files: Seq<EntryFile>) -> bool {
    forall|i: int| 0 <= i < files.len() ==> (#[trigger] files[i]).entries is Ok
}

/// The packages that the parsed files declare, all together.
pub open spec fn declared(files: Seq<EntryFile>) -> Set<EntryModel>
    decreases files.len(),
{
    if files.len() == 0 {
        Set::empty()
    } else {
        let rest = declared(files.drop_last());
        match files.last().entries {
            Ok(v) => rest.union(set_of(v@)),
            Err(_) => rest,
        }
    }
}

/// The error for a file that could not be parsed.
pub open spec fn parse_error_of(f: EntryFile) -> ReconcileError {
    ReconcileError::Parse { source_name: f.name, message: f.entries->Err_0 }
}

/// Merges the entries of all files into one set. The first file that could
/// not be parsed fails the whole run with a parse error that names it.
pub fn aggregate(files: &[EntryFile]) -> (r: Result<EntrySet, ReconcileError>)
    ensures
        r is Ok <==> all_parsed(files@),
        r matches Ok(s) ==> s.wf() && s@ == declared(files@),
        r matches Err(e) ==> exists|i: int|
            0 <= i < files@.len() && files@[i].entries is Err && all_parsed(files@.subrange(0, i))
                && e == parse_error_of(files@[i]),
{
    let mut acc = EntrySet::new();
    let mut i: usize = 0;
    while i < files.len()
        invariant
            0 <= i <= files@.len(),
            acc.wf(),
            all_parsed(files@.subrange(0, i as int)),
            acc@ == declared(files@.subrange(0, i as int)),
        decreases files@.len() - i,
    {
        let ghost prev = files@.subrange(0, i as int);
        let ghost next = files@.subrange(0, i + 1);
        proof {
            assert(next.drop_last() =~= prev);
            assert(next.last() == files@[i as int]);
        }
        match &files[i].entries {
            Ok(v) => {
                acc.insert_all(v.as_slice());
            },
            Err(m) => {
                return Err(
                    ReconcileError::Parse {
                        source_name: files[i].name.clone(),
                        message: m.clone(),
                    },
                );
            },
        }
        proof {
            assert forall|j: int| 0 <= j < next.len() implies (#[trigger] next[j]).entries is Ok by {
                if j < i {
                    assert(next[j] == prev[j]);
                }
            }
        }
        i += 1;
    }
    assert(files@.subrange(0, files@.len() as int) =~= files@);
    Ok(acc)
}

/// The set recorded by a state file with contents `text`, where `parsed` is
/// what `text` parsed to; `None` where the text is not empty and did not parse.
pub open spec fn recorded_spec(
    text: Seq<char>,
    parsed: Result<Seq<EntryModel>, ()>,
) -> Option<Set<EntryModel>> {
    if text.len() == 0 {
        Some(Set::empty())
    } else {
        match parsed {
            Ok(ms) => Some(ms.to_set()),
            Err(_) => None,
        }
    }
}

/// The entries that a parse produced, as models.
pub open spec fn parsed_models(parsed: Result<Vec<FlatpakDefinition>, String>) -> Result<
    Seq<EntryModel>,
    (),
> {
    match parsed {
        Ok(v) => Ok(models_of(v@)),
        Err(_) => Err(()),
    }
}

/// The recorded state of a state file whose contents are `text`, where
/// `parsed` is the result of parsing `text` as a list of entries.
pub fn recorded_from(
    state_name: &str,
    text: &str,
    parsed: Result<Vec<FlatpakDefinition>, String>,
) -> (r: Result<EntrySet, ReconcileError>)
    ensures
        r is Ok <==> (text@.len() == 0 || parsed is Ok),
        r matches Ok(s) ==> recorded_spec(text@, parsed_models(parsed)) == Some(s@),
        r is Err <==> recorded_spec(text@, parsed_models(parsed)) is None,
        r matches Ok(s) ==> s.wf(),
        r matches Ok(s) ==> s@ == (if text@.len() == 0 {
            Set::<EntryModel>::empty()
        } else {
            set_of(parsed->Ok_0@)
        }),
        r matches Err(e) ==> (e matches ReconcileError::Parse { source_name, message }
            && source_name@ == state_name@ && message == parsed->Err_0),
{
    if text.is_empty() {
        return Ok(EntrySet::new());
    }
    match parsed {
        Ok(v) => Ok(EntrySet::from_entries(v.as_slice())),
        Err(m) => Err(ReconcileError::Parse { source_name: state_name.to_owned(), message: m }),
    }
}

} // verus!
