use vstd::prelude::*;

verus! {

/// The mathematical value of a package entry: its three identifying strings.
pub struct EntryModel {
    pub id: Seq<char>,
    pub remote: Seq<char>,
    pub branch: Seq<char>,
}

/// One application package, identified by its remote, id and branch.
#[derive(Debug)]
pub struct FlatpakDefinition {
    pub id: String,
    pub remote: String,
    pub branch: String,
}

impl View for FlatpakDefinition {
    type V = EntryModel;

    open spec fn view(&self) -> EntryModel {
        EntryModel { id: self.id@, remote: self.remote@, branch: self.branch@ }
    }
}

impl FlatpakDefinition {
    pub fn new(remote: &str, id: &str, branch: &str) -> (r: FlatpakDefinition)
        ensures
            r@ == (EntryModel { id: id@, remote: remote@, branch: branch@ }),
    {
        FlatpakDefinition { id: id.to_owned(), remote: remote.to_owned(), branch: branch.to_owned() }
    }

    /// Two entries are the same package exactly when all three fields match.
    pub fn same_as(&self, other: &FlatpakDefinition) -> (r: bool)
        ensures
            r == (self@ == other@),
    {
        self.id == other.id && self.remote == other.remote && self.branch == other.branch
    }

    /// A copy that has the same value.
    pub fn duplicate(&self) -> (r: FlatpakDefinition)
        ensures
            r@ == self@,
    {
        FlatpakDefinition { id: self.id.clone(), remote: self.remote.clone(), branch: self.branch.clone() }
    }
}

impl PartialEq for FlatpakDefinition {
    fn eq(&self, other: &FlatpakDefinition) -> (r: bool) {
        self.same_as(other)
    }
}

impl vstd::std_specs::cmp::PartialEqSpecImpl for FlatpakDefinition {
    open spec fn obeys_eq_spec() -> bool {
        true
    }

    open spec fn eq_spec(&self, other: &FlatpakDefinition) -> bool {
        self@ == other@
    }
}

impl Eq for FlatpakDefinition {
}

} // verus!
