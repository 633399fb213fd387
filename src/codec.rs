use vstd::prelude::*;

use crate::entry::{EntryModel, FlatpakDefinition};
use crate::set::{models_of, set_of, EntrySet};
use crate::source::recorded_spec;

verus! {

/// serde_json's error type, which `quote` may return; nothing is read from it.
#[verifier::external_type_specification]
#[verifier::external_body]
pub struct ExJsonError(serde_json::Error);

/// The JSON string literal, quoted and escaped, that stands for the text `s`.
pub uninterp spec fn json_string(s: Seq<char>) -> Seq<char>;

/// Text that JSON carries inside quotes unchanged: no `"`, no `\\` and no
/// control character below U+0020.
pub open spec fn plain_text(s: Seq<char>) -> bool {
    forall|i: int| 0 <= i < s.len() ==> s[i] != '"' && s[i] != '\\' && s[i] >= ' '
}

/// Relies on serde_json::to_string applied to a `str`: it writes into a
/// `Vec`, which cannot fail, and produces one JSON string literal, a `"`,
/// the text with `"`, `\\` and control characters escaped, and a `"`.
#[verifier::external_body]
fn quote(s: &str) -> (r: Result<String, serde_json::Error>)
    ensures
        r is Ok,
        r matches Ok(t) ==> t@ == json_string(s@),
        r matches Ok(t) ==> t@.len() >= 2 && t@[0] == '"' && t@.last() == '"',
        r matches Ok(t) ==> (plain_text(s@) ==> t@ == "\""@ + s@ + "\""@),
{
    serde_json::to_string(s)
}

/// The JSON string literal of `s`: the text between two quotes where it
/// needs no escape.
pub open spec fn quoted(s: Seq<char>) -> Seq<char> {
    if plain_text(s) {
        "\""@ + s + "\""@
    } else {
        json_string(s)
    }
}

/// The JSON object that records one entry.
pub open spec fn entry_json(e: EntryModel) -> Seq<char> {
    "{\"id\":"@ + quoted(e.id) + ",\"remote\":"@ + quoted(e.remote) + ",\"branch\":"@
        + quoted(e.branch) + "}"@
}

/// The JSON objects of the entries, separated by commas.
pub open spec fn entries_json(es: Seq<EntryModel>) -> Seq<char>
    decreases es.len(),
{
    if es.len() == 0 {
        Seq::empty()
    } else if es.len() == 1 {
        entry_json(es[0])
    } else {
        entries_json(es.drop_last()) + ","@ + entry_json(es.last())
    }
}

/// The contents of the state file that records the entries `es`: a JSON array.
pub open spec fn state_json(es: Seq<EntryModel>) -> Seq<char> {
    "["@ + entries_json(es) + "]"@
}

fn append_quoted(out: &mut String, s: &String)
    ensures
        final(out)@ == old(out)@ + quoted(s@),
{
    let q = quote(s.as_str()).unwrap();
    out.append(q.as_str());
}

fn append_entry(out: &mut String, e: &FlatpakDefinition)
    ensures
        final(out)@ == old(out)@ + entry_json(e@),
{
    let ghost start = out@;
    out.append("{\"id\":");
    append_quoted(out, &e.id);
    out.append(",\"remote\":");
    append_quoted(out, &e.remote);
    out.append(",\"branch\":");
    append_quoted(out, &e.branch);
    out.append("}");
    assert(out@ =~= start + entry_json(e@));
}

/// The text to write to the state file for the set `s`.
pub fn encode_state(s: &EntrySet) -> (r: String)
    requires
        s.wf(),
    ensures
        r@ == state_json(models_of(s.listing())),
{
    let es = s.entries();
    let ghost ms = models_of(es@);
    let mut out = String::from_str("[");
    let mut i: usize = 0;
    while i < es.len()
        invariant
            0 <= i <= es@.len(),
            ms == models_of(es@),
            out@ == "["@ + entries_json(ms.subrange(0, i as int)),
        decreases es@.len() - i,
    {
        if i > 0 {
            out.append(",");
        }
        append_entry(&mut out, &es[i]);
        proof {
            let prev = ms.subrange(0, i as int);
            let next = ms.subrange(0, i + 1);
            assert(next.drop_last() =~= prev);
            assert(next.last() == es@[i as int]@);
            if i == 0 {
                assert(prev =~= Seq::<EntryModel>::empty());
            }
            assert(out@ =~= "["@ + entries_json(next));
        }
        i += 1;
    }
    out.append("]");
    assert(ms.subrange(0, es@.len() as int) =~= ms);
    out
}

/// Writing a set and reading the file back gives the same set, the empty
/// set included, whenever the written text parses to the entries written.
pub proof fn lemma_state_round_trip(s: Seq<FlatpakDefinition>, read: Seq<FlatpakDefinition>)
    requires
        models_of(read) == models_of(s),
    ensures
        recorded_spec(state_json(models_of(s)), Ok(models_of(read))) == Some(set_of(s)),
{
    reveal_strlit("[");
    assert(("["@).len() == 1);
    assert(state_json(models_of(s)).len() >= 1);
}

} // verus!
