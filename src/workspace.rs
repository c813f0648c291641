use vstd::prelude::*;

verus! {

/// A file in the workspace directory: its file stem and its full path.
pub struct Entry {
    pub stem: String,
    pub path: String,
}

/// `i` is the first entry whose stem is `name`.
pub open spec fn first_match(entries: Seq<Entry>, name: Seq<char>, i: int) -> bool {
    &&& 0 <= i < entries.len()
    &&& entries[i].stem@ == name
    &&& forall|j: int| 0 <= j < i ==> entries[j].stem@ != name
}

/// The path of the first entry, in listing order, whose stem is `name`; none
/// if no entry has that stem.
pub fn find_workspace_file(name: &str, entries: &Vec<Entry>) -> (r: Option<String>)
    ensures
        match r {
            Some(p) => exists|i: int| first_match(entries@, name@, i) && p@ == entries@[i].path@,
            None => forall|j: int| 0 <= j < entries@.len() ==> entries@[j].stem@ != name@,
        },
{
    let wanted = name.to_owned();
    let mut i: usize = 0;
    while i < entries.len()
        invariant
            i <= entries@.len(),
            wanted@ == name@,
            forall|j: int| 0 <= j < i ==> entries@[j].stem@ != name@,
        decreases entries@.len() - i,
    {
        if entries[i].stem == wanted {
            assert(first_match(entries@, name@, i as int));
            return Some(entries[i].path.clone());
        }
        i += 1;
    }
    None
}

} // verus!
