//! The artifact locator: among a directory's entries, the first file name
//! that carries the wanted extension.
//!
//! The caller lists the directory and hands the entry names in; listing order
//! is the platform's, and the locator keeps it.

use vstd::prelude::*;
use crate::paths::extension_spec;
use crate::paths::has_extension;

verus! {

/// The views of a sequence of owned strings.
pub open spec fn entry_views(entries: Seq<String>) -> Seq<Seq<char>> {
    entries.map_values(|e: String| e@)
}

/// The position of the first entry whose extension is `extension`, if any.
pub open spec fn find_spec(entries: Seq<Seq<char>>, extension: Seq<char>) -> Option<int>
    decreases entries.len(),
{
    if entries.len() == 0 {
        None
    } else if extension_spec(entries[0]) == Some(extension) {
        Some(0)
    } else {
        match find_spec(entries.drop_first(), extension) {
            Some(i) => Some(i + 1),
            None => None,
        }
    }
}

/// `find_spec` names the first match: the entry there matches, none before
/// it does, and a `None` means no entry matches at all.
pub proof fn lemma_find_spec_characterization(entries: Seq<Seq<char>>, extension: Seq<char>)
    ensures
        match find_spec(entries, extension) {
            Some(i) => 0 <= i < entries.len() && extension_spec(entries[i]) == Some(extension)
                && (forall|j: int|
                0 <= j < i ==> extension_spec(entries[j]) != Some(extension)),
            None => forall|j: int|
                0 <= j < entries.len() ==> extension_spec(entries[j]) != Some(extension),
        },
    decreases entries.len(),
{
    if entries.len() != 0 && extension_spec(entries[0]) != Some(extension) {
        lemma_find_spec_characterization(entries.drop_first(), extension);
        assert forall|j: int|
            1 <= j < entries.len() implies entries.drop_first()[j - 1] == entries[j] by {
        }
    }
}

/// A directory holding no entry of the wanted extension yields nothing.
pub proof fn lemma_find_none(entries: Seq<Seq<char>>, extension: Seq<char>)
    requires
        forall|i: int| 0 <= i < entries.len() ==> extension_spec(entries[i]) != Some(extension),
    ensures
        find_spec(entries, extension) is None,
{
    lemma_find_spec_characterization(entries, extension);
    if find_spec(entries, extension) is Some {
        let i = choose|i: int| find_spec(entries, extension) == Some(i);
    }
}

/// With exactly one matching entry, the locator names that entry.
pub proof fn lemma_find_sole_match(entries: Seq<Seq<char>>, extension: Seq<char>, k: int)
    requires
        0 <= k < entries.len(),
        extension_spec(entries[k]) == Some(extension),
        forall|i: int|
            0 <= i < entries.len() && i != k ==> extension_spec(entries[i]) != Some(extension),
    ensures
        find_spec(entries, extension) == Some(k),
{
    lemma_find_spec_characterization(entries, extension);
}

/// If no entry before position `i` matches, the search of the whole sequence
/// is the search of the rest, shifted by `i`.
proof fn lemma_find_spec_skip(entries: Seq<Seq<char>>, extension: Seq<char>, i: int)
    requires
        0 <= i <= entries.len(),
        forall|j: int| 0 <= j < i ==> extension_spec(entries[j]) != Some(extension),
    ensures
        find_spec(entries, extension) == match find_spec(entries.skip(i), extension) {
            Some(k) => Some(k + i),
            None => None::<int>,
        },
    decreases i,
{
    if i == 0 {
        assert(entries.skip(0) =~= entries);
    } else {
        lemma_find_spec_skip(entries, extension, i - 1);
        let rest = entries.skip(i - 1);
        assert(rest[0] == entries[i - 1]);
        assert(rest.drop_first() =~= entries.skip(i));
    }
}

/// The first entry whose extension is `extension`, in the given order.
pub fn find(entries: &Vec<String>, extension: &str) -> (r: Option<String>)
    ensures
        r is None <==> find_spec(entry_views(entries@), extension@) is None,
        (match r {
            Some(name) => match find_spec(entry_views(entries@), extension@) {
                Some(i) => 0 <= i < entries@.len() && name@ == entry_views(entries@)[i],
                None => false,
            },
            None => true,
        }),
{
    let ghost views = entry_views(entries@);
    let mut i: usize = 0;
    while i < entries.len()
        invariant
            i <= entries.len(),
            views == entry_views(entries@),
            views.len() == entries@.len(),
            forall|j: int| 0 <= j < views.len() ==> views[j] == entries@[j]@,
            forall|j: int| 0 <= j < i ==> extension_spec(views[j]) != Some(extension@),
        decreases entries.len() - i,
    {
        if has_extension(entries[i].as_str(), extension) {
            proof {
                lemma_find_spec_skip(views, extension@, i as int);
                assert(views.skip(i as int)[0] == views[i as int]);
            }
            return Some(entries[i].clone());
        }
        i = i + 1;
    }
    proof {
        lemma_find_spec_skip(views, extension@, i as int);
        assert(views.skip(i as int) =~= Seq::<Seq<char>>::empty());
    }
    None
}

} // verus!
