//! Discovery: the assets among the entries that a walk of the source found.
use crate::file::{classify, file_name_of, AssetKind, File};
use vstd::prelude::*;

verus! {

/// An entry that the walk found: its path, and what the filesystem says it is.
#[derive(Clone, Debug, PartialEq, Eq)]
pub struct Entry {
    pub path: String,
    pub is_dir: bool,
    pub is_file: bool,
}

/// Whether an entry is an asset (directories are walked, never kept).
pub open spec fn is_asset(e: Entry) -> bool {
    !e.is_dir && classify(e.path@, e.is_file) is Ok
}

/// The kind and path of each asset among `entries`, in their order.
pub open spec fn gathered(entries: Seq<Entry>) -> Seq<(AssetKind, Seq<char>)>
    decreases entries.len(),
{
    if entries.len() == 0 {
        Seq::empty()
    } else {
        let e = entries.last();
        if is_asset(e) {
            gathered(entries.drop_last()).push((classify(e.path@, e.is_file)->Ok_0, e.path@))
        } else {
            gathered(entries.drop_last())
        }
    }
}

/// The assets among `entries`, in their order; an entry that is not one is
/// passed over, and never stops the rest.
pub fn gather_photos(entries: &Vec<Entry>) -> (r: Vec<File>)
    ensures
        r@.len() == gathered(entries@).len(),
        forall|i: int|
            0 <= i < r@.len() ==> (#[trigger] r@[i].spec_kind(), r@[i].spec_path()) == gathered(
                entries@,
            )[i],
        forall|i: int|
            0 <= i < r@.len() ==> file_name_of(#[trigger] r@[i].spec_path()) == Some(
                r@[i].spec_name(),
            ),
{
    let mut found: Vec<File> = Vec::new();
    let mut i: usize = 0;
    while i < entries.len()
        invariant
            i <= entries@.len(),
            found@.len() == gathered(entries@.subrange(0, i as int)).len(),
            forall|j: int|
                0 <= j < found@.len() ==> (#[trigger] found@[j].spec_kind(), found@[j].spec_path())
                    == gathered(entries@.subrange(0, i as int))[j],
            forall|j: int|
                0 <= j < found@.len() ==> file_name_of(#[trigger] found@[j].spec_path()) == Some(
                    found@[j].spec_name(),
                ),
        decreases entries@.len() - i,
    {
        let e = &entries[i];
        assert(entries@.subrange(0, i + 1).drop_last() == entries@.subrange(0, i as int));
        assert(entries@.subrange(0, i + 1).last() == entries@[i as int]);
        if !e.is_dir {
            match File::new(&e.path, e.is_file) {
                Ok(f) => {
                    found.push(f);
                },
                Err(_) => {},
            }
        }
        i += 1;
    }
    assert(entries@.subrange(0, entries@.len() as int) == entries@);
    found
}

/// An entry list with no asset in it gives nothing.
pub proof fn lemma_no_assets_gathered(entries: Seq<Entry>)
    requires
        forall|i: int| 0 <= i < entries.len() ==> !is_asset(#[trigger] entries[i]),
    ensures
        gathered(entries).len() == 0,
    decreases entries.len(),
{
    if entries.len() > 0 {
        let rest = entries.drop_last();
        assert forall|i: int| 0 <= i < rest.len() implies !is_asset(#[trigger] rest[i]) by {
            assert(rest[i] == entries[i]);
        }
        lemma_no_assets_gathered(rest);
        assert(!is_asset(entries[entries.len() - 1]));
    }
}

} // verus!
