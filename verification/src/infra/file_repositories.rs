//! The store on disk, one file for each collection: which files are read,
//! which file holds a collection, and where a new collection is written.

use vstd::prelude::*;
use vstd::string::{StrSliceExecFns, StringExecFns};
use crate::clock::{DatePattern, Timestamp, pattern_text, utc_text};
use crate::collections::model::{Collection, CollectionView, collection_views};
use crate::text::{copy_text, same_text, texts};

verus! {

/// The extension of the files that hold a collection.
pub open spec fn collection_extension() -> Seq<char> {
    "json"@
}

/// The name of the file of a collection first written at the reading `now`.
pub open spec fn file_name_at(now: Timestamp) -> Seq<char> {
    "collection-"@ + utc_text(now@, pattern_text(DatePattern::Second))->Some_0 + ".json"@
}

/// A file of the directory that was read and held a collection.
#[derive(Debug, PartialEq)]
pub struct StoredFile {
    pub path: String,
    pub collection: Collection,
}

/// `i` is the first place of `files` whose collection has the identifier `id`.
pub open spec fn file_first_at(files: Seq<StoredFile>, id: u128, i: int) -> bool {
    &&& 0 <= i < files.len()
    &&& files[i].collection.id == id
    &&& forall|j: int| 0 <= j < i ==> files[j].collection.id != id
}

/// The collections of `files`, in order.
pub open spec fn file_collections(files: Seq<StoredFile>) -> Seq<CollectionView> {
    Seq::new(files.len(), |i: int| files[i].collection@)
}

/// The store of collections on disk, below one directory.
pub struct CollectionRepositoryFile {
    pub base_dir: String,
}

impl CollectionRepositoryFile {
    /// A store below `base_dir`.
    pub fn new(base_dir: String) -> (r: Self)
        ensures
            r.base_dir == base_dir,
    {
        CollectionRepositoryFile { base_dir }
    }

    /// Whether a file with the extension `extension` is read as a collection.
    pub fn has_collection_extension(extension: Option<String>) -> (r: bool)
        ensures
            r == (crate::text::optional_text(extension) == Some(collection_extension())),
    {
        match extension {
            Some(extension) => same_text(extension.as_str(), "json"),
            None => false,
        }
    }

    /// The collections that `files` hold, in the order of the files.
    pub fn list(files: &Vec<StoredFile>) -> (r: Vec<Collection>)
        ensures
            collection_views(r@) == file_collections(files@),
    {
        let mut out: Vec<Collection> = Vec::new();
        let mut i: usize = 0;
        while i < files.len()
            invariant
                i <= files.len(),
                out.len() == i,
                forall|j: int| 0 <= j < i ==> out[j]@ == files[j].collection@,
            decreases files.len() - i,
        {
            out.push(files[i].collection.clone());
            i += 1;
        }
        assert(collection_views(out@) =~= file_collections(files@));
        out
    }

    /// The path of the first of `files` that holds the collection `id`.
    pub fn find_collection_file_path(files: &Vec<StoredFile>, id: &u128) -> (r: Option<String>)
        ensures
            match r {
                Some(path) => exists|i: int| file_first_at(files@, *id, i) && path@ == files[i].path@,
                None => forall|i: int| 0 <= i < files.len() ==> files[i].collection.id != *id,
            },
    {
        let mut i: usize = 0;
        while i < files.len()
            invariant
                i <= files.len(),
                forall|j: int| 0 <= j < i ==> files[j].collection.id != *id,
            decreases files.len() - i,
        {
            if files[i].collection.id == *id {
                assert(file_first_at(files@, *id, i as int));
                return Some(copy_text(&files[i].path));
            }
            i += 1;
        }
        None
    }

    /// The name of the file of a collection first written at the reading `now`.
    pub fn new_file_name(now: Timestamp) -> (r: String)
        ensures
            r@ == file_name_at(now),
    {
        let stamp = now.format(DatePattern::Second);
        let mut name = "collection-".to_owned();
        name.append(stamp.as_str());
        name.append(".json");
        name
    }

    /// A name for a new file that none of the files named `names` bears:
    /// the name after the reading `now` where that is free, otherwise that
    /// name with so many underscores before its extension that it is longer
    /// than every name in `names`.
    pub fn fresh_file_name(names: &Vec<String>, now: Timestamp) -> (r: String)
        ensures
            r@ == fresh_name_at(now, texts(names@)),
            !texts(names@).contains(r@),
    {
        let ghost taken = texts(names@);
        let stamp = now.format(DatePattern::Second);
        let base = Self::new_file_name(now);
        let base_length = base.as_str().unicode_len();
        let mut clash = false;
        let mut most: usize = 0;
        let mut i: usize = 0;
        assert(taken.take(0) =~= Seq::empty());
        while i < names.len()
            invariant
                i <= names.len(),
                taken == texts(names@),
                base@ == file_name_at(now),
                clash == taken.take(i as int).contains(base@),
                most == longest(taken.take(i as int)),
            decreases names.len() - i,
        {
            let length = names[i].as_str().unicode_len();
            proof {
                let shorter = taken.take(i as int);
                let longer = taken.take(i + 1);
                assert(longer.drop_last() =~= shorter);
                assert(longer.last() == names[i as int]@);
                assert(longer =~= shorter.push(names[i as int]@));
                if shorter.contains(base@) {
                    let j = choose|j: int| 0 <= j < shorter.len() && shorter[j] == base@;
                    assert(longer[j] == base@);
                }
                if longer.contains(base@) && names[i as int]@ != base@ {
                    let j = choose|j: int| 0 <= j < longer.len() && longer[j] == base@;
                    assert(shorter[j] == base@);
                }
            }
            if same_text(names[i].as_str(), base.as_str()) {
                clash = true;
            }
            if length > most {
                most = length;
            }
            i += 1;
        }
        proof {
            assert(taken.take(names.len() as int) =~= taken);
            none_longer(taken);
        }
        if !clash {
            return base;
        }
        proof {
            let j = choose|j: int| 0 <= j < taken.len() && taken[j] == base@;
            assert(taken[j].len() <= most);
            reveal_strlit("_");
        }
        let mut name = "collection-".to_owned();
        name.append(stamp.as_str());
        let ghost head = name@;
        let extra = most - base_length;
        let mut k: usize = 0;
        assert(name@ =~= head + underscores(0));
        while k < extra
            invariant
                k <= extra,
                "_"@ == seq!['_'],
                name@ == head + underscores(k as nat),
            decreases extra - k,
        {
            name.append("_");
            assert(name@ =~= head + underscores((k + 1) as nat));
            k += 1;
        }
        name.append("_");
        assert(name@ =~= head + underscores((extra + 1) as nat));
        name.append(".json");
        proof {
            assert(file_name_at(now).len() == head.len() + ".json"@.len());
            assert(name@.len() == most + 1);
            assert forall|j: int| 0 <= j < taken.len() implies taken[j] != name@ by {
                assert(taken[j].len() <= most);
            }
        }
        name
    }

    /// Where the collection `id` is written: over the first of `files` that
    /// holds it, or, where none does, into a new file, of which the name
    /// alone is given: a name after the reading `now` that none of the
    /// files of the directory, whose names are `names`, bears.
    pub fn write_target(
        files: &Vec<StoredFile>,
        names: &Vec<String>,
        id: &u128,
        now: Timestamp,
    ) -> (r: WriteTarget)
        ensures
            match r {
                WriteTarget::Existing(path) => exists|i: int|
                    file_first_at(files@, *id, i) && path@ == files[i].path@,
                WriteTarget::New(name) => {
                    &&& name@ == fresh_name_at(now, texts(names@))
                    &&& !texts(names@).contains(name@)
                    &&& forall|i: int| 0 <= i < files.len() ==> files[i].collection.id != *id
                },
            },
    {
        match Self::find_collection_file_path(files, id) {
            Some(path) => WriteTarget::Existing(path),
            None => WriteTarget::New(Self::fresh_file_name(names, now)),
        }
    }
}

/// The length of the longest of `names`; 0 where there are none.
pub open spec fn longest(names: Seq<Seq<char>>) -> nat
    decreases names.len(),
{
    if names.len() == 0 {
        0
    } else if names.last().len() > longest(names.drop_last()) {
        names.last().len()
    } else {
        longest(names.drop_last())
    }
}

/// None of `names` is longer than the longest.
pub proof fn none_longer(names: Seq<Seq<char>>)
    ensures
        forall|i: int| 0 <= i < names.len() ==> (#[trigger] names[i]).len() <= longest(names),
    decreases names.len(),
{
    if names.len() > 0 {
        none_longer(names.drop_last());
        assert forall|i: int| 0 <= i < names.len() implies (#[trigger] names[i]).len() <= longest(
            names,
        ) by {
            if i < names.len() - 1 {
                assert(names.drop_last()[i] == names[i]);
            }
        }
    }
}

/// `count` underscores.
pub open spec fn underscores(count: nat) -> Seq<char> {
    Seq::new(count, |i: int| '_')
}

/// The name of a new file written at the reading `now` into a directory
/// whose files bear the names `names`: the name after the reading where it
/// is free; otherwise that name with underscores before its extension, one
/// more than it takes to be as long as the longest name.
pub open spec fn fresh_name_at(now: Timestamp, names: Seq<Seq<char>>) -> Seq<char> {
    if !names.contains(file_name_at(now)) {
        file_name_at(now)
    } else {
        "collection-"@ + utc_text(now@, pattern_text(DatePattern::Second))->Some_0 + underscores(
            (longest(names) - file_name_at(now).len() + 1) as nat,
        ) + ".json"@
    }
}

/// Where a collection is written.
#[derive(Debug, PartialEq)]
pub enum WriteTarget {
    /// Over the file at this path, which holds the collection already.
    Existing(String),
    /// Into a new file of this name, in the directory of the store.
    New(String),
}

} // verus!
