//! The public photo gallery: which folders are categories, and the order a
//! category's photos are shown in.

use rand::seq::SliceRandom;
use vstd::prelude::*;

verus! {

/// One entry of a folder listing.
#[derive(Clone, Debug)]
pub struct FolderEntry {
    pub name: String,
    pub is_dir: bool,
}

/// The names of the entries that are folders, in listing order.
pub open spec fn folder_names(entries: Seq<FolderEntry>) -> Seq<String>
    decreases entries.len(),
{
    if entries.len() == 0 {
        Seq::empty()
    } else {
        let rest = folder_names(entries.drop_last());
        if entries.last().is_dir {
            rest.push(entries.last().name)
        } else {
            rest
        }
    }
}

/// The categories of the gallery: the sub-folders of its root, in listing
/// order.
pub fn get_categories(entries: Vec<FolderEntry>) -> (r: Vec<String>)
    ensures
        r@ == folder_names(entries@),
{
    let mut r: Vec<String> = Vec::new();
    let mut k: usize = 0;
    while k < entries.len()
        invariant
            k <= entries@.len(),
            r@ == folder_names(entries@.take(k as int)),
        decreases entries@.len() - k,
    {
        proof {
            assert(entries@.take(k + 1).drop_last() =~= entries@.take(k as int));
        }
        if entries[k].is_dir {
            r.push(entries[k].name.clone());
        }
        k = k + 1;
    }
    proof {
        assert(entries@.take(entries@.len() as int) =~= entries@);
    }
    r
}

/// The metadata file a Mac leaves in folders; never a photo.
pub open spec fn is_finder_metadata(name: Seq<char>) -> bool {
    name == seq!['.', 'D', 'S', '_', 'S', 't', 'o', 'r', 'e']
}

fn is_finder_metadata_exec(name: &String) -> (r: bool)
    ensures
        r == is_finder_metadata(name@),
{
    let n = name.as_str();
    if n.unicode_len() != 9 {
        return false;
    }
    let ok = n.get_char(0) == '.' && n.get_char(1) == 'D' && n.get_char(2) == 'S' && n.get_char(3)
        == '_' && n.get_char(4) == 'S' && n.get_char(5) == 't' && n.get_char(6) == 'o'
        && n.get_char(7) == 'r' && n.get_char(8) == 'e';
    proof {
        if ok {
            assert(name@ =~= seq!['.', 'D', 'S', '_', 'S', 't', 'o', 'r', 'e']);
        }
    }
    ok
}

/// The photo file names of a listing, without the metadata file, in listing
/// order.
pub open spec fn photo_names(names: Seq<String>) -> Seq<String>
    decreases names.len(),
{
    if names.len() == 0 {
        Seq::empty()
    } else {
        let rest = photo_names(names.drop_last());
        if is_finder_metadata(names.last()@) {
            rest
        } else {
            rest.push(names.last())
        }
    }
}

/// Relies on rand's `SliceRandom::shuffle` with the thread-local generator:
/// the same names, in a random order.
#[verifier::external_body]
fn shuffle_names(names: Vec<String>) -> (r: Vec<String>)
    ensures
        r@.to_multiset() == names@.to_multiset(),
{
    let mut names = names;
    names.shuffle(&mut rand::rng());
    names
}

/// The photos of a category in the order they are shown: every file of the
/// listing but the metadata file, shuffled.
pub fn get_category_photos(names: Vec<String>) -> (r: Vec<String>)
    ensures
        r@.to_multiset() == photo_names(names@).to_multiset(),
{
    let mut kept: Vec<String> = Vec::new();
    let mut k: usize = 0;
    while k < names.len()
        invariant
            k <= names@.len(),
            kept@ == photo_names(names@.take(k as int)),
        decreases names@.len() - k,
    {
        proof {
            assert(names@.take(k + 1).drop_last() =~= names@.take(k as int));
        }
        if !is_finder_metadata_exec(&names[k]) {
            kept.push(names[k].clone());
        }
        k = k + 1;
    }
    proof {
        assert(names@.take(names@.len() as int) =~= names@);
    }
    shuffle_names(kept)
}

} // verus!
