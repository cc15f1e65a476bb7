use vstd::prelude::*;
use vstd::string::{StrSliceExecFns, StringExecFns};
use crate::releases::ReleaseFetcher;
use crate::sorting::sort_by_name;

verus! {

/// One file of a release that is kept as loose files: its name inside its
/// directory, and what it holds.
#[derive(Debug)]
pub struct ReleaseFile {
    pub name: String,
    pub contents: Vec<u8>,
}

/// Where the modules of a release are loaded from.
#[derive(Debug)]
pub enum ModuleSource {
    /// From the compiled package of the release.
    Package(ReleaseFetcher),
    /// From the loose files of the directory of this path, inside the
    /// directory of all releases.
    Directory(String),
}

/// Whether a release is kept as loose files, as the two oldest ones are.
pub open spec fn is_loose_release(name: Seq<char>) -> bool {
    name == "release-1.2.0-rc0"@ || name == "release-1.4.0-rc0"@
}

/// Where the last `.` of a name stands, or -1 where it has none.
pub open spec fn last_dot(name: Seq<char>) -> int
    decreases name.len(),
{
    if name.len() == 0 {
        -1
    } else if name.last() == '.' {
        name.len() - 1
    } else {
        last_dot(name.drop_last())
    }
}

/// The extension of a file's name: what stands behind its last `.`, unless
/// that `.` is the name's first character or the name has none.
pub open spec fn extension_of(name: Seq<char>) -> Option<Seq<char>> {
    if last_dot(name) > 0 {
        Some(name.subrange(last_dot(name) + 1, name.len() as int))
    } else {
        None
    }
}

/// Whether a file holds a compiled module, going by its name.
pub open spec fn is_module_file(file: ReleaseFile) -> bool {
    extension_of(file.name@) == Some("mv"@)
}

/// Whether `a` stands before `b`, or is `b`, in the order of names:
/// character by character, a name before every longer name it begins.
pub open spec fn name_le(a: Seq<char>, b: Seq<char>) -> bool
    decreases a.len(),
{
    if a.len() == 0 {
        true
    } else if b.len() == 0 {
        false
    } else if a[0] != b[0] {
        a[0] < b[0]
    } else {
        name_le(a.drop_first(), b.drop_first())
    }
}

/// Whether every place in `order` is one of a file.
pub open spec fn places_in(files: Seq<ReleaseFile>, order: Seq<usize>) -> bool {
    forall|k: int| 0 <= k < order.len() ==> #[trigger] order[k] < files.len()
}

/// Whether the files at the places of `order` stand in the order of their names.
pub open spec fn sorted_by_name(files: Seq<ReleaseFile>, order: Seq<usize>) -> bool {
    forall|i: int, j: int|
        0 <= i < j < order.len() ==> name_le(
            files[#[trigger] order[i] as int].name@,
            files[#[trigger] order[j] as int].name@,
        )
}

/// Whether the places of `order` rise from each to the next.
pub open spec fn rising(order: Seq<usize>) -> bool {
    forall|i: int, j: int| 0 <= i < j < order.len() ==> #[trigger] order[i] < #[trigger] order[j]
}

/// Whether files of one name stand at the places of `order` as they stand
/// among `files`: the earlier file first.
pub open spec fn ties_keep_their_order(files: Seq<ReleaseFile>, order: Seq<usize>) -> bool {
    forall|i: int, j: int|
        0 <= i < j < order.len() && name_le(
            files[#[trigger] order[j] as int].name@,
            files[#[trigger] order[i] as int].name@,
        ) ==> order[i] < order[j]
}

/// Whether `order` lists the places of exactly the module files among
/// `files`, each once, in the order of the files' names, and files of one
/// name as they stand among `files`.
pub open spec fn lists_modules_by_name(files: Seq<ReleaseFile>, order: Seq<usize>) -> bool {
    &&& places_in(files, order)
    &&& order.no_duplicates()
    &&& forall|p: usize| #[trigger]
        order.contains(p) <==> p < files.len() && is_module_file(files[p as int])
    &&& sorted_by_name(files, order)
    &&& ties_keep_their_order(files, order)
}

/// Whether a file's name has the given extension.
pub fn extension_equals(name: &str, extension: &str) -> (equal: bool)
    ensures
        equal == (extension_of(name@) == Some(extension@)),
{
    let n: usize = name.unicode_len();
    let mut i: usize = n;
    assert(name@.subrange(0, n as int) =~= name@);
    while i > 0
        invariant
            i <= n,
            n == name@.len(),
            last_dot(name@) == last_dot(name@.subrange(0, i as int)),
        decreases i,
    {
        let ghost prefix = name@.subrange(0, i as int);
        assert(prefix.drop_last() =~= name@.subrange(0, i - 1));
        assert(prefix.last() == name@[i - 1]);
        if name.get_char(i - 1) == '.' {
            if i == 1 {
                return false;
            }
            let found = String::from_str(name.substring_char(i, n));
            let wanted = String::from_str(extension);
            return found == wanted;
        }
        i = i - 1;
    }
    assert(name@.subrange(0, 0).len() == 0);
    false
}

/// Decides where the modules of a release are loaded from: the two oldest
/// releases are kept as loose files under `<release>/modules`, every other
/// one as a compiled package of the package directory `DPN`.
pub fn load_modules_from_release(release_name: &str) -> (source: ModuleSource)
    ensures
        match source {
            ModuleSource::Directory(path) => is_loose_release(release_name@) && path@
                == release_name@ + "/modules"@,
            ModuleSource::Package(fetcher) => !is_loose_release(release_name@)
                && fetcher.package_dir_name@ == "DPN"@ && fetcher.release_name@ == release_name@,
        },
{
    let name = String::from_str(release_name);
    if name == String::from_str("release-1.2.0-rc0") || name == String::from_str(
        "release-1.4.0-rc0",
    ) {
        ModuleSource::Directory(name.concat("/modules"))
    } else {
        ModuleSource::Package(ReleaseFetcher::new("DPN", release_name))
    }
}

/// The places of the module files among `files`, in the order of the files.
fn module_places(files: &Vec<ReleaseFile>) -> (places: Vec<usize>)
    ensures
        places_in(files@, places@),
        rising(places@),
        places@.no_duplicates(),
        forall|p: usize| #[trigger]
            places@.contains(p) <==> p < files@.len() && is_module_file(files@[p as int]),
{
    let n: usize = files.len();
    let mut places: Vec<usize> = Vec::new();
    let mut i: usize = 0;
    while i < n
        invariant
            n == files@.len(),
            i <= n,
            forall|k: int| 0 <= k < places@.len() ==> #[trigger] places@[k] < i,
            rising(places@),
            places@.no_duplicates(),
            forall|p: usize| #[trigger]
                places@.contains(p) <==> p < i && is_module_file(files@[p as int]),
        decreases n - i,
    {
        let ghost before = places@;
        if extension_equals(files[i].name.as_str(), "mv") {
            places.push(i);
            proof {
                assert forall|p: usize| #[trigger]
                    places@.contains(p) <==> p < i + 1 && is_module_file(files@[p as int]) by {
                    if places@.contains(p) {
                        let k = choose|k: int| 0 <= k < places@.len() && places@[k] == p;
                        if k < before.len() {
                            assert(before[k] == p);
                            assert(before.contains(p));
                        }
                    }
                    if p < i + 1 && is_module_file(files@[p as int]) {
                        if p == i {
                            assert(places@[before.len() as int] == p);
                        } else {
                            assert(before.contains(p));
                            let k = choose|k: int| 0 <= k < before.len() && before[k] == p;
                            assert(places@[k] == p);
                        }
                    }
                }
            }
        }
        i = i + 1;
    }
    places
}

/// The contents of the modules of a release that is kept as loose files:
/// of the files whose extension is `mv`, in the order of their names.
pub fn legacy_module_blobs(files: &Vec<ReleaseFile>) -> (blobs: Vec<Vec<u8>>)
    ensures
        exists|order: Seq<usize>|
            {
                &&& #[trigger] lists_modules_by_name(files@, order)
                &&& blobs@.len() == order.len()
                &&& forall|k: int|
                    0 <= k < order.len() ==> (#[trigger] blobs@[k])@ == files@[order[k] as int].contents@
            },
{
    let mut order = module_places(files);
    let ghost unsorted = order@;
    sort_by_name(&mut order, files);
    proof {
        unsorted.lemma_multiset_has_no_duplicates();
        order@.lemma_multiset_has_no_duplicates_conv();
        assert forall|p: usize| #[trigger] order@.contains(p) <==> unsorted.contains(p) by {
            order@.to_multiset_ensures();
            unsorted.to_multiset_ensures();
            assert(order@.contains(p) <==> order@.to_multiset().count(p) > 0);
            assert(unsorted.contains(p) <==> unsorted.to_multiset().count(p) > 0);
        }
        assert forall|k: int| 0 <= k < order@.len() implies #[trigger] order@[k] < files@.len() by {
            assert(order@.contains(order@[k]));
            let j = choose|j: int| 0 <= j < unsorted.len() && unsorted[j] == order@[k];
        }
    }
    let n: usize = order.len();
    let mut blobs: Vec<Vec<u8>> = Vec::new();
    let mut i: usize = 0;
    while i < n
        invariant
            n == order@.len(),
            i <= n,
            places_in(files@, order@),
            blobs@.len() == i,
            forall|k: int|
                0 <= k < i ==> (#[trigger] blobs@[k])@ == files@[order@[k] as int].contents@,
        decreases n - i,
    {
        let place: usize = order[i];
        blobs.push(vstd::slice::slice_to_vec(files[place].contents.as_slice()));
        i = i + 1;
    }
    assert(lists_modules_by_name(files@, order@));
    blobs
}

} // verus!
