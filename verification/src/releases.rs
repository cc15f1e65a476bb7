use vstd::prelude::*;
use vstd::string::{StrSliceExecFns, StringExecFns};

verus! {

/// Names one release of one package: the directory of the package, and the
/// name of the release under it.
#[derive(Debug, Clone)]
pub struct ReleaseFetcher {
    pub package_dir_name: String,
    pub release_name: String,
}

/// The directory that holds a release's artifacts, from the directory that
/// holds the packages.
pub open spec fn artifacts_dir(package_dir: Seq<char>, release: Seq<char>) -> Seq<char> {
    package_dir + "/releases/artifacts/"@ + release
}

/// The file that holds a release's error descriptions.
pub open spec fn error_descriptions_location(package_dir: Seq<char>, release: Seq<char>) -> Seq<char> {
    artifacts_dir(package_dir, release) + "/error_description/error_description.errmap"@
}

/// The directory that holds a release's compiled package of the given name.
pub open spec fn package_location(package_dir: Seq<char>, release: Seq<char>, package: Seq<char>) -> Seq<
    char,
> {
    artifacts_dir(package_dir, release) + "/build/"@ + package
}

impl ReleaseFetcher {
    pub fn new(package_dir_name: &str, release_name: &str) -> (fetcher: ReleaseFetcher)
        ensures
            fetcher.package_dir_name@ == package_dir_name@,
            fetcher.release_name@ == release_name@,
    {
        ReleaseFetcher {
            package_dir_name: package_dir_name.to_owned(),
            release_name: release_name.to_owned(),
        }
    }

    /// The directory of the release's artifacts.
    fn artifacts_path(&self) -> (path: String)
        ensures
            path@ == artifacts_dir(self.package_dir_name@, self.release_name@),
    {
        let path = String::from_str(self.package_dir_name.as_str());
        let path = path.concat("/releases/artifacts/");
        path.concat(self.release_name.as_str())
    }

    /// Where the release's error descriptions are read from.
    pub fn error_descriptions_path(&self) -> (path: String)
        ensures
            path@ == error_descriptions_location(self.package_dir_name@, self.release_name@),
    {
        self.artifacts_path().concat("/error_description/error_description.errmap")
    }

    /// Where the release's compiled package is read from, once the package's
    /// name is known from its manifest.
    pub fn package_path(&self, package_name: &str) -> (path: String)
        ensures
            path@ == package_location(self.package_dir_name@, self.release_name@, package_name@),
    {
        self.artifacts_path().concat("/build/").concat(package_name)
    }
}

/// Where the final component of a path starts: behind its last `/`, or at
/// its start where it has none.
pub open spec fn final_component_start(path: Seq<char>) -> int
    decreases path.len(),
{
    if path.len() == 0 {
        0
    } else if path.last() == '/' {
        path.len() as int
    } else {
        final_component_start(path.drop_last())
    }
}

/// The final component of a path: what stands behind its last `/`.
pub open spec fn final_component(path: Seq<char>) -> Seq<char> {
    path.subrange(final_component_start(path), path.len() as int)
}

/// The name of a release directory: the final component of its path.
pub fn release_name_of(path: &str) -> (name: String)
    ensures
        name@ == final_component(path@),
{
    let n: usize = path.unicode_len();
    let mut i: usize = n;
    assert(path@.subrange(0, n as int) =~= path@);
    while i > 0
        invariant
            i <= n,
            n == path@.len(),
            final_component_start(path@) == final_component_start(path@.subrange(0, i as int)),
        decreases i,
    {
        let ghost prefix = path@.subrange(0, i as int);
        assert(prefix.drop_last() =~= path@.subrange(0, i - 1));
        assert(prefix.last() == path@[i - 1]);
        if path.get_char(i - 1) == '/' {
            return String::from_str(path.substring_char(i, n));
        }
        i = i - 1;
    }
    assert(path@.subrange(0, 0).len() == 0);
    String::from_str(path.substring_char(0, n))
}

/// The names of all releases, given the paths of the release directories,
/// in the same order.
pub fn list_all_releases(release_dirs: &Vec<String>) -> (names: Vec<String>)
    ensures
        names@.len() == release_dirs@.len(),
        forall|i: int|
            0 <= i < release_dirs@.len() ==> (#[trigger] names@[i])@ == final_component(
                release_dirs@[i]@,
            ),
{
    let n: usize = release_dirs.len();
    let mut names: Vec<String> = Vec::new();
    let mut i: usize = 0;
    while i < n
        invariant
            n == release_dirs@.len(),
            i <= n,
            names@.len() == i,
            forall|k: int|
                0 <= k < i ==> (#[trigger] names@[k])@ == final_component(release_dirs@[k]@),
        decreases n - i,
    {
        names.push(release_name_of(release_dirs[i].as_str()));
        i = i + 1;
    }
    names
}

/// Where the error descriptions of a release of the package directory `DPN`
/// are loaded from.
pub fn load_error_descriptions_from_release(release_name: &str) -> (path: String)
    ensures
        path@ == error_descriptions_location("DPN"@, release_name@),
{
    ReleaseFetcher::new("DPN", release_name).error_descriptions_path()
}

/// The artifacts of the current release, loaded once and then only read.
#[derive(Debug)]
pub struct CurrentRelease {
    pub module_blobs: Vec<Vec<u8>>,
    pub error_descriptions: Vec<u8>,
}

impl CurrentRelease {
    /// Holds what was loaded for the current release.
    pub fn new(module_blobs: Vec<Vec<u8>>, error_descriptions: Vec<u8>) -> (release: CurrentRelease)
        ensures
            release.module_blobs == module_blobs,
            release.error_descriptions == error_descriptions,
    {
        CurrentRelease { module_blobs, error_descriptions }
    }
}

/// The bytes of the current release's modules, in their order.
pub fn current_module_blobs(release: &CurrentRelease) -> (blobs: &Vec<Vec<u8>>)
    ensures
        *blobs == release.module_blobs,
{
    &release.module_blobs
}

/// The bytes of the current release's error descriptions.
pub fn current_error_descriptions(release: &CurrentRelease) -> (bytes: &Vec<u8>)
    ensures
        *bytes == release.error_descriptions,
{
    &release.error_descriptions
}

} // verus!
