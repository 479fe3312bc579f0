//! Discovery of deployable resource units (ASPs) in a project tree, and the
//! parsing of a discovered directory into an [`Asp`].
//!
//! The walk of the filesystem and the test for a file on disk are done by the
//! caller; this module decides, from what the walk saw, which directories
//! are resources and what they are called.
use vstd::prelude::*;
use crate::path::{
    components_of, contains, contains_str, joined, parent_of, path_components, path_join,
    path_parent, path_strip_prefix, stripped, PathComponent,
};

verus! {

/// A deployable resource of a project.
#[derive(Debug)]
pub struct Asp {
    pub project: String,
    pub resource: String,
}

impl View for Asp {
    type V = (Seq<char>, Seq<char>);

    open spec fn view(&self) -> (Seq<char>, Seq<char>) {
        (self.project@, self.resource@)
    }
}

/// What can go wrong while listing the resources of a project tree.
#[derive(Debug)]
pub enum AspError {
    FailedToLoadProfile,
    NoLocalBaseDir,
    /// The walk of the tree failed; the walker's message.
    FailedToFindAsps(String),
    /// A directory does not have the shape of a resource; the path as given.
    FailedParseAspFromPath(String),
    FailedToParseOutputType,
    FailedOutput,
}

/// One item of a directory walk: a path that was visited, or a failure.
#[derive(Debug)]
pub enum WalkEntry {
    Found(String),
    Failed(String),
}

/// The file that marks a resource directory.
pub open spec fn makefile_name() -> Seq<char> {
    "Makefile"@
}

/// The run of characters that a resource directory's path holds.
pub open spec fn resources_marker() -> Seq<char> {
    "ansible-setup-package/resources"@
}

/// The project manifest's file name.
pub open spec fn manifest_name() -> Seq<char> {
    "project.cfg"@
}

/// Four components, each of them normal.
pub open spec fn asp_shape(cs: Seq<PathComponent>) -> bool {
    cs.len() == 4 && forall|i: int| 0 <= i < 4 ==> (#[trigger] cs[i]) is Normal
}

/// The project and resource named by a relative path, where it has the shape.
pub open spec fn asp_of(rel: Seq<char>) -> Option<(Seq<char>, Seq<char>)> {
    let cs = components_of(rel);
    if asp_shape(cs) {
        Some((cs[0]->Normal_0@, cs[3]->Normal_0@))
    } else {
        None
    }
}

/// The last component of `p` is a normal one named `Makefile`.
pub open spec fn names_makefile(p: Seq<char>) -> bool {
    let cs = components_of(p);
    cs.len() > 0 && cs.last() is Normal && cs.last()->Normal_0@ == makefile_name()
}

/// `d` is the resource directory that the walked path `p` stands for: `p` is a
/// `Makefile`, `d` its parent, and `d` lies under the resources folder.
pub open spec fn is_resource_dir_of(p: Seq<char>, d: Seq<char>) -> bool {
    names_makefile(p) && parent_of(p) == Some(d) && contains(d, resources_marker())
}

/// The resource directory that a walked path stands for, if any.
pub open spec fn resource_dir(p: Seq<char>) -> Option<Seq<char>> {
    if names_makefile(p) && parent_of(p) is Some && contains(parent_of(p)->0, resources_marker()) {
        Some(parent_of(p)->0)
    } else {
        None
    }
}

/// Where the manifest of the project that owns resource directory `d` lies:
/// beside `d`, in its parent.
pub open spec fn manifest_path(d: Seq<char>) -> Seq<char> {
    match parent_of(d) {
        Some(q) => joined(q, manifest_name()),
        None => joined(d, manifest_name()),
    }
}

/// The texts of a list of strings.
pub open spec fn views(v: Seq<String>) -> Seq<Seq<char>> {
    v.map_values(|s: String| s@)
}

/// The directories that a walk reports as resources, given the manifest
/// files that exist, in the order of the walk.
pub open spec fn discovered(entries: Seq<WalkEntry>, manifests: Seq<Seq<char>>) -> Seq<Seq<char>>
    decreases entries.len(),
{
    if entries.len() == 0 {
        seq![]
    } else {
        let rest = discovered(entries.drop_last(), manifests);
        match entries.last() {
            WalkEntry::Found(p) => match resource_dir(p@) {
                Some(d) => if manifests.contains(manifest_path(d)) {
                    rest.push(d)
                } else {
                    rest
                },
                None => rest,
            },
            WalkEntry::Failed(_) => rest,
        }
    }
}

/// The index of the first failed entry of a walk, if any.
pub open spec fn first_failure(entries: Seq<WalkEntry>, i: int) -> bool {
    0 <= i < entries.len() && entries[i] is Failed
        && forall|j: int| 0 <= j < i ==> !(#[trigger] entries[j] is Failed)
}

impl Asp {
    /// Builds the resource named by a relative path from its components:
    /// there must be exactly four, all normal; the first names the project
    /// and the last the resource.
    pub fn from_components(path: &str, cs: &Vec<PathComponent>) -> (r: Result<Asp, AspError>)
        ensures
            r is Ok <==> asp_shape(cs@),
            r is Ok ==> r->Ok_0@ == (cs@[0]->Normal_0@, cs@[3]->Normal_0@),
            r is Err ==> r->Err_0 is FailedParseAspFromPath
                && r->Err_0->FailedParseAspFromPath_0@ == path@,
    {
        if cs.len() == 4 {
            let mut all_normal = true;
            let mut i: usize = 0;
            while i < 4
                invariant
                    cs@.len() == 4,
                    i <= 4,
                    all_normal == (forall|k: int| 0 <= k < i ==> (#[trigger] cs@[k]) is Normal),
                decreases 4 - i,
            {
                if !matches!(cs[i], PathComponent::Normal(_)) {
                    all_normal = false;
                }
                i = i + 1;
            }
            if all_normal {
                if let (PathComponent::Normal(project), PathComponent::Normal(resource)) = (&cs[0], &cs[3]) {
                    return Ok(Asp { project: project.clone(), resource: resource.clone() });
                }
            }
        }
        Err(AspError::FailedParseAspFromPath(path.to_owned()))
    }

    /// Parses a path relative to the base directory, such as
    /// `logimon/ansible-setup-package/resources/elk_elasticsearch`, into the
    /// resource it names. The two middle components are not looked at.
    pub fn from_path(path: &str) -> (r: Result<Asp, AspError>)
        ensures
            r is Ok <==> asp_of(path@) is Some,
            r is Ok ==> r->Ok_0@ == asp_of(path@)->0,
            r is Err ==> r->Err_0 is FailedParseAspFromPath
                && r->Err_0->FailedParseAspFromPath_0@ == path@,
    {
        let cs = path_components(path);
        Asp::from_components(path, &cs)
    }
}

/// The resource directory that a walked path stands for: its parent, where the
/// path names a `Makefile` and the parent lies under the resources folder.
pub fn resource_dir_of(path: &str) -> (r: Option<String>)
    ensures
        r is Some <==> resource_dir(path@) is Some,
        r is Some ==> r->0@ == resource_dir(path@)->0,
{
    let cs = path_components(path);
    let n = cs.len();
    if n == 0 {
        return None;
    }
    let is_makefile = match &cs[n - 1] {
        PathComponent::Normal(name) => {
            proof {
                reveal_strlit("Makefile");
            }
            *name == "Makefile".to_owned()
        },
        _ => false,
    };
    if !is_makefile {
        return None;
    }
    match path_parent(path) {
        Some(parent) => {
            proof {
                reveal_strlit("ansible-setup-package/resources");
            }
            if contains_str(parent.as_str(), "ansible-setup-package/resources") {
                Some(parent)
            } else {
                None
            }
        },
        None => None,
    }
}

/// Where the manifest of the project that owns a resource directory lies.
pub fn manifest_path_of(dir: &str) -> (r: String)
    ensures
        r@ == manifest_path(dir@),
{
    proof {
        reveal_strlit("project.cfg");
    }
    match path_parent(dir) {
        Some(q) => path_join(q.as_str(), "project.cfg"),
        None => path_join(dir, "project.cfg"),
    }
}

fn holds_path(v: &Vec<String>, p: &String) -> (r: bool)
    ensures
        r == views(v@).contains(p@),
{
    let mut i: usize = 0;
    while i < v.len()
        invariant
            i <= v@.len(),
            forall|k: int| 0 <= k < i ==> v@[k]@ != p@,
        decreases v.len() - i,
    {
        if v[i] == *p {
            assert(views(v@)[i as int] == p@);
            return true;
        }
        i = i + 1;
    }
    assert forall|k: int| 0 <= k < views(v@).len() implies views(v@)[k] != p@ by {
        assert(v@[k]@ != p@);
    }
    false
}

/// The resource directories among the entries of a walk of a base
/// directory. `manifests` lists the project manifests that exist as files.
/// A failed entry fails the whole search with the first failure's message.
pub fn find_asps(entries: &Vec<WalkEntry>, manifests: &Vec<String>) -> (r: Result<Vec<String>, AspError>)
    ensures
        r is Err <==> exists|i: int| first_failure(entries@, i),
        r is Err ==> exists|i: int| #![auto] first_failure(entries@, i)
            && r->Err_0 == AspError::FailedToFindAsps(entries@[i]->Failed_0),
        r is Ok ==> views(r->Ok_0@) == discovered(entries@, views(manifests@)),
{
    let mut found: Vec<String> = Vec::new();
    let mut i: usize = 0;
    while i < entries.len()
        invariant
            i <= entries@.len(),
            forall|j: int| 0 <= j < i ==> !(#[trigger] entries@[j] is Failed),
            views(found@) == discovered(entries@.subrange(0, i as int), views(manifests@)),
        decreases entries.len() - i,
    {
        let ghost before = found@;
        assert(entries@.subrange(0, i + 1).drop_last() =~= entries@.subrange(0, i as int));
        match &entries[i] {
            WalkEntry::Failed(msg) => {
                assert(first_failure(entries@, i as int));
                return Err(AspError::FailedToFindAsps(msg.clone()));
            },
            WalkEntry::Found(p) => {
                if let Some(d) = resource_dir_of(p.as_str()) {
                    let m = manifest_path_of(d.as_str());
                    if holds_path(manifests, &m) {
                        found.push(d);
                        assert(views(found@) =~= views(before).push(found@.last()@));
                    }
                }
            },
        }
        i = i + 1;
    }
    assert(entries@.subrange(0, i as int) =~= entries@);
    assert forall|k: int| !first_failure(entries@, k) by {}
    Ok(found)
}

/// Discovery is exact: a directory is reported if and only if some walked
/// path is a `Makefile` whose parent is that directory, the directory's path
/// holds `ansible-setup-package/resources`, and the project manifest beside
/// it exists.
pub proof fn lemma_discovery_exact(entries: Seq<WalkEntry>, manifests: Seq<Seq<char>>, d: Seq<char>)
    ensures
        discovered(entries, manifests).contains(d) <==> exists|i: int|
            0 <= i < entries.len() && (#[trigger] entries[i]) is Found
                && names_makefile(entries[i]->Found_0@)
                && parent_of(entries[i]->Found_0@) == Some(d)
                && contains(d, resources_marker())
                && manifests.contains(manifest_path(d)),
    decreases entries.len(),
{
    if entries.len() > 0 {
        let init = entries.drop_last();
        lemma_discovery_exact(init, manifests, d);
        let last = entries.len() - 1;
        assert forall|i: int| 0 <= i < init.len() implies init[i] == entries[i] by {}
        let rest = discovered(init, manifests);
        if discovered(entries, manifests).contains(d) && !rest.contains(d) {
            let k = choose|k: int| 0 <= k < discovered(entries, manifests).len()
                && discovered(entries, manifests)[k] == d;
            assert(k == rest.len());
            assert(entries[last] is Found);
        }
        if !discovered(entries, manifests).contains(d) {
            assert forall|i: int| 0 <= i < entries.len() && (#[trigger] entries[i]) is Found
                && names_makefile(entries[i]->Found_0@)
                && parent_of(entries[i]->Found_0@) == Some(d)
                && contains(d, resources_marker())
                implies !manifests.contains(manifest_path(d)) by {
                if i == last {
                    if manifests.contains(manifest_path(d)) {
                        assert(discovered(entries, manifests) == rest.push(d));
                        assert(discovered(entries, manifests)[rest.len() as int] == d);
                    }
                } else {
                    assert(init[i] == entries[i]);
                    if manifests.contains(manifest_path(d)) {
                        assert(rest.contains(d));
                        let k = choose|k: int| 0 <= k < rest.len() && rest[k] == d;
                        assert(discovered(entries, manifests)[k] == d);
                    }
                }
            }
        } else if rest.contains(d) {
            let i = choose|i: int|
                0 <= i < init.len() && (#[trigger] init[i]) is Found
                    && names_makefile(init[i]->Found_0@)
                    && parent_of(init[i]->Found_0@) == Some(d)
                    && contains(d, resources_marker())
                    && manifests.contains(manifest_path(d));
            assert(entries[i] == init[i]);
        }
    }
}

/// The resources named by discovered directories, each taken relative to the
/// base directory; a directory outside the base is passed over. The first
/// directory without the shape of a resource fails the whole list.
pub open spec fn asps_of(base: Seq<char>, dirs: Seq<Seq<char>>) -> Result<Seq<(Seq<char>, Seq<char>)>, Seq<char>>
    decreases dirs.len(),
{
    if dirs.len() == 0 {
        Ok(seq![])
    } else {
        match asps_of(base, dirs.drop_last()) {
            Err(p) => Err(p),
            Ok(done) => match stripped(dirs.last(), base) {
                None => Ok(done),
                Some(rel) => match asp_of(rel) {
                    Some(a) => Ok(done.push(a)),
                    None => Err(rel),
                },
            },
        }
    }
}

/// Parses each discovered directory, taken relative to `base`, into the
/// resource it names.
pub fn asps_from_dirs(base: &str, dirs: &Vec<String>) -> (r: Result<Vec<Asp>, AspError>)
    ensures
        asps_of(base@, views(dirs@)) is Ok ==> r is Ok
            && r->Ok_0@.map_values(|a: Asp| a@) == asps_of(base@, views(dirs@))->Ok_0,
        asps_of(base@, views(dirs@)) is Err ==> r is Err
            && r->Err_0 is FailedParseAspFromPath
            && r->Err_0->FailedParseAspFromPath_0@ == asps_of(base@, views(dirs@))->Err_0,
{
    let mut asps: Vec<Asp> = Vec::new();
    let mut i: usize = 0;
    while i < dirs.len()
        invariant
            i <= dirs@.len(),
            asps_of(base@, views(dirs@.subrange(0, i as int))) is Ok,
            asps@.map_values(|a: Asp| a@) == asps_of(base@, views(dirs@.subrange(0, i as int)))->Ok_0,
        decreases dirs.len() - i,
    {
        let ghost before = asps@;
        assert(views(dirs@.subrange(0, i + 1)).drop_last() =~= views(dirs@.subrange(0, i as int)));
        assert(views(dirs@.subrange(0, i + 1)).last() == dirs@[i as int]@);
        match path_strip_prefix(dirs[i].as_str(), base) {
            Some(rel) => {
                match Asp::from_path(rel.as_str()) {
                    Ok(a) => {
                        asps.push(a);
                        assert(asps@.map_values(|a: Asp| a@) =~= before.map_values(|a: Asp| a@).push(asps@.last()@));
                    },
                    Err(e) => {
                        proof {
                            lemma_asps_of_error_sticks(base@, dirs@, i + 1, dirs@.len() as int);
                        }
                        assert(dirs@.subrange(0, dirs@.len() as int) =~= dirs@);
                        return Err(e);
                    },
                }
            },
            None => {},
        }
        i = i + 1;
    }
    assert(dirs@.subrange(0, i as int) =~= dirs@);
    Ok(asps)
}

proof fn lemma_asps_of_error_sticks(base: Seq<char>, dirs: Seq<String>, m: int, n: int)
    requires
        0 <= m <= n <= dirs.len(),
        asps_of(base, views(dirs.subrange(0, m))) is Err,
    ensures
        asps_of(base, views(dirs.subrange(0, n))) == asps_of(base, views(dirs.subrange(0, m))),
    decreases n - m,
{
    if n > m {
        lemma_asps_of_error_sticks(base, dirs, m, n - 1);
        assert(views(dirs.subrange(0, n)).drop_last() =~= views(dirs.subrange(0, n - 1)));
    }
}

/// The base directory to search: the one given on the command line, else the
/// profile's own.
pub fn select_base_dir(given: Option<String>, profile_dir: Option<String>) -> (r: Result<String, AspError>)
    ensures
        given is Some ==> r is Ok && r->Ok_0 == given->0,
        given is None && profile_dir is Some ==> r is Ok && r->Ok_0 == profile_dir->0,
        given is None && profile_dir is None ==> r is Err && r->Err_0 is NoLocalBaseDir,
{
    match given {
        Some(dir) => Ok(dir),
        None => match profile_dir {
            Some(dir) => Ok(dir),
            None => Err(AspError::NoLocalBaseDir),
        },
    }
}

/// The resources under a base directory, from the entries of its walk and
/// the project manifests that exist: the discovered directories, each parsed
/// relative to the base.
pub fn list_asps(base: &str, entries: &Vec<WalkEntry>, manifests: &Vec<String>) -> (r: Result<Vec<Asp>, AspError>)
    ensures
        (exists|i: int| first_failure(entries@, i)) ==> r is Err && r->Err_0 is FailedToFindAsps,
        !(exists|i: int| first_failure(entries@, i)) ==> ({
            let expected = asps_of(base@, discovered(entries@, views(manifests@)));
            &&& expected is Ok ==> r is Ok && r->Ok_0@.map_values(|a: Asp| a@) == expected->Ok_0
            &&& expected is Err ==> r is Err && r->Err_0 is FailedParseAspFromPath
                && r->Err_0->FailedParseAspFromPath_0@ == expected->Err_0
        }),
{
    let dirs = find_asps(entries, manifests)?;
    asps_from_dirs(base, &dirs)
}

} // verus!
