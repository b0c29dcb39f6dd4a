//! The decision part of local directory staging: which directory a
//! staging path names, and whether it has to be created. The caller
//! observes the filesystem, asks for a plan, and performs it.

use vstd::prelude::*;

verus! {

/// What to do for one staging path: the directory it names, and
/// whether that directory has to be created.
pub struct StagingPlan {
    pub dir: String,
    pub create: bool,
}

/// Index just past the last `/` of `p`, or 0 where `p` holds none.
pub open spec fn after_last_slash(p: Seq<char>) -> int
    decreases p.len(),
{
    if p.len() == 0 {
        0
    } else if p[p.len() - 1] == '/' {
        p.len() as int
    } else {
        after_last_slash(p.drop_last())
    }
}

/// The directory part of `p`: everything up to and including the last
/// `/`, or empty where `p` holds no `/`.
pub open spec fn parent_dir_spec(p: Seq<char>) -> Seq<char> {
    p.take(after_last_slash(p))
}

/// The directory a staging path names: the path itself where it ends
/// in `/`, else its directory part.
pub open spec fn staging_dir_spec(p: Seq<char>) -> Seq<char> {
    if p.len() > 0 && p[p.len() - 1] == '/' {
        p
    } else {
        parent_dir_spec(p)
    }
}

/// The directory has to be created exactly when the path names
/// nothing yet, the directory itself does not exist, and the
/// directory part is not empty.
pub open spec fn staging_create_spec(
    p: Seq<char>,
    path_is_file: bool,
    path_is_dir: bool,
    dir_exists: bool,
) -> bool {
    &&& !path_is_file
    &&& !path_is_dir
    &&& !dir_exists
    &&& staging_dir_spec(p).len() > 0
}

/// Everything up to and including the last `/` of `path`, or the
/// empty string where it holds none.
fn parent_dir(path: &str) -> (r: String)
    ensures
        r@ == parent_dir_spec(path@),
{
    let n = path.unicode_len();
    proof {
        assert(path@.take(n as int) =~= path@);
    }
    let mut i: usize = n;
    while i > 0 && path.get_char(i - 1) != '/'
        invariant
            i <= n,
            n == path@.len(),
            after_last_slash(path@) == after_last_slash(path@.take(i as int)),
        decreases i,
    {
        proof {
            assert(path@.take(i as int).drop_last() =~= path@.take(i - 1));
        }
        i = i - 1;
    }
    proof {
        if i > 0 {
            assert(path@.take(i as int)[i - 1] == '/');
            assert(after_last_slash(path@.take(i as int)) == i);
        } else {
            assert(path@.take(0) =~= Seq::<char>::empty());
        }
        assert(path@.subrange(0, i as int) =~= path@.take(i as int));
    }
    path.substring_char(0, i).to_owned()
}

/// Plans the staging of one path. `path_is_file` and `path_is_dir`
/// say whether the path itself already names a file or a directory;
/// `dir_exists` says whether the directory the path names exists.
/// The plan creates nothing when the path or its directory already
/// exists, so repeating a performed plan never creates again.
pub fn plan_staging(
    path: &str,
    path_is_file: bool,
    path_is_dir: bool,
    dir_exists: bool,
) -> (r: StagingPlan)
    ensures
        r.dir@ == staging_dir_spec(path@),
        r.create == staging_create_spec(path@, path_is_file, path_is_dir, dir_exists),
{
    let n = path.unicode_len();
    let dir = if n > 0 && path.get_char(n - 1) == '/' {
        path.to_owned()
    } else {
        parent_dir(path)
    };
    let create = !path_is_file && !path_is_dir && !dir_exists && dir.as_str().unicode_len() > 0;
    StagingPlan { dir, create }
}

/// Directory staging is idempotent at the decision level: once the
/// directory a path names exists, the plan for that path creates
/// nothing, so a second invocation on an already-staged path is a
/// no-op.
pub proof fn lemma_staging_idempotent(p: Seq<char>, path_is_file: bool, path_is_dir: bool)
    ensures
        !staging_create_spec(p, path_is_file, path_is_dir, true),
        !staging_create_spec(p, path_is_file, true, false),
        !staging_create_spec(p, true, path_is_dir, false),
{
}

} // verus!
