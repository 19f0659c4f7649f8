//! Paths as text.
//!
//! The orchestrator never looks inside a path: it joins components, makes a
//! path absolute against a working directory, and remembers the outcome. Paths
//! are therefore held as UTF-8 strings. They are Unix paths: a rooted path is
//! one that starts with `/`. Joining is the platform's and making absolute is
//! `path_absolutize`'s; both are reached through trusted wrappers.

use crate::error::ConfigError;
use path_absolutize::Absolutize;
use std::path::Path;
use vstd::prelude::*;
use vstd::string::*;

verus! {

/// A path is rooted when its text starts at the root directory.
pub open spec fn is_rooted(path: Seq<char>) -> bool {
    path.len() > 0 && path[0] == '/'
}

/// The path `base` with `component` adjoined. A rooted component takes the
/// place of the base; any other is appended, after a `/` unless the base is
/// empty or ends in one.
pub open spec fn joined(base: Seq<char>, component: Seq<char>) -> Seq<char> {
    if is_rooted(component) {
        component
    } else if base.len() == 0 || base.last() == '/' {
        base + component
    } else {
        base + seq!['/'] + component
    }
}

/// The text of the path that `path_absolutize::Absolutize::absolutize_from`
/// returns for `path` against the rooted working directory `cwd`. Of it only
/// this is claimed: it depends on the two texts alone, and it is rooted.
pub uninterp spec fn absolutized(path: Seq<char>, cwd: Seq<char>) -> Seq<char>;

/// The feature root used when the caller names none: `tests/features` below
/// the working directory.
pub open spec fn default_root(cwd: Seq<char>) -> Seq<char> {
    joined(joined(cwd, "tests"@), "features"@)
}

/// The text of an optional path.
pub open spec fn text_of(path: Option<&str>) -> Option<Seq<char>> {
    match path {
        Some(p) => Some(p@),
        None => None,
    }
}

/// The feature root that a trellis is bound to: the given base made absolute
/// against `cwd`, or the default root where no base is given.
pub open spec fn resolved_root(base: Option<Seq<char>>, cwd: Seq<char>) -> Seq<char> {
    match base {
        Some(p) => absolutized(p, cwd),
        None => default_root(cwd),
    }
}

/// The file name of the feature description of the suite called `name`.
pub open spec fn feature_file_name(name: Seq<char>) -> Seq<char> {
    name + ".feature"@
}

/// Where the feature description of the suite called `name` is expected
/// below `root`.
pub open spec fn feature_path(root: Seq<char>, name: Seq<char>) -> Seq<char> {
    joined(root, feature_file_name(name))
}

/// Adjoining a component that is not rooted keeps the base in front, so a
/// rooted base gives a rooted path.
pub proof fn joined_keeps_the_base(base: Seq<char>, component: Seq<char>)
    requires
        !is_rooted(component),
    ensures
        base.is_prefix_of(joined(base, component)),
        is_rooted(base) ==> is_rooted(joined(base, component)),
{
    let whole = joined(base, component);
    assert(whole.subrange(0, base.len() as int) =~= base);
}

/// The default root below a rooted working directory is rooted.
pub proof fn default_root_is_rooted(cwd: Seq<char>)
    requires
        is_rooted(cwd),
    ensures
        is_rooted(default_root(cwd)),
{
    reveal_strlit("tests");
    reveal_strlit("features");
    assert("tests"@[0] == 't');
    assert("features"@[0] == 'f');
    joined_keeps_the_base(cwd, "tests"@);
    joined_keeps_the_base(joined(cwd, "tests"@), "features"@);
}

/// The feature file of a suite lies below the root, unless the name of the
/// suite is itself a rooted path.
pub proof fn feature_path_is_below_root(root: Seq<char>, name: Seq<char>)
    requires
        !is_rooted(name),
    ensures
        root.is_prefix_of(feature_path(root, name)),
{
    reveal_strlit(".feature");
    let file = feature_file_name(name);
    assert(".feature"@[0] == '.');
    assert(file[0] == if name.len() == 0 { '.' } else { name[0] });
    joined_keeps_the_base(root, file);
}

/// Calls `std::path::Path::join` on `base` with `component` and hands the
/// joined path back as text. Trusted: the result is `joined`, which is what
/// the platform does on Unix paths: a component that starts at the root
/// replaces the base, and a separator is put in only after a base that is
/// not empty and does not end in one. Both arguments are UTF-8, so the
/// joined path is too and the conversion back to a string loses nothing.
#[verifier::external_body]
fn join(base: &str, component: &str) -> (path: String)
    ensures
        path@ == joined(base@, component@),
{
    Path::new(base).join(component).to_string_lossy().into_owned()
}

/// Calls `path_absolutize::Absolutize::absolutize_from` on `path` with the
/// working directory `cwd`. Trusted: for a rooted `cwd` the crate always
/// returns a path, the one that `absolutized` names, and that path is
/// rooted. The crate collects the components of `cwd` and of `path`, drops
/// one for each `..` but never the root, and puts what is left together
/// behind the root; it panics where nothing is left, which cannot happen
/// once the first component is the root. Both arguments are UTF-8, so the
/// result is too and the conversion back to a string loses nothing.
#[verifier::external_body]
fn absolutize_from(path: &str, cwd: &str) -> (resolved: Option<String>)
    requires
        is_rooted(cwd@),
    ensures
        resolved is Some,
        resolved.unwrap()@ == absolutized(path@, cwd@),
        is_rooted(resolved.unwrap()@),
{
    match Path::new(path).absolutize_from(cwd) {
        Ok(p) => Some(p.to_string_lossy().into_owned()),
        Err(_) => None,
    }
}

/// Tells whether `path` starts at the root directory.
pub fn starts_at_root(path: &str) -> (rooted: bool)
    ensures
        rooted == is_rooted(path@),
{
    path.unicode_len() > 0 && path.get_char(0) == '/'
}

/// What resolving the optional base `base` against `cwd` comes to: a working
/// directory that is not rooted is refused; against any other the root is
/// resolved, and is rooted.
pub open spec fn resolves_as(
    root: Result<String, ConfigError>,
    base: Option<Seq<char>>,
    cwd: Seq<char>,
) -> bool {
    if is_rooted(cwd) {
        root matches Ok(r) && r@ == resolved_root(base, cwd) && is_rooted(r@)
    } else {
        root matches Err(ConfigError::PathIsNotAbsolute { path }) && path@ == cwd
    }
}

/// Resolves the feature root for the optional base `feature_path_base`
/// against the working directory `cwd`: the base made absolute, or
/// `tests/features` below `cwd` where no base is given.
pub fn resolve_root(feature_path_base: Option<&str>, cwd: &str) -> (root: Result<
    String,
    ConfigError,
>)
    ensures
        resolves_as(root, text_of(feature_path_base), cwd@),
{
    if !starts_at_root(cwd) {
        return Err(ConfigError::PathIsNotAbsolute { path: String::from_str(cwd) });
    }
    match feature_path_base {
        Some(base) => {
            match absolutize_from(base, cwd) {
                Some(root) => Ok(root),
                None => {
                    // Never taken: against a rooted working directory there
                    // is always a path.
                    proof {
                        assert(false);
                    }
                    Err(ConfigError::PathIsNotAbsolute { path: String::from_str(cwd) })
                },
            }
        },
        None => {
            proof {
                default_root_is_rooted(cwd@);
            }
            let tests = join(cwd, "tests");
            Ok(join(tests.as_str(), "features"))
        },
    }
}

/// Builds the file name of the feature description of the suite `name`.
pub fn feature_file(name: &str) -> (file: String)
    ensures
        file@ == feature_file_name(name@),
{
    String::from_str(name).concat(".feature")
}

/// Builds the path at which the feature description of the suite `name` is
/// expected below `root`.
pub fn feature_file_path(root: &str, name: &str) -> (path: String)
    ensures
        path@ == feature_path(root@, name@),
{
    let file = feature_file(name);
    join(root, file.as_str())
}

} // verus!
