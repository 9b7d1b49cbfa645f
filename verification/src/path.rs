//! Directory paths as texts: absolute and relative paths, joining a relative
//! path to a directory, the target of a change of directory, and the prompt
//! that shows a directory.

use vstd::prelude::*;

verus! {

/// The character that separates the components of a path.
pub open spec fn separator() -> char {
    '/'
}

/// Whether `p` is an absolute path: it begins at the root.
pub open spec fn is_absolute_path(p: Seq<char>) -> bool {
    p.len() > 0 && p[0] == separator()
}

/// The path `rel` taken from the directory `base`: `base`, a separator unless
/// `base` is empty or already ends in one, and `rel`.
pub open spec fn appended(base: Seq<char>, rel: Seq<char>) -> Seq<char> {
    if base.len() == 0 || base.last() == separator() {
        base + rel
    } else {
        base + seq![separator()] + rel
    }
}

/// Where a path `p` given in the directory `current` leads: `p` itself where
/// it is absolute, else `p` taken from `current`.
pub open spec fn joined(current: Seq<char>, p: Seq<char>) -> Seq<char> {
    if is_absolute_path(p) {
        p
    } else {
        appended(current, p)
    }
}

/// The directory that a change of directory with the arguments `args` aims
/// at: without arguments the home directory, else the first argument as a
/// path given in the current directory. Further arguments do not count.
pub open spec fn change_target(
    current: Seq<char>,
    home: Seq<char>,
    args: Seq<Seq<char>>,
) -> Seq<char> {
    if args.len() == 0 {
        home
    } else {
        joined(current, args[0])
    }
}

/// The text that follows the directory in a prompt.
pub open spec fn prompt_suffix() -> Seq<char> {
    seq![' ', '%', ' ']
}

/// The prompt that shows the directory `dir`.
pub open spec fn prompt_of(dir: Seq<char>) -> Seq<char> {
    dir + prompt_suffix()
}

/// Tells whether `p` is an absolute path.
pub fn is_absolute(p: &str) -> (r: bool)
    ensures
        r == is_absolute_path(p@),
{
    !p.is_empty() && p.get_char(0) == '/'
}

/// Tells whether `p` is a relative path: one that is not absolute.
pub fn is_relative(p: &str) -> (r: bool)
    ensures
        r == !is_absolute_path(p@),
{
    !is_absolute(p)
}

/// Joins the path `p` to the directory `current`: an absolute `p` stands for
/// itself, a relative one is appended to `current`.
pub fn join(current: &str, p: &str) -> (r: String)
    ensures
        r@ == joined(current@, p@),
{
    if is_absolute(p) {
        p.to_owned()
    } else {
        let n = current.unicode_len();
        let mut out = current.to_owned();
        if n > 0 && current.get_char(n - 1) != '/' {
            proof {
                reveal_strlit("/");
                assert("/"@ =~= seq![separator()]);
            }
            out.append("/");
        }
        out.append(p);
        out
    }
}

/// Computes the directory that `cd` with the arguments `args` aims at.
pub fn target_of_change(current: &str, home: &str, args: &Vec<String>) -> (r: String)
    ensures
        r@ == change_target(current@, home@, args.deep_view()),
{
    if args.len() == 0 {
        home.to_owned()
    } else {
        join(current, args[0].as_str())
    }
}

/// Makes the prompt that shows the directory `dir`.
pub fn prompt_for(dir: &str) -> (r: String)
    ensures
        r@ == prompt_of(dir@),
{
    proof {
        reveal_strlit(" % ");
        assert(" % "@ =~= prompt_suffix());
    }
    let mut out = dir.to_owned();
    out.append(" % ");
    out
}

/// A relative path joined to an absolute directory gives an absolute path,
/// and an absolute path stays what it is: from an absolute current directory
/// every joined path is absolute.
pub proof fn lemma_joined_is_absolute(current: Seq<char>, p: Seq<char>)
    requires
        is_absolute_path(current),
    ensures
        is_absolute_path(joined(current, p)),
{
}

/// With an absolute home directory and an absolute current directory, every
/// change of directory aims at an absolute path.
pub proof fn lemma_change_target_is_absolute(
    current: Seq<char>,
    home: Seq<char>,
    args: Seq<Seq<char>>,
)
    requires
        is_absolute_path(current),
        is_absolute_path(home),
    ensures
        is_absolute_path(change_target(current, home, args)),
{
}

} // verus!
