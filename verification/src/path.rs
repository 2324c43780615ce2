//! Scope paths: strings of the form `/a/b/c/` that name a lexical scope, and
//! the keys `/a/b/c/name` under which reference targets are filed.

use vstd::prelude::*;
use vstd::std_specs::iter::IteratorSpec;
use vstd::string::StringExecFns;

verus! {

/// A scope path starts and ends with a slash. The root scope is `/`.
pub open spec fn is_scope_path(p: Seq<char>) -> bool {
    &&& p.len() >= 1
    &&& p[0] == '/'
    &&& p[p.len() - 1] == '/'
}

/// The path of the root scope.
pub open spec fn root_path() -> Seq<char> {
    seq!['/']
}

/// The path of the scope `name` inside the scope `p`.
pub open spec fn child_path(p: Seq<char>, name: Seq<char>) -> Seq<char> {
    p + name + seq!['/']
}

/// The key of the target `name` declared in the scope `p`.
pub open spec fn path_key(p: Seq<char>, name: Seq<char>) -> Seq<char> {
    p + name
}

/// The greatest index below `end` at which `p` holds a slash, or -1.
pub open spec fn last_slash_before(p: Seq<char>, end: int) -> int
    decreases end,
{
    if end <= 0 {
        -1
    } else if p[end - 1] == '/' {
        end - 1
    } else {
        last_slash_before(p, end - 1)
    }
}

/// One level up: `p` without its trailing `<segment>/`. The root is its own parent.
pub open spec fn ascend(p: Seq<char>) -> Seq<char> {
    let j = last_slash_before(p, p.len() - 1);
    if j < 0 {
        root_path()
    } else {
        p.subrange(0, j + 1)
    }
}

/// Ascending keeps a path a scope path, and shortens any but the root.
pub proof fn lemma_ascend_scope_path(p: Seq<char>)
    requires
        is_scope_path(p),
    ensures
        is_scope_path(ascend(p)),
        p.len() >= 2 ==> ascend(p).len() < p.len(),
        p.len() == 1 ==> ascend(p) == p,
{
    let j = last_slash_before(p, p.len() - 1);
    lemma_last_slash_before(p, p.len() - 1);
    if p.len() == 1 {
        assert(p =~= root_path());
    } else {
        assert(p[0] == '/');
        assert(j >= 0) by {
            if j < 0 {
                assert(p[0] != '/');
            }
        }
    }
}

/// What `last_slash_before` finds: a slash, with none after it below `end`.
pub proof fn lemma_last_slash_before(p: Seq<char>, end: int)
    requires
        0 <= end <= p.len(),
    ensures
        -1 <= last_slash_before(p, end) < end,
        last_slash_before(p, end) >= 0 ==> p[last_slash_before(p, end)] == '/',
        forall|k: int| last_slash_before(p, end) < k < end ==> p[k] != '/',
    decreases end,
{
    if end > 0 && p[end - 1] != '/' {
        lemma_last_slash_before(p, end - 1);
    }
}

/// Ascending from a child scope gives back the parent, where the child's name
/// holds no slash.
pub proof fn lemma_ascend_child(p: Seq<char>, name: Seq<char>)
    requires
        is_scope_path(p),
        !name.contains('/'),
    ensures
        ascend(child_path(p, name)) == p,
{
    let c = child_path(p, name);
    let end = c.len() - 1;
    lemma_last_slash_before(c, end);
    let j = last_slash_before(c, end);
    assert(c[p.len() - 1] == '/');
    assert forall|k: int| p.len() <= k < end implies c[k] != '/' by {
        assert(c[k] == name[k - p.len()]);
    }
    assert(j == p.len() - 1);
    assert(c.subrange(0, j + 1) =~= p);
}

/// The characters of a string.
pub fn chars_of(s: &str) -> (v: Vec<char>)
    ensures
        v@ == s@,
{
    let mut v: Vec<char> = Vec::new();
    for c in it: s.chars()
        invariant
            it.seq() == s@,
            v@ == s@.take(it.index() as int),
    {
        v.push(c);
        assert(s@.take(it.index() + 1) =~= s@.take(it.index() as int).push(c));
    }
    assert(s@.take(s@.len() as int) =~= s@);
    v
}

/// Whether `path` is a scope path.
pub fn is_scope_path_string(path: &str) -> (res: bool)
    ensures
        res == is_scope_path(path@),
{
    let chars = chars_of(path);
    let n = chars.len();
    n >= 1 && chars[0] == '/' && chars[n - 1] == '/'
}

/// The root path as a string.
pub fn root_path_string() -> (res: String)
    ensures
        res@ == root_path(),
{
    proof {
        reveal_strlit("/");
    }
    let res = String::from_str("/");
    assert(res@ =~= root_path());
    res
}

/// The path of the scope `name` inside the scope `path`.
pub fn child_path_string(path: &str, name: &str) -> (res: String)
    ensures
        res@ == child_path(path@, name@),
{
    proof {
        reveal_strlit("/");
    }
    let mut res = path.to_owned();
    res.append(name);
    res.append("/");
    assert(res@ =~= child_path(path@, name@));
    res
}

/// The key of the target `name` declared in the scope `path`.
pub fn path_key_string(path: &str, name: &str) -> (res: String)
    ensures
        res@ == path_key(path@, name@),
{
    let mut res = path.to_owned();
    res.append(name);
    res
}

/// One level up from `path`.
pub fn ascend_path(path: &str) -> (res: String)
    ensures
        res@ == ascend(path@),
{
    let chars = chars_of(path);
    let n = chars.len();
    if n == 0 {
        return root_path_string();
    }
    let mut end: usize = n - 1;
    while end > 0
        invariant
            chars@ == path@,
            n == chars.len(),
            end <= n - 1,
            last_slash_before(path@, end as int) == last_slash_before(path@, n - 1),
        decreases end,
    {
        if chars[end - 1] == '/' {
            return path.substring_char(0, end).to_owned();
        }
        end = end - 1;
    }
    root_path_string()
}

} // verus!
