//! Laws of grouping lookup: lexical scope within a module, and import
//! prefixes across modules.

use crate::path::{ascend, child_path, is_scope_path, lemma_ascend_child, path_key, root_path};
use crate::resolver::{
    find_char, find_grouping, lemma_find_char, locate_grouping, locate_imported_grouping,
    ReferenceResolverView,
};
use crate::walk::strip_prefix;
use vstd::prelude::*;

verus! {

/// A name without a colon has no first colon.
pub proof fn lemma_no_colon(name: Seq<char>)
    requires
        !name.contains(':'),
    ensures
        find_char(name, ':') is None,
{
    lemma_find_char(name, ':');
    match find_char(name, ':') {
        Some(i) => {
            assert(name[i] == ':');
        },
        None => {},
    }
}

/// In `prefix:name`, where the prefix holds no colon, the first colon is the
/// one that parts the two.
pub proof fn lemma_prefixed_name(prefix: Seq<char>, name: Seq<char>)
    requires
        !prefix.contains(':'),
    ensures
        find_char(prefix + seq![':'] + name, ':') == Some(prefix.len() as int),
        (prefix + seq![':'] + name).subrange(0, prefix.len() as int) == prefix,
        (prefix + seq![':'] + name).subrange(
            prefix.len() as int + 1,
            (prefix + seq![':'] + name).len() as int,
        ) == name,
{
    let full = prefix + seq![':'] + name;
    lemma_find_char(full, ':');
    assert(full[prefix.len() as int] == ':');
    match find_char(full, ':') {
        Some(i) => {
            if i < prefix.len() {
                assert(prefix[i] == full[i]);
                assert(prefix.contains(':'));
            }
        },
        None => {},
    }
    assert(full.subrange(0, prefix.len() as int) =~= prefix);
    assert(full.subrange(prefix.len() as int + 1, full.len() as int) =~= name);
}

/// Lexical proximity wins: a grouping declared in the scope of the `uses`
/// itself is the one that the `uses` refers to, whatever the enclosing scopes
/// declare.
pub proof fn lemma_innermost_grouping_wins(
    r: ReferenceResolverView,
    name: Seq<char>,
    path: Seq<char>,
)
    requires
        !name.contains(':'),
        r.reference_nodes.groupings.contains_key(path_key(path, name)),
    ensures
        find_grouping(r, name, path) == Some(r.reference_nodes.groupings[path_key(path, name)]),
{
    lemma_no_colon(name);
}

/// Where the scope of the `uses` declares no grouping of that name, the
/// lookup goes on in the enclosing scope.
pub proof fn lemma_lookup_goes_outwards(r: ReferenceResolverView, name: Seq<char>, path: Seq<char>)
    requires
        !name.contains(':'),
        is_scope_path(path),
        path.len() > 1,
        !r.reference_nodes.groupings.contains_key(path_key(path, name)),
    ensures
        find_grouping(r, name, path) == find_grouping(r, name, ascend(path)),
{
    lemma_no_colon(name);
}

/// Lexical shadowing. Where a grouping `g` is declared both at the top of a
/// module and inside the container `c`, a `uses g` inside `c` refers to the
/// inner one and a `uses g` at the top to the outer one; so does a `uses g`
/// inside any other top-level scope `d` that declares no `g` of its own.
pub proof fn lemma_lexical_shadowing(
    r: ReferenceResolverView,
    g: Seq<char>,
    c: Seq<char>,
    d: Seq<char>,
)
    requires
        !g.contains(':'),
        !d.contains('/'),
        r.reference_nodes.groupings.contains_key(path_key(root_path(), g)),
        r.reference_nodes.groupings.contains_key(path_key(child_path(root_path(), c), g)),
        !r.reference_nodes.groupings.contains_key(path_key(child_path(root_path(), d), g)),
    ensures
        find_grouping(r, g, child_path(root_path(), c)) == Some(
            r.reference_nodes.groupings[path_key(child_path(root_path(), c), g)],
        ),
        find_grouping(r, g, root_path()) == Some(
            r.reference_nodes.groupings[path_key(root_path(), g)],
        ),
        find_grouping(r, g, child_path(root_path(), d)) == Some(
            r.reference_nodes.groupings[path_key(root_path(), g)],
        ),
{
    lemma_innermost_grouping_wins(r, g, child_path(root_path(), c));
    lemma_innermost_grouping_wins(r, g, root_path());
    let inside_d = child_path(root_path(), d);
    lemma_ascend_child(root_path(), d);
    lemma_lookup_goes_outwards(r, g, inside_d);
}

/// Prefix symmetry. Where the importer binds `prefix` to a module, a
/// `uses prefix:name` in the importer, wherever it stands, refers to the
/// grouping that a `uses name` at the top level of that module refers to,
/// resolved against that module's own tables.
pub proof fn lemma_prefix_symmetry(
    importer: ReferenceResolverView,
    imported: ReferenceResolverView,
    prefix: Seq<char>,
    name: Seq<char>,
    path: Seq<char>,
)
    requires
        !prefix.contains(':'),
        !name.contains(':'),
        importer.prefix_to_module.contains_key(prefix),
        importer.imported_modules.contains_key(importer.prefix_to_module[prefix]),
        importer.imported_modules[importer.prefix_to_module[prefix]] == imported.reference_nodes,
    ensures
        find_grouping(importer, prefix + seq![':'] + name, path) == find_grouping(
            imported,
            name,
            root_path(),
        ),
{
    lemma_prefixed_name(prefix, name);
    lemma_no_colon(name);
    assert(locate_grouping(importer, prefix + seq![':'] + name, path) == locate_imported_grouping(
        importer,
        prefix,
        name,
    ));
}

/// Submodule prefix stripping. In a submodule whose `belongs-to` statement
/// gives the prefix `x`, a `uses x:g` is read as a `uses g`: the two are
/// stored under the same grouping name, and so refer to the same grouping
/// from every scope and against every set of tables. This holds of every `g`
/// that does not itself start with `x:`; such a `g` loses that start as well.
pub proof fn lemma_belongs_to_prefix_stripped(
    x: Seq<char>,
    g: Seq<char>,
    r: ReferenceResolverView,
    path: Seq<char>,
)
    requires
        !(x + seq![':']).is_prefix_of(g),
    ensures
        strip_prefix(x + seq![':'] + g, Some(x)) == g,
        strip_prefix(g, Some(x)) == g,
        find_grouping(r, strip_prefix(x + seq![':'] + g, Some(x)), path) == find_grouping(
            r,
            strip_prefix(g, Some(x)),
            path,
        ),
{
    let lead = x + seq![':'];
    let full = lead + g;
    assert(full.subrange(0, lead.len() as int) =~= lead);
    assert(lead.is_prefix_of(full));
    assert(full.skip(x.len() as int + 1) =~= g);
}

} // verus!
