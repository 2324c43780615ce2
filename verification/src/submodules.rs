//! Merging of submodules, as a whole: a module that names submodules which
//! name none themselves ends up with its own body first and the bodies of
//! its submodules after it, each once, in the order in which they are named.

use crate::load::{
    between_rounds, last_round, lemma_load_ends, lemma_load_from, load, load_from, lookup, round,
    Directory,
};
use crate::merge::merged_module;
use crate::module_loader::{
    file_name, fresh_unit, load_tasks, ModuleLoaderView, TaskView, UnitView,
};
use crate::parser::{walk_file, YangParserView};
use crate::resolved::{lemma_resolve_resolved_module, module_is_resolved};
use crate::tree::ParseTreeView;
use crate::yang::{IncludeView, SchemaNodeView, SubmoduleView, YangFileView};
use vstd::prelude::*;

verus! {

/// The bodies of the submodules, one after the other.
pub open spec fn bodies(subs: Seq<SubmoduleView>) -> Seq<SchemaNodeView>
    decreases subs.len(),
{
    if subs.len() == 0 {
        Seq::empty()
    } else {
        subs.first().body + bodies(subs.drop_first())
    }
}

/// The unit `u` once the submodule `s`, named `name` and walked to the
/// walker state `parser`, is read and merged, with the submodules named by
/// `rest` still to read.
pub open spec fn unit_after(
    u: UnitView,
    name: Seq<char>,
    s: SubmoduleView,
    parser: YangParserView,
    rest: Seq<IncludeView>,
) -> UnitView {
    UnitView {
        module: merged_module(u.module, s),
        parser: YangParserView { includes: Seq::empty(), ..parser },
        tasks: load_tasks(rest),
        visited: u.visited.insert(name),
    }
}

/// The unit `u` once the submodules named by `incs` are read from `dir` and
/// merged, with the submodules that were read, in their order. `None` unless
/// each name is new to the unit and has a file in `dir` that holds a
/// submodule which names no submodule itself.
pub open spec fn drain(u: UnitView, incs: Seq<IncludeView>, dir: Directory) -> Option<
    (UnitView, Seq<SubmoduleView>),
>
    decreases incs.len(),
{
    if incs.len() == 0 {
        Some((u, Seq::empty()))
    } else {
        let name = incs.first().module;
        match lookup(dir, file_name(name)) {
            Some(tree) => match walk_file(tree, u.parser) {
                (YangFileView::Submodule(s), parser) => if !u.visited.contains(name)
                    && parser.includes.len() == 0 {
                    match drain(
                        unit_after(u, name, s, parser, incs.drop_first()),
                        incs.drop_first(),
                        dir,
                    ) {
                        Some((last, rest)) => Some((last, seq![s] + rest)),
                        None => None,
                    }
                } else {
                    None
                },
                _ => None,
            },
            None => None,
        }
    }
}

/// The unit that [`drain`] gives.
pub open spec fn drained(u: UnitView, incs: Seq<IncludeView>, dir: Directory) -> UnitView {
    match drain(u, incs, dir) {
        Some(pair) => pair.0,
        None => u,
    }
}

/// The submodules that [`drain`] gives.
pub open spec fn submodules_read(u: UnitView, incs: Seq<IncludeView>, dir: Directory) -> Seq<
    SubmoduleView,
> {
    match drain(u, incs, dir) {
        Some(pair) => pair.1,
        None => Seq::empty(),
    }
}

/// The body of a module after its submodules are merged is its own body
/// followed by theirs, in their order; nothing is left to do for the unit.
pub proof fn lemma_drain_body(u: UnitView, incs: Seq<IncludeView>, dir: Directory)
    requires
        u.tasks == load_tasks(incs),
    ensures
        drain(u, incs, dir) matches Some((last, subs)) ==> last.module.body == u.module.body
            + bodies(subs) && last.tasks.len() == 0 && subs.len() == incs.len(),
    decreases incs.len(),
{
    if incs.len() > 0 {
        let name = incs.first().module;
        match lookup(dir, file_name(name)) {
            Some(tree) => match walk_file(tree, u.parser) {
                (YangFileView::Submodule(s), parser) => {
                    let next = unit_after(u, name, s, parser, incs.drop_first());
                    lemma_drain_body(next, incs.drop_first(), dir);
                    match drain(next, incs.drop_first(), dir) {
                        Some((last, rest)) => {
                            let subs = seq![s] + rest;
                            assert(subs.first() == s);
                            assert(subs.drop_first() =~= rest);
                            assert(last.module.body =~= u.module.body + bodies(subs));
                        },
                        None => {},
                    }
                },
                _ => {},
            },
            None => {},
        }
    }
}

/// A load that stands before the submodules named by `incs` comes to what
/// the load comes to that stands behind them, with all of them merged.
pub proof fn lemma_drain_rounds(
    v: ModuleLoaderView,
    u: UnitView,
    incs: Seq<IncludeView>,
    dir: Directory,
)
    requires
        between_rounds(v),
        !v.imports_queued,
        v.main == Some(u),
        u.tasks == load_tasks(incs),
        drain(u, incs, dir) is Some,
    ensures
        between_rounds(ModuleLoaderView { main: Some(drained(u, incs, dir)), ..v }),
        load_from(v, dir) == load_from(
            ModuleLoaderView { main: Some(drained(u, incs, dir)), ..v },
            dir,
        ),
    decreases incs.len(),
{
    if incs.len() == 0 {
        assert(ModuleLoaderView { main: Some(u), ..v } == v);
    } else {
        reveal(round);
        let name = incs.first().module;
        let tree = lookup(dir, file_name(name))->0;
        let walked = walk_file(tree, u.parser);
        let s = walked.0->Submodule_0;
        let parser = walked.1;
        let rest = incs.drop_first();
        let next = unit_after(u, name, s, parser, rest);
        assert(u.tasks.last() == TaskView::Load(incs.first()));
        assert(u.tasks.drop_last() =~= load_tasks(rest));
        assert(load_tasks(parser.includes) =~= Seq::<TaskView>::empty());
        // The round that reads the submodule.
        lemma_load_ends(v, dir);
        lemma_load_from(v, dir);
        let read = round(v, dir)->0;
        assert(read.main->0.tasks =~= load_tasks(rest).push(TaskView::Merge(s)));
        // The round that merges it.
        lemma_load_ends(read, dir);
        lemma_load_from(read, dir);
        let merged = round(read, dir)->0;
        assert(merged.main->0.tasks =~= load_tasks(rest));
        assert(merged.main->0 == next);
        assert(merged == ModuleLoaderView { main: Some(next), ..v });
        lemma_drain_rounds(merged, next, rest, dir);
    }
}

/// Submodule merge. Where the module of `entry` names submodules that are
/// there, each once, and that name no submodules themselves, where nothing
/// imports anything, and where no body holds a `uses`, the load gives the
/// module with its own body first and the bodies of the submodules after
/// it, in the order in which the module names them.
pub proof fn lemma_submodules_are_merged_in_order(entry: ParseTreeView, dir: Directory)
    requires
        walk_file(entry, YangParserView::initial()).0 is Module,
        ({
            let walked = walk_file(entry, YangParserView::initial());
            let u = fresh_unit(walked.0->Module_0, walked.1);
            &&& drain(u, walked.1.includes, dir) is Some
            &&& drained(u, walked.1.includes, dir).parser.imports.len() == 0
            &&& module_is_resolved(drained(u, walked.1.includes, dir).module)
        }),
    ensures
        ({
            let walked = walk_file(entry, YangParserView::initial());
            let u = fresh_unit(walked.0->Module_0, walked.1);
            let subs = submodules_read(u, walked.1.includes, dir);
            &&& load(entry, dir) matches Ok(YangFileView::Module(m))
            &&& m.body == walked.0->Module_0.body + bodies(subs)
            &&& subs.len() == walked.1.includes.len()
        }),
{
    let walked = walk_file(entry, YangParserView::initial());
    let m0 = walked.0->Module_0;
    let incs = walked.1.includes;
    let u = fresh_unit(m0, walked.1);
    let v = ModuleLoaderView::initial().started(m0, walked.1);
    crate::load::lemma_load_begins(entry);
    lemma_drain_body(u, incs, dir);
    lemma_drain_rounds(v, u, incs, dir);
    let last = drained(u, incs, dir);
    let after = ModuleLoaderView { main: Some(last), ..v };
    reveal(round);
    reveal(last_round);
    // The round that queues the imports: there are none.
    lemma_load_ends(after, dir);
    lemma_load_from(after, dir);
    let queued = round(after, dir)->0;
    assert(queued.work_list =~= Seq::empty());
    // The round that ends the load.
    lemma_load_ends(queued, dir);
    lemma_load_from(queued, dir);
    assert(module_is_resolved(queued.main->0.module));
    lemma_resolve_resolved_module(queued.resolver(), queued.main->0.module);
}

} // verus!
