//! Loading from files held in memory, and why a load ends. Over any finite
//! set of files, a driver that supplies the loader with what it asks for
//! comes to the end of the load, or to a failure, after finitely many
//! rounds: every round either does some of the work that is pending, or
//! reads a file that was not read before.

use crate::error::{ParserError, ParserErrorView};
use crate::finite::{lemma_imported_ids_empty, lemma_walk_file_finite};
use crate::grammar::Rule;
use crate::module_loader::{
    file_name, lemma_continue_makes_progress, lemma_step_keeps_ready, lemma_supply_keeps_ready,
    pending_work, unit_step, ModuleLoader, ModuleLoaderView, Step, StepView, UnitView,
};
use crate::parser::{walk_file, YangParserView};
use crate::text::str_equal;
use crate::tree::{conforms, ParseTree, ParseTreeView};
use crate::yang::{Module, ModuleView, YangFile, YangFileView};
use vstd::prelude::*;

verus! {

/// The files that a driver can read: pairs of a file name and the syntax
/// tree of the file.
pub type Directory = Seq<(Seq<char>, ParseTreeView)>;

/// The tree of the first file of `dir` with the name `file`.
pub open spec fn lookup(dir: Directory, file: Seq<char>) -> Option<ParseTreeView>
    decreases dir.len(),
{
    if dir.len() == 0 {
        None
    } else if dir.first().0 == file {
        Some(dir.first().1)
    } else {
        lookup(dir.drop_first(), file)
    }
}

/// The file `file` is the file of one of the modules or submodules `read`.
pub open spec fn was_read(read: Set<Seq<char>>, file: Seq<char>) -> bool {
    exists|name: Seq<char>| read.contains(name) && #[trigger] file_name(name) == file
}

/// How many files of `dir` are not the file of any of `read`.
pub open spec fn count_unread(dir: Directory, read: Set<Seq<char>>) -> nat
    decreases dir.len(),
{
    if dir.len() == 0 {
        0
    } else {
        count_unread(dir.drop_first(), read) + if was_read(read, dir.first().0) {
            0nat
        } else {
            1nat
        }
    }
}

/// Different names have different files.
pub proof fn lemma_file_names_differ(a: Seq<char>, b: Seq<char>)
    requires
        file_name(a) == file_name(b),
    ensures
        a == b,
{
    let suffix = ".yang"@;
    assert(a.len() == b.len()) by {
        assert(file_name(a).len() == a.len() + suffix.len());
        assert(file_name(b).len() == b.len() + suffix.len());
    }
    assert forall|i: int| 0 <= i < a.len() implies a[i] == b[i] by {
        assert(file_name(a)[i] == a[i]);
        assert(file_name(b)[i] == b[i]);
    }
    assert(a =~= b);
}

/// Reading one more name leaves no more files unread, and fewer where the
/// file of that name is there and was unread.
pub proof fn lemma_count_unread(dir: Directory, read: Set<Seq<char>>, name: Seq<char>)
    ensures
        count_unread(dir, read.insert(name)) <= count_unread(dir, read),
        lookup(dir, file_name(name)) is Some && !read.contains(name) ==> count_unread(
            dir,
            read.insert(name),
        ) < count_unread(dir, read),
    decreases dir.len(),
{
    let more = read.insert(name);
    if dir.len() > 0 {
        lemma_count_unread(dir.drop_first(), read, name);
        let first = dir.first().0;
        if was_read(read, first) {
            let n = choose|n: Seq<char>| read.contains(n) && #[trigger] file_name(n) == first;
            assert(more.contains(n));
            assert(was_read(more, first));
        }
        if first == file_name(name) {
            assert(more.contains(name));
            assert(was_read(more, first));
            if !read.contains(name) && was_read(read, first) {
                let n = choose|n: Seq<char>| read.contains(n) && #[trigger] file_name(n) == first;
                lemma_file_names_differ(n, name);
            }
        } else if was_read(more, first) {
            let n = choose|n: Seq<char>| more.contains(n) && #[trigger] file_name(n) == first;
            assert(read.contains(n));
            assert(was_read(read, first));
        }
    }
}

/// The module that is being put together, imported or main.
pub open spec fn active_unit(v: ModuleLoaderView) -> UnitView
    recommends
        v.ready(),
{
    if v.imported is Some {
        v.imported->0
    } else {
        v.main->0
    }
}

/// One round of a driver over the files `dir`: a step of the loader and,
/// where the step asks for a file, the tree of that file supplied, with the
/// name of the file for its path. `None` where the round ends the load:
/// nothing is left to read, the file is not there, or it is of the wrong
/// kind.
#[verifier::opaque]
pub open spec fn round(v: ModuleLoaderView, dir: Directory) -> Option<ModuleLoaderView>
    recommends
        v.ready(),
{
    let after = v.step().0;
    match v.step().1 {
        StepView::Continue => Some(after),
        StepView::Finished => None,
        StepView::ReadSubmodule(file) | StepView::ReadModule(file) => match lookup(dir, file) {
            Some(tree) => match after.supply(file, tree) {
                Ok(next) => Some(next),
                Err(_) => None,
            },
            None => None,
        },
    }
}

/// How the round that ends a load ends it: with the module, where nothing
/// is left to read; with a failure, where a file is not there or is of the
/// wrong kind.
#[verifier::opaque]
pub open spec fn last_round(v: ModuleLoaderView, dir: Directory) -> Result<
    ModuleView,
    ParserErrorView,
>
    recommends
        v.ready(),
        round(v, dir) is None,
{
    let after = v.step().0;
    match v.step().1 {
        StepView::ReadSubmodule(file) | StepView::ReadModule(file) => match lookup(dir, file) {
            Some(tree) => match after.supply(file, tree) {
                Ok(next) => Ok(next.result()),
                Err(e) => Err(e),
            },
            None => Err(ParserErrorView::InvalidFile(file)),
        },
        _ => Ok(after.result()),
    }
}

/// The states between the rounds of a driver: the load has begun, the
/// loader waits for no file, and imports are looked at only once the main
/// module is put together.
pub open spec fn between_rounds(v: ModuleLoaderView) -> bool {
    &&& v.ready()
    &&& v.waiting is Nothing
    &&& !v.imports_queued ==> v.imported is None && v.work_list.len() == 0
    &&& v.imports_queued ==> v.main->0.tasks.len() == 0
}

/// What a load over the files `dir` has left to do, most weighty first: the
/// files not read as modules, the files not read as submodules of the
/// module that is being put together, and the work that is pending in the
/// loader itself.
pub open spec fn work_left(v: ModuleLoaderView, dir: Directory) -> (nat, nat, (nat, nat, nat)) {
    (
        count_unread(dir, v.processed_modules),
        if v.imported is Some {
            count_unread(dir, v.imported->0.visited)
        } else if !v.imports_queued && v.main is Some {
            count_unread(dir, v.main->0.visited)
        } else {
            0
        },
        pending_work(v),
    )
}

/// `a` is less than `b`, the first part counting most.
pub open spec fn less_work(a: (nat, nat, (nat, nat, nat)), b: (nat, nat, (nat, nat, nat))) -> bool {
    ||| a.0 < b.0
    ||| a.0 == b.0 && a.1 < b.1
    ||| a.0 == b.0 && a.1 == b.1 && a.2.0 < b.2.0
    ||| a.0 == b.0 && a.1 == b.1 && a.2.0 == b.2.0 && a.2.1 < b.2.1
    ||| a.0 == b.0 && a.1 == b.1 && a.2.0 == b.2.0 && a.2.1 == b.2.1 && a.2.2 < b.2.2
}

/// A load ends. Every round of a driver over a finite set of files either
/// ends the load or leaves less to do, and leaves the loader between rounds
/// again; so there are only finitely many rounds, whatever the files hold,
/// be it modules that import each other or submodules that name each other.
pub proof fn lemma_load_ends(v: ModuleLoaderView, dir: Directory)
    requires
        between_rounds(v),
    ensures
        round(v, dir) matches Some(next) ==> between_rounds(next) && less_work(
            work_left(next, dir),
            work_left(v, dir),
        ),
{
    reveal(round);
    lemma_step_keeps_ready(v);
    match v.step().1 {
        StepView::ReadSubmodule(file) | StepView::ReadModule(file) => {
            match lookup(dir, file) {
                Some(tree) => lemma_supply_keeps_ready(v.step().0, file, tree),
                None => {},
            }
        },
        _ => {},
    }
    match v.step().1 {
        StepView::Continue => {
            lemma_continue_makes_progress(v);
        },
        StepView::Finished => {},
        StepView::ReadSubmodule(_) => {
            let u = active_unit(v);
            match unit_step(u).1 {
                Some(name) => {
                    lemma_count_unread(dir, u.visited, name);
                },
                None => {},
            }
        },
        StepView::ReadModule(_) => {
            let name = v.work_list.first().module;
            lemma_count_unread(dir, v.processed_modules, name);
        },
    }
}

/// What the load that stands at `v` comes to over the files `dir`: round
/// after round, to the round that ends it.
#[verifier::opaque]
pub open spec fn load_from(v: ModuleLoaderView, dir: Directory) -> Result<
    ModuleView,
    ParserErrorView,
>
    decreases
            work_left(v, dir).0,
            work_left(v, dir).1,
            work_left(v, dir).2.0,
            work_left(v, dir).2.1,
            work_left(v, dir).2.2,
    when between_rounds(v)
{
    match round(v, dir) {
        Some(next) => {
            proof {
                lemma_load_ends(v, dir);
            }
            load_from(next, dir)
        },
        None => last_round(v, dir),
    }
}

/// A load goes on with the next round, and ends with the last.
pub proof fn lemma_load_from(v: ModuleLoaderView, dir: Directory)
    requires
        between_rounds(v),
    ensures
        load_from(v, dir) == match round(v, dir) {
            Some(next) => load_from(next, dir),
            None => last_round(v, dir),
        },
{
    reveal(load_from);
    lemma_load_ends(v, dir);
    match round(v, dir) {
        Some(next) => {
            assert(load_from(v, dir) == load_from(next, dir));
        },
        None => {
            assert(load_from(v, dir) == last_round(v, dir));
        },
    }
}

/// What loading the file with the tree `entry` comes to over the files
/// `dir`: the module of `entry`, with the submodules it names merged and its
/// references resolved, or the failure that the load meets first.
pub open spec fn load(entry: ParseTreeView, dir: Directory) -> Result<
    YangFileView,
    ParserErrorView,
> {
    match walk_file(entry, YangParserView::initial()) {
        (YangFileView::Module(m), parser) => match load_from(
            ModuleLoaderView::initial().started(m, parser),
            dir,
        ) {
            Ok(module) => Ok(YangFileView::Module(module)),
            Err(e) => Err(e),
        },
        (YangFileView::Submodule(_), _) => Err(ParserErrorView::InvalidParserEntrypoint),
    }
}

/// The state after the first tree is between rounds.
pub proof fn lemma_load_begins(entry: ParseTreeView)
    ensures
        walk_file(entry, YangParserView::initial()) matches (YangFileView::Module(m), parser)
            ==> between_rounds(ModuleLoaderView::initial().started(m, parser)),
{
    lemma_walk_file_finite(entry, YangParserView::initial());
    lemma_imported_ids_empty();
}

/// A file held in memory: its name and the syntax tree of its text.
pub struct SourceFile {
    pub name: String,
    pub tree: ParseTree,
}

impl View for SourceFile {
    type V = (Seq<char>, ParseTreeView);

    open spec fn view(&self) -> (Seq<char>, ParseTreeView) {
        (self.name@, self.tree@)
    }
}

impl DeepView for SourceFile {
    type V = (Seq<char>, ParseTreeView);

    open spec fn deep_view(&self) -> (Seq<char>, ParseTreeView) {
        self@
    }
}

/// Each file of `dir` holds a tree that the walker can read, under a module
/// or a submodule.
pub open spec fn sources_conform(dir: Directory) -> bool {
    forall|i: int|
        0 <= i < dir.len() ==> conforms((#[trigger] dir[i]).1) && (dir[i].1.rule == Rule::Module
            || dir[i].1.rule == Rule::Submodule)
}

/// The index of the first of `files` with the name `file`.
pub fn find_source(files: &Vec<SourceFile>, file: &str) -> (res: Option<usize>)
    ensures
        match res {
            Some(i) => i < files.len() && lookup(files.deep_view(), file@) == Some(
                files[i as int]@.1,
            ),
            None => lookup(files.deep_view(), file@) is None,
        },
{
    let ghost dir = files.deep_view();
    let mut i: usize = 0;
    assert(dir.skip(0) =~= dir);
    while i < files.len()
        invariant
            i <= files.len(),
            dir == files.deep_view(),
            lookup(dir, file@) == lookup(dir.skip(i as int), file@),
        decreases files.len() - i,
    {
        proof {
            assert(dir.skip(i as int).first() == dir[i as int]);
            assert(dir.skip(i as int).drop_first() =~= dir.skip(i + 1));
            assert(dir[i as int] == files[i as int]@);
        }
        if str_equal(files[i].name.as_str(), file) {
            return Some(i);
        }
        i += 1;
    }
    None
}

/// How a round of a driver ends.
pub enum Round {
    /// The load goes on, from this state.
    Next(ModuleLoader),
    /// The load is finished, with this module.
    Done(Module),
    /// The load has failed.
    Failed(ParserError),
}

impl ModuleLoader {
    /// Does one round of the load over the files `files`: a step and, where
    /// the step asks for a file, the tree of that file supplied.
    pub fn round(self, files: &Vec<SourceFile>) -> (res: Round)
        requires
            between_rounds(self@),
            sources_conform(files.deep_view()),
        ensures
            match res {
                Round::Next(next) => round(self@, files.deep_view()) == Some(next@),
                Round::Done(module) => round(self@, files.deep_view()) is None && last_round(
                    self@,
                    files.deep_view(),
                ) == Ok::<ModuleView, ParserErrorView>(module@),
                Round::Failed(e) => round(self@, files.deep_view()) is None && last_round(
                    self@,
                    files.deep_view(),
                ) == Err::<ModuleView, ParserErrorView>(e@),
            },
    {
        reveal(round);
        reveal(last_round);
        let ghost dir = files.deep_view();
        let mut loader = self;
        match loader.step() {
            Step::Continue => Round::Next(loader),
            Step::Finished => Round::Done(loader.finish_module()),
            Step::ReadSubmodule(file) => loader.read(file, files),
            Step::ReadModule(file) => loader.read(file, files),
        }
    }

    /// Supplies the tree of the file `file` from `files`, where it is there.
    fn read(self, file: String, files: &Vec<SourceFile>) -> (res: Round)
        requires
            self@.ready(),
            !(self@.waiting is Nothing),
            sources_conform(files.deep_view()),
        ensures
            match lookup(files.deep_view(), file@) {
                Some(tree) => match self@.supply(file@, tree) {
                    Ok(next) => res matches Round::Next(l) && l@ == next,
                    Err(e) => res matches Round::Failed(f) && f@ == e,
                },
                None => res matches Round::Failed(f) && f@ == ParserErrorView::InvalidFile(file@),
            },
    {
        let mut loader = self;
        match find_source(files, file.as_str()) {
            Some(i) => {
                assert(files.deep_view()[i as int] == files[i as int]@);
                match loader.supply(file, &files[i].tree) {
                    Ok(_) => Round::Next(loader),
                    Err(e) => Round::Failed(e),
                }
            },
            None => Round::Failed(ParserError::InvalidFile(file)),
        }
    }

    /// Goes on with the load to its end, over the files `files`.
    #[verifier::loop_isolation(false)]
    pub fn load_rest(self, files: &Vec<SourceFile>) -> (res: Result<YangFile, ParserError>)
        requires
            between_rounds(self@),
            sources_conform(files.deep_view()),
        ensures
            match res {
                Ok(file) => file@ is Module && load_from(self@, files.deep_view()) == Ok::<
                    ModuleView,
                    ParserErrorView,
                >(file@->Module_0),
                Err(e) => load_from(self@, files.deep_view()) == Err::<ModuleView, ParserErrorView>(
                    e@,
                ),
            },
    {
        let ghost dir = files.deep_view();
        let ghost start = self@;
        let mut loader = self;
        loop
            invariant
                dir == files.deep_view(),
                sources_conform(dir),
                between_rounds(loader@),
                load_from(loader@, dir) == load_from(start, dir),
            decreases
                    work_left(loader@, dir).0,
                    work_left(loader@, dir).1,
                    work_left(loader@, dir).2.0,
                    work_left(loader@, dir).2.1,
                    work_left(loader@, dir).2.2,
        {
            let ghost before = loader@;
            proof {
                lemma_load_ends(before, dir);
                lemma_load_from(before, dir);
            }
            match loader.round(files) {
                Round::Next(next) => {
                    loader = next;
                },
                Round::Done(module) => {
                    return Ok(YangFile::Module(module));
                },
                Round::Failed(e) => {
                    return Err(e);
                },
            }
        }
    }

    /// Loads the module whose file has the tree `entry`, reading the files
    /// that the load asks for from `files`: merges the submodules that the
    /// module names, gathers the tables of the modules it imports, and
    /// resolves its references. A file that is asked for and is not among
    /// `files` is a failure, `InvalidFile` with its name; so is a file of the
    /// wrong kind, with its name for its path.
    pub fn load_file(self, entry: &ParseTree, files: &Vec<SourceFile>) -> (res: Result<
        YangFile,
        ParserError,
    >)
        requires
            self@ == ModuleLoaderView::initial(),
            conforms(entry@),
            entry@.rule == Rule::Module || entry@.rule == Rule::Submodule,
            sources_conform(files.deep_view()),
        ensures
            match res {
                Ok(file) => load(entry@, files.deep_view()) == Ok::<YangFileView, ParserErrorView>(
                    file@,
                ),
                Err(e) => load(entry@, files.deep_view()) == Err::<YangFileView, ParserErrorView>(
                    e@,
                ),
            },
    {
        let mut loader = self;
        match loader.load_entry(entry) {
            Ok(_) => {},
            Err(e) => {
                return Err(e);
            },
        }
        proof {
            lemma_load_begins(entry@);
        }
        loader.load_rest(files)
    }
}

/// Parses a YANG module from the files of its directory, held in memory:
/// `entry` is the tree of the file to start from, `files` are the files
/// beside it. Gives the module of `entry` with the submodules it names
/// merged and its references resolved, or the failure that the load meets
/// first; see [`load`].
pub fn parse(entry: &ParseTree, files: &Vec<SourceFile>) -> (res: Result<YangFile, ParserError>)
    requires
        conforms(entry@),
        entry@.rule == Rule::Module || entry@.rule == Rule::Submodule,
        sources_conform(files.deep_view()),
    ensures
        match res {
            Ok(file) => load(entry@, files.deep_view()) == Ok::<YangFileView, ParserErrorView>(
                file@,
            ),
            Err(e) => load(entry@, files.deep_view()) == Err::<YangFileView, ParserErrorView>(e@),
        },
{
    ModuleLoader::new().load_file(entry, files)
}

} // verus!
