//! The loader: decides which files a load needs, in which order, and what
//! becomes of each. It reads no file itself. Its driver asks [`ModuleLoader::step`]
//! what to do next, reads the file that a step asks for, has the grammar
//! engine turn it into a syntax tree, and hands the tree to
//! [`ModuleLoader::supply`]; when a step says that nothing is left to read,
//! [`ModuleLoader::finish`] resolves the references and gives the module.

use crate::error::{ParserError, ParserErrorView};
use crate::finite::{
    groupings_are_finite, imported_ids, lemma_imported_ids_empty, lemma_imported_ids_insert,
    lemma_resolver_is_finite, lemma_walk_file_finite,
};
use crate::grammar::Rule;
use crate::merge::{contains_date, merge_revisions, merged_module};
use crate::parser::{walk_file, YangParser, YangParserView};
use crate::resolution::resolve_module;
use crate::resolver::{ReferenceResolver, ReferenceResolverView};
use crate::tree::{conforms, ParseTree, ParseTreeView};
use crate::yang::{
    Import, ImportView, Include, IncludeView, Module, ModuleView, ReferenceNodes,
    ReferenceNodesView, Submodule, SubmoduleView, YangFile, YangFileView,
};
use vstd::hash_map::StringHashMap;
use vstd::hash_set::StringHashSet;
use vstd::prelude::*;
use vstd::string::StringExecFns;

verus! {

/// One thing left to do for a module that is being put together.
pub enum Task {
    /// Read the submodule that this statement names.
    Load(Include),
    /// Merge this submodule, now that the submodules it names are merged.
    Merge(Submodule),
}

/// What a [`Task`] holds, as a mathematical value.
pub ghost enum TaskView {
    Load(IncludeView),
    Merge(SubmoduleView),
}

impl View for Task {
    type V = TaskView;

    open spec fn view(&self) -> TaskView {
        match self {
            Task::Load(x) => TaskView::Load(x@),
            Task::Merge(x) => TaskView::Merge(x@),
        }
    }
}

impl DeepView for Task {
    type V = TaskView;

    open spec fn deep_view(&self) -> TaskView {
        self@
    }
}

/// A module that is being put together from its file and its submodules.
pub struct Unit {
    /// The module as merged so far.
    pub module: Module,
    /// The walker that reads the module and its submodules.
    pub parser: YangParser,
    /// What is left to do; the last task is the next one.
    pub tasks: Vec<Task>,
    /// The names of the submodules read so far.
    pub visited: StringHashSet,
}

/// What a [`Unit`] holds, as a mathematical value.
pub ghost struct UnitView {
    pub module: ModuleView,
    pub parser: YangParserView,
    pub tasks: Seq<TaskView>,
    pub visited: Set<Seq<char>>,
}

impl View for Unit {
    type V = UnitView;

    open spec fn view(&self) -> UnitView {
        UnitView {
            module: self.module@,
            parser: self.parser@,
            tasks: self.tasks.deep_view(),
            visited: self.visited@,
        }
    }
}

impl DeepView for Unit {
    type V = UnitView;

    open spec fn deep_view(&self) -> UnitView {
        self@
    }
}

/// The file that the loader has asked for.
pub enum Waiting {
    /// None.
    Nothing,
    /// A submodule of the module that is being put together.
    Submodule,
    /// The module that this import names.
    Module(Import),
}

/// What a [`Waiting`] holds, as a mathematical value.
pub ghost enum WaitingView {
    Nothing,
    Submodule,
    Module(ImportView),
}

impl View for Waiting {
    type V = WaitingView;

    open spec fn view(&self) -> WaitingView {
        match self {
            Waiting::Nothing => WaitingView::Nothing,
            Waiting::Submodule => WaitingView::Submodule,
            Waiting::Module(x) => WaitingView::Module(x@),
        }
    }
}

/// What the driver of a load is to do next.
#[derive(Debug, PartialEq, Eq)]
pub enum Step {
    /// Ask again: the loader has done a step of its own.
    Continue,
    /// Read the file of this name, beside the file that the load started
    /// from, and supply its tree: it is to hold a submodule.
    ReadSubmodule(String),
    /// Read the file of this name, beside the file that the load started
    /// from, and supply its tree: it is to hold a module.
    ReadModule(String),
    /// Nothing is left to read.
    Finished,
}

/// What a [`Step`] holds, as a mathematical value.
pub ghost enum StepView {
    Continue,
    ReadSubmodule(Seq<char>),
    ReadModule(Seq<char>),
    Finished,
}

impl View for Step {
    type V = StepView;

    open spec fn view(&self) -> StepView {
        match self {
            Step::Continue => StepView::Continue,
            Step::ReadSubmodule(x) => StepView::ReadSubmodule(x@),
            Step::ReadModule(x) => StepView::ReadModule(x@),
            Step::Finished => StepView::Finished,
        }
    }
}

/// The state of a load.
pub struct ModuleLoader {
    /// The reference tables of the modules imported so far, by module name.
    pub imported_modules: StringHashMap<ReferenceNodes>,
    /// The module that each import prefix stands for.
    pub prefix_to_module: StringHashMap<String>,
    /// The module that the load started from, once it is read.
    pub main: Option<Unit>,
    /// The imported module that is being put together, with its import.
    pub imported: Option<Unit>,
    /// The import that `imported` was read for.
    pub importing: Option<Import>,
    /// Whether the imports of the main module have joined the work list.
    pub imports_queued: bool,
    /// The imports still to be looked at; the first is the next one.
    pub work_list: Vec<Import>,
    /// The names of the modules read so far.
    pub processed_modules: StringHashSet,
    /// The file that the loader has asked for.
    pub waiting: Waiting,
}

/// What a [`ModuleLoader`] holds, as a mathematical value.
pub ghost struct ModuleLoaderView {
    pub imported_modules: Map<Seq<char>, ReferenceNodesView>,
    pub prefix_to_module: Map<Seq<char>, Seq<char>>,
    pub main: Option<UnitView>,
    pub imported: Option<UnitView>,
    pub importing: Option<ImportView>,
    pub imports_queued: bool,
    pub work_list: Seq<ImportView>,
    pub processed_modules: Set<Seq<char>>,
    pub waiting: WaitingView,
}

impl View for ModuleLoader {
    type V = ModuleLoaderView;

    open spec fn view(&self) -> ModuleLoaderView {
        ModuleLoaderView {
            imported_modules: self.imported_modules@.map_values(|x: ReferenceNodes| x@),
            prefix_to_module: self.prefix_to_module@.map_values(|x: String| x@),
            main: self.main.deep_view(),
            imported: self.imported.deep_view(),
            importing: self.importing.deep_view(),
            imports_queued: self.imports_queued,
            work_list: self.work_list.deep_view(),
            processed_modules: self.processed_modules@,
            waiting: self.waiting@,
        }
    }
}

/// The name of the file that holds the module or submodule `name`.
pub open spec fn file_name(name: Seq<char>) -> Seq<char> {
    name + ".yang"@
}

/// The tasks that read the submodules named by `includes`, such that the
/// first named is the first read: the last task is the next one.
pub open spec fn load_tasks(includes: Seq<IncludeView>) -> Seq<TaskView> {
    Seq::new(includes.len(), |i: int| TaskView::Load(includes[includes.len() - 1 - i]))
}

/// A unit as it stands once the file of its module is walked: the walker has
/// handed over the names of the submodules to merge, and reading them is
/// what is left to do.
pub open spec fn fresh_unit(module: ModuleView, parser: YangParserView) -> UnitView {
    UnitView {
        module,
        parser: YangParserView { includes: Seq::empty(), ..parser },
        tasks: load_tasks(parser.includes),
        visited: Set::empty(),
    }
}

/// The next task of a unit, done. A submodule to merge is merged. A
/// submodule to read that was read before is passed over; any other is
/// noted as read, and its name is given as the second part: it is the file
/// to ask for.
pub open spec fn unit_step(u: UnitView) -> (UnitView, Option<Seq<char>>)
    recommends
        u.tasks.len() > 0,
{
    let rest = u.tasks.drop_last();
    match u.tasks.last() {
        TaskView::Merge(s) => (
            UnitView { module: merged_module(u.module, s), tasks: rest, ..u },
            None,
        ),
        TaskView::Load(inc) => if u.visited.contains(inc.module) {
            (UnitView { tasks: rest, ..u }, None)
        } else {
            (UnitView { tasks: rest, visited: u.visited.insert(inc.module), ..u }, Some(inc.module))
        },
    }
}

/// What a step of a unit asks of the driver.
pub open spec fn unit_step_asks(u: UnitView) -> (StepView, WaitingView) {
    match unit_step(u).1 {
        Some(name) => (StepView::ReadSubmodule(file_name(name)), WaitingView::Submodule),
        None => (StepView::Continue, WaitingView::Nothing),
    }
}

/// A unit once the submodule `s` is walked: merging `s` is put off until
/// the submodules that `s` names are read and merged, the first named first.
pub open spec fn unit_with_submodule(
    u: UnitView,
    s: SubmoduleView,
    parser: YangParserView,
) -> UnitView {
    UnitView {
        parser: YangParserView { includes: Seq::empty(), ..parser },
        tasks: u.tasks.push(TaskView::Merge(s)) + load_tasks(parser.includes),
        ..u
    }
}

impl ModuleLoaderView {
    /// The state of a load that has not begun.
    pub open spec fn initial() -> ModuleLoaderView {
        ModuleLoaderView {
            imported_modules: Map::empty(),
            prefix_to_module: Map::empty(),
            main: None,
            imported: None,
            importing: None,
            imports_queued: false,
            work_list: Seq::empty(),
            processed_modules: Set::empty(),
            waiting: WaitingView::Nothing,
        }
    }

    /// The load has begun, and an imported module that is being put together
    /// has the import it was read for. Every state from the first tree on is
    /// such a state.
    pub open spec fn ready(self) -> bool {
        &&& self.main is Some
        &&& self.imported is Some ==> self.importing is Some
        &&& self.tables_are_finite()
    }

    /// The tables that the load has gathered are finite, as tables built
    /// one entry at a time are.
    pub open spec fn tables_are_finite(self) -> bool {
        &&& imported_ids(self.imported_modules).finite()
        &&& self.main matches Some(u) ==> groupings_are_finite(u.parser.reference_nodes)
        &&& self.imported matches Some(u) ==> groupings_are_finite(u.parser.reference_nodes)
    }

    /// The state after the file that the load starts from is walked, where
    /// that file holds the module `module`.
    pub open spec fn started(self, module: ModuleView, parser: YangParserView) -> ModuleLoaderView {
        ModuleLoaderView {
            main: Some(fresh_unit(module, parser)),
            processed_modules: self.processed_modules.insert(module.name),
            ..self
        }
    }

    /// One step of the load, and what it asks of the driver.
    ///
    /// An imported module that is being put together goes first: its next
    /// task is done, and when none is left, the module is filed: its prefix
    /// is bound, its reference tables are kept under its name, and its own
    /// imports join the work list. The main module comes next, in the same
    /// way; when no task of it is left, its imports leave its walker and join
    /// the work list, once.
    /// Then the work list: an import of a module that is known binds its
    /// prefix and is done; any other is noted as read, and its file is asked
    /// for. With nothing in the work list, the load is finished.
    pub open spec fn step(self) -> (ModuleLoaderView, StepView)
        recommends
            self.ready(),
    {
        if self.imported is Some {
            let u = self.imported->0;
            if u.tasks.len() > 0 {
                (
                    ModuleLoaderView {
                        imported: Some(unit_step(u).0),
                        waiting: unit_step_asks(u).1,
                        ..self
                    },
                    unit_step_asks(u).0,
                )
            } else {
                let import = self.importing->0;
                (
                    ModuleLoaderView {
                        prefix_to_module: self.prefix_to_module.insert(
                            import.prefix,
                            import.module,
                        ),
                        imported_modules: self.imported_modules.insert(
                            import.module,
                            u.parser.reference_nodes,
                        ),
                        work_list: self.work_list + u.parser.imports,
                        imported: None,
                        importing: None,
                        ..self
                    },
                    StepView::Continue,
                )
            }
        } else if self.main is Some && self.main->0.tasks.len() > 0 {
            let u = self.main->0;
            (
                ModuleLoaderView {
                    main: Some(unit_step(u).0),
                    waiting: unit_step_asks(u).1,
                    ..self
                },
                unit_step_asks(u).0,
            )
        } else if self.main is Some && !self.imports_queued {
            let u = self.main->0;
            (
                ModuleLoaderView {
                    main: Some(
                        UnitView {
                            parser: YangParserView { imports: Seq::empty(), ..u.parser },
                            ..u
                        },
                    ),
                    work_list: self.work_list + u.parser.imports,
                    imports_queued: true,
                    ..self
                },
                StepView::Continue,
            )
        } else if self.work_list.len() > 0 {
            let import = self.work_list.first();
            let rest = self.work_list.drop_first();
            if self.imported_modules.contains_key(import.module) || self.processed_modules.contains(
                import.module,
            ) {
                (
                    ModuleLoaderView {
                        prefix_to_module: self.prefix_to_module.insert(
                            import.prefix,
                            import.module,
                        ),
                        work_list: rest,
                        ..self
                    },
                    StepView::Continue,
                )
            } else {
                (
                    ModuleLoaderView {
                        processed_modules: self.processed_modules.insert(import.module),
                        work_list: rest,
                        waiting: WaitingView::Module(import),
                        ..self
                    },
                    StepView::ReadModule(file_name(import.module)),
                )
            }
        } else {
            (self, StepView::Finished)
        }
    }

    /// The state after the tree `tree` of the file at `path` is supplied, or
    /// the failure that it is.
    ///
    /// Where a submodule was asked for, the walker of the module that is
    /// being put together reads the tree; a module in it is a failure. Where
    /// a module was asked for, a walker of its own reads the tree; a
    /// submodule in it is a failure.
    pub open spec fn supply(self, path: Seq<char>, tree: ParseTreeView) -> Result<
        ModuleLoaderView,
        ParserErrorView,
    >
        recommends
            self.ready(),
            !(self.waiting is Nothing),
    {
        match self.waiting {
            WaitingView::Nothing => Ok(self),
            WaitingView::Submodule => {
                if self.imported is Some {
                    let u = self.imported->0;
                    match walk_file(tree, u.parser) {
                        (YangFileView::Submodule(s), parser) => Ok(
                            ModuleLoaderView {
                                imported: Some(unit_with_submodule(u, s, parser)),
                                waiting: WaitingView::Nothing,
                                ..self
                            },
                        ),
                        (YangFileView::Module(_), _) => Err(ParserErrorView::InvalidInclude(path)),
                    }
                } else if self.main is Some {
                    let u = self.main->0;
                    match walk_file(tree, u.parser) {
                        (YangFileView::Submodule(s), parser) => Ok(
                            ModuleLoaderView {
                                main: Some(unit_with_submodule(u, s, parser)),
                                waiting: WaitingView::Nothing,
                                ..self
                            },
                        ),
                        (YangFileView::Module(_), _) => Err(ParserErrorView::InvalidInclude(path)),
                    }
                } else {
                    Ok(ModuleLoaderView { waiting: WaitingView::Nothing, ..self })
                }
            },
            WaitingView::Module(import) => match walk_file(tree, YangParserView::initial()) {
                (YangFileView::Module(m), parser) => Ok(
                    ModuleLoaderView {
                        imported: Some(fresh_unit(m, parser)),
                        importing: Some(import),
                        waiting: WaitingView::Nothing,
                        ..self
                    },
                ),
                (YangFileView::Submodule(_), _) => Err(ParserErrorView::InvalidImport(path)),
            },
        }
    }

    /// The tables that the references of the main module are resolved against.
    pub open spec fn resolver(self) -> ReferenceResolverView
        recommends
            self.main is Some,
    {
        ReferenceResolverView {
            reference_nodes: self.main->0.parser.reference_nodes,
            imported_modules: self.imported_modules,
            prefix_to_module: self.prefix_to_module,
        }
    }

    /// The module that the load gives: the main module as merged, with its
    /// references resolved against the tables that the load has gathered.
    pub open spec fn result(self) -> ModuleView
        recommends
            self.main is Some,
    {
        resolve_module(self.resolver(), self.main->0.module)
    }
}

/// The name of the file that holds the module or submodule `name`.
pub fn file_name_of(name: &str) -> (res: String)
    ensures
        res@ == file_name(name@),
{
    let mut res = name.to_owned();
    res.append(".yang");
    res
}

/// Adds to `tasks` the tasks that read the submodules named by `includes`,
/// such that the first named is the first read.
pub fn push_load_tasks(tasks: &mut Vec<Task>, includes: Vec<Include>)
    ensures
        final(tasks).deep_view() == old(tasks).deep_view() + load_tasks(includes.deep_view()),
{
    let ghost start = tasks.deep_view();
    let ghost all = includes.deep_view();
    let mut includes = includes;
    assert(tasks.deep_view() =~= start + load_tasks(all).take(0));
    while includes.len() > 0
        invariant
            includes.len() <= all.len(),
            includes.deep_view() == all.take(includes.len() as int),
            tasks.deep_view() == start + load_tasks(all).take(all.len() - includes.len()),
        decreases includes.len(),
    {
        let ghost before = tasks.deep_view();
        let ghost n = includes.len() as int;
        let ghost prior = includes.deep_view();
        match includes.pop() {
            Some(inclusion) => {
                assert(inclusion@ == prior[n - 1]);
                assert(prior[n - 1] == all[n - 1]);
                tasks.push(Task::Load(inclusion));
                proof {
                    assert(tasks.deep_view() =~= before.push(TaskView::Load(all[n - 1])));
                    assert(includes.deep_view() =~= all.take(n - 1));
                    assert(load_tasks(all).take(all.len() - n + 1) =~= load_tasks(all).take(
                        all.len() - n,
                    ).push(TaskView::Load(all[n - 1])));
                }
            },
            None => {},
        }
    }
    assert(load_tasks(all).take(all.len() as int) =~= load_tasks(all));
}

impl Unit {
    /// A unit for the module `module`, just walked by `parser`.
    pub fn new(module: Module, parser: YangParser) -> (res: Self)
        ensures
            res@ == fresh_unit(module@, parser@),
    {
        let ghost walked = parser@;
        let mut parser = parser;
        let includes = parser.take_includes();
        let mut tasks: Vec<Task> = Vec::new();
        assert(tasks.deep_view() =~= Seq::empty());
        push_load_tasks(&mut tasks, includes);
        let visited = StringHashSet::new();
        let res = Unit { module, parser, tasks, visited };
        proof {
            assert(res@.tasks =~= load_tasks(walked.includes));
        }
        res
    }

    /// Does the next task; see [`unit_step`]. Gives the name of the submodule
    /// to ask for, where there is one.
    pub fn step(&mut self) -> (res: Option<String>)
        requires
            old(self)@.tasks.len() > 0,
        ensures
            final(self)@ == unit_step(old(self)@).0,
            res.deep_view() == unit_step(old(self)@).1,
    {
        let ghost before = self.tasks.deep_view();
        let task = self.tasks.pop();
        assert(self.tasks.deep_view() =~= before.drop_last());
        match task {
            Some(Task::Merge(submodule)) => {
                assert(before.last() == TaskView::Merge(submodule@));
                ModuleLoader::merge_submodule_into_module(&submodule, &mut self.module);
                None
            },
            Some(Task::Load(inclusion)) => {
                assert(before.last() == TaskView::Load(inclusion@));
                if self.visited.contains(inclusion.module.as_str()) {
                    None
                } else {
                    self.visited.insert(inclusion.module.clone());
                    Some(inclusion.module)
                }
            },
            None => None,
        }
    }

    /// Takes in the submodule `submodule`, just walked by the walker of the
    /// unit; see [`unit_with_submodule`].
    pub fn add_submodule(&mut self, submodule: Submodule)
        ensures
            final(self)@ == unit_with_submodule(old(self)@, submodule@, old(self)@.parser),
    {
        let includes = self.parser.take_includes();
        let ghost before = self.tasks.deep_view();
        self.tasks.push(Task::Merge(submodule));
        assert(self.tasks.deep_view() =~= before.push(TaskView::Merge(submodule@)));
        push_load_tasks(&mut self.tasks, includes);
    }
}

impl ModuleLoader {
    /// A load that has not begun.
    pub fn new() -> (res: Self)
        ensures
            res@ == ModuleLoaderView::initial(),
            res@.tables_are_finite(),
    {
        proof {
            lemma_imported_ids_empty();
        }
        let res = ModuleLoader {
            imported_modules: StringHashMap::new(),
            prefix_to_module: StringHashMap::new(),
            main: None,
            imported: None,
            importing: None,
            imports_queued: false,
            work_list: Vec::new(),
            processed_modules: StringHashSet::new(),
            waiting: Waiting::Nothing,
        };
        proof {
            assert(res@.imported_modules =~= Map::empty());
            assert(res@.prefix_to_module =~= Map::empty());
            assert(res@.work_list =~= Seq::empty());
        }
        res
    }

    /// Merges the submodule into the module: its body after the body of the
    /// module, and those of its revisions whose date the module does not have
    /// yet after the revisions of the module.
    pub fn merge_submodule_into_module(submodule: &Submodule, module: &mut Module)
        ensures
            final(module)@ == merged_module(old(module)@, submodule@),
    {
        let ghost start = module@;
        let mut i: usize = 0;
        while i < submodule.body.len()
            invariant
                i <= submodule.body.len(),
                module@ == (ModuleView {
                    body: start.body + submodule@.body.take(i as int),
                    ..start
                }),
            decreases submodule.body.len() - i,
        {
            let ghost before = module.body.deep_view();
            let node = submodule.body[i].clone();
            module.body.push(node);
            proof {
                assert(module.body.deep_view() =~= before.push(submodule@.body[i as int]));
                let merged = start.body + submodule@.body.take(i as int);
                assert(start.body + submodule@.body.take(i + 1) =~= merged.push(
                    submodule@.body[i as int],
                ));
            }
            i += 1;
        }
        assert(submodule@.body.take(submodule.body.len() as int) =~= submodule@.body);
        let ghost more = submodule@.revisions;
        let mut j: usize = 0;
        assert(more.take(0) =~= Seq::empty());
        while j < submodule.revisions.len()
            invariant
                j <= submodule.revisions.len(),
                more == submodule@.revisions,
                module@ == (ModuleView {
                    body: start.body + submodule@.body,
                    revisions: merge_revisions(start.revisions, more.take(j as int)),
                    ..start
                }),
            decreases submodule.revisions.len() - j,
        {
            proof {
                assert(more.take(j + 1).drop_last() =~= more.take(j as int));
                assert(more.take(j + 1).last() == more[j as int]);
            }
            let revision = &submodule.revisions[j];
            if !contains_date(&module.revisions, revision.date.as_str()) {
                let ghost before = module.revisions.deep_view();
                let copy = revision.clone();
                module.revisions.push(copy);
                assert(module.revisions.deep_view() =~= before.push(more[j as int]));
            }
            j += 1;
        }
        assert(more.take(submodule.revisions.len() as int) =~= more);
    }

    /// Takes in the tree of the file that the load starts from. The file is
    /// to hold a module: a submodule is a failure, and leaves the load as it
    /// was.
    pub fn load_entry(&mut self, tree: &ParseTree) -> (res: Result<(), ParserError>)
        requires
            conforms(tree@),
            tree@.rule == Rule::Module || tree@.rule
                == Rule::Submodule,
        ensures
            res is Ok && old(self)@.tables_are_finite() && (old(self)@.imported is Some ==> old(
                self,
            )@.importing is Some) ==> final(self)@.ready(),
            match walk_file(tree@, YangParserView::initial()) {
                (YangFileView::Module(m), parser) => res is Ok
                    && final(self)@ == old(self)@.started(m, parser),
                (YangFileView::Submodule(_), _) => res == Err::<(), ParserError>(
                    ParserError::InvalidParserEntrypoint,
                ) && final(self)@ == old(self)@,
            },
    {
        let mut parser = YangParser::new();
        proof {
            lemma_walk_file_finite(tree@, parser@);
        }
        match parser.parse(tree) {
            YangFile::Module(module) => {
                self.processed_modules.insert(module.name.clone());
                self.main = Some(Unit::new(module, parser));
                Ok(())
            },
            YangFile::Submodule(_) => Err(ParserError::InvalidParserEntrypoint),
        }
    }

    /// Does one step of the load and says what the driver is to do next;
    /// see [`ModuleLoaderView::step`].
    pub fn step(&mut self) -> (res: Step)
        requires
            old(self)@.ready(),
        ensures
            (final(self)@, res@) == old(self)@.step(),
            final(self)@.ready(),
            res is ReadSubmodule || res is ReadModule ==> !(final(self)@.waiting is Nothing),
    {
        let ghost before = self@;
        proof {
            lemma_step_keeps_ready(before);
        }
        if self.imported.is_some() {
            let mut unit = self.imported.take().unwrap();
            if unit.tasks.len() > 0 {
                let asked = unit.step();
                self.imported = Some(unit);
                self.ask(asked)
            } else {
                let import = self.importing.take().unwrap();
                let Unit { module: _, parser, tasks: _, visited: _ } = unit;
                let YangParser {
                    imports,
                    includes: _,
                    reference_nodes,
                    current_path: _,
                    current_belongs_to_prefix: _,
                } = parser;
                let mut imports = imports;
                let ghost added = imports.deep_view();
                self.prefix_to_module.insert(import.prefix, import.module.clone());
                self.imported_modules.insert(import.module, reference_nodes);
                self.work_list.append(&mut imports);
                proof {
                    assert(self@.prefix_to_module =~= before.prefix_to_module.insert(
                        import@.prefix,
                        import@.module,
                    ));
                    assert(self@.imported_modules =~= before.imported_modules.insert(
                        import@.module,
                        reference_nodes@,
                    ));
                    assert(self@.work_list =~= before.work_list + added);
                }
                Step::Continue
            }
        } else {
            let mut unit = self.main.take().unwrap();
            if unit.tasks.len() > 0 {
                let asked = unit.step();
                self.main = Some(unit);
                self.ask(asked)
            } else if !self.imports_queued {
                let ghost added = unit.parser.imports.deep_view();
                self.work_list.append(&mut unit.parser.imports);
                proof {
                    assert(self@.work_list =~= before.work_list + added);
                    assert(unit@.parser.imports =~= Seq::empty());
                }
                self.imports_queued = true;
                self.main = Some(unit);
                Step::Continue
            } else {
                self.main = Some(unit);
                if self.work_list.len() > 0 {
                    let import = self.work_list.remove(0);
                    proof {
                        assert(import@ == before.work_list.first());
                        assert(self@.work_list =~= before.work_list.drop_first());
                    }
                    if self.imported_modules.contains_key(import.module.as_str())
                        || self.processed_modules.contains(import.module.as_str()) {
                        self.prefix_to_module.insert(import.prefix, import.module);
                        proof {
                            assert(self@.prefix_to_module =~= before.prefix_to_module.insert(
                                import@.prefix,
                                import@.module,
                            ));
                        }
                        Step::Continue
                    } else {
                        self.processed_modules.insert(import.module.clone());
                        let file = file_name_of(import.module.as_str());
                        self.waiting = Waiting::Module(import);
                        Step::ReadModule(file)
                    }
                } else {
                    Step::Finished
                }
            }
        }
    }

    /// Notes what a step of a unit asks for, and says it to the driver.
    fn ask(&mut self, asked: Option<String>) -> (res: Step)
        ensures
            final(self)@ == (ModuleLoaderView {
                waiting: match asked {
                    Some(_) => WaitingView::Submodule,
                    None => WaitingView::Nothing,
                },
                ..old(self)@
            }),
            res@ == match asked {
                Some(name) => StepView::ReadSubmodule(file_name(name@)),
                None => StepView::Continue,
            },
    {
        match asked {
            Some(name) => {
                self.waiting = Waiting::Submodule;
                Step::ReadSubmodule(file_name_of(name.as_str()))
            },
            None => {
                self.waiting = Waiting::Nothing;
                Step::Continue
            },
        }
    }

    /// Takes in the tree of the file that the last step asked for; `path`
    /// is where the driver found the file. A file of the wrong kind is a
    /// failure, and the load is over.
    pub fn supply(&mut self, path: String, tree: &ParseTree) -> (res: Result<(), ParserError>)
        requires
            conforms(tree@),
            tree@.rule == Rule::Module || tree@.rule
                == Rule::Submodule,
            old(self)@.ready(),
            !(old(self)@.waiting is Nothing),
        ensures
            res is Ok ==> final(self)@.ready() && final(self)@.waiting is Nothing,
            match res {
                Ok(_) => old(self)@.supply(path@, tree@) == Ok::<ModuleLoaderView, ParserErrorView>(
                    final(self)@,
                ),
                Err(e) => old(self)@.supply(path@, tree@) == Err::<
                    ModuleLoaderView,
                    ParserErrorView,
                >(e@),
            },
    {
        proof {
            lemma_supply_keeps_ready(self@, path@, tree@);
        }
        let mut waiting = Waiting::Nothing;
        core::mem::swap(&mut waiting, &mut self.waiting);
        match waiting {
            Waiting::Nothing => Ok(()),
            Waiting::Submodule => {
                if self.imported.is_some() {
                    let mut unit = self.imported.take().unwrap();
                    match unit.parser.parse(tree) {
                        YangFile::Submodule(submodule) => {
                            unit.add_submodule(submodule);
                            self.imported = Some(unit);
                            Ok(())
                        },
                        YangFile::Module(_) => Err(ParserError::InvalidInclude(path)),
                    }
                } else if self.main.is_some() {
                    let mut unit = self.main.take().unwrap();
                    match unit.parser.parse(tree) {
                        YangFile::Submodule(submodule) => {
                            unit.add_submodule(submodule);
                            self.main = Some(unit);
                            Ok(())
                        },
                        YangFile::Module(_) => Err(ParserError::InvalidInclude(path)),
                    }
                } else {
                    Ok(())
                }
            },
            Waiting::Module(import) => {
                let mut parser = YangParser::new();
                match parser.parse(tree) {
                    YangFile::Module(module) => {
                        self.imported = Some(Unit::new(module, parser));
                        self.importing = Some(import);
                        Ok(())
                    },
                    YangFile::Submodule(_) => Err(ParserError::InvalidImport(path)),
                }
            },
        }
    }

    /// Ends the load: resolves the references of the main module against the
    /// tables that the load has gathered, and gives the module as a file.
    pub fn finish(self) -> (res: YangFile)
        requires
            self@.ready(),
        ensures
            res@ == YangFileView::Module(self@.result()),
    {
        YangFile::Module(self.finish_module())
    }

    /// Ends the load: resolves the references of the main module against the
    /// tables that the load has gathered, and gives the module.
    pub fn finish_module(self) -> (res: Module)
        requires
            self@.ready(),
        ensures
            res@ == self@.result(),
    {
        proof {
            lemma_resolver_is_finite(self@.resolver());
        }
        let ModuleLoader {
            imported_modules,
            prefix_to_module,
            main,
            imported: _,
            importing: _,
            imports_queued: _,
            work_list: _,
            processed_modules: _,
            waiting: _,
        } = self;
        let Unit { module, parser, tasks: _, visited: _ } = main.unwrap();
        let YangParser {
            imports: _,
            includes: _,
            reference_nodes,
            current_path: _,
            current_belongs_to_prefix: _,
        } = parser;
        let resolver = ReferenceResolver::new(reference_nodes, imported_modules, prefix_to_module);
        let mut module = module;
        resolver.resolve_references(&mut module);
        module
    }
}

/// How much a load has left to do on its own account: whether an imported
/// module waits to be filed or imports wait to be queued, how many tasks are
/// left, and how long the work list is.
pub open spec fn pending_work(v: ModuleLoaderView) -> (nat, nat, nat) {
    (
        (if v.imported is Some {
            1nat
        } else {
            0nat
        }) + (if v.imports_queued {
            0nat
        } else {
            1nat
        }),
        (match v.imported {
            Some(u) => u.tasks.len(),
            None => 0nat,
        }) + (match v.main {
            Some(u) => u.tasks.len(),
            None => 0nat,
        }),
        v.work_list.len(),
    )
}

/// A step that asks the driver to ask again has done some of the work that
/// was pending: between two files to read, and before the load is finished,
/// only so many steps fit.
pub proof fn lemma_continue_makes_progress(v: ModuleLoaderView)
    requires
        v.main is Some,
        v.step().1 is Continue,
    ensures
        ({
            let before = pending_work(v);
            let after = pending_work(v.step().0);
            ||| after.0 < before.0
            ||| after.0 == before.0 && after.1 < before.1
            ||| after.0 == before.0 && after.1 == before.1 && after.2 < before.2
        }),
{
}

/// No module is read twice. A step asks for the file of a module only
/// where that module is neither imported nor noted as read, and notes it as
/// read; what is noted as read stays so through every step and every tree
/// supplied.
pub proof fn lemma_modules_are_read_once(v: ModuleLoaderView, path: Seq<char>, tree: ParseTreeView)
    requires
        v.ready(),
    ensures
        v.step().1 matches StepView::ReadModule(file) ==> exists|module: Seq<char>|
            {
                &&& file == file_name(module)
                &&& !v.processed_modules.contains(module)
                &&& !v.imported_modules.contains_key(module)
                &&& #[trigger] v.step().0.processed_modules.contains(module)
            },
        v.processed_modules.subset_of(v.step().0.processed_modules),
        v.supply(path, tree) matches Ok(after) ==> after.processed_modules == v.processed_modules,
{
    let after = v.step().0;
    match v.step().1 {
        StepView::ReadModule(file) => {
            let module = v.work_list.first().module;
            assert(after.processed_modules == v.processed_modules.insert(module));
            assert(after.processed_modules.contains(module));
        },
        _ => {},
    }
}

/// No submodule is merged twice into one module. A step of a unit asks for a
/// submodule only where the unit has not read it, and notes it as read.
pub proof fn lemma_submodules_are_read_once(u: UnitView)
    requires
        u.tasks.len() > 0,
    ensures
        unit_step(u).1 matches Some(name) ==> !u.visited.contains(name) && unit_step(
            u,
        ).0.visited.contains(name),
        u.visited.subset_of(unit_step(u).0.visited),
{
    match unit_step(u).1 {
        Some(name) => {
            let after = unit_step(u).0.visited;
            assert(after == u.visited.insert(name));
        },
        None => {},
    }
}

/// A step leaves the loader ready for the next.
pub proof fn lemma_step_keeps_ready(v: ModuleLoaderView)
    requires
        v.ready(),
    ensures
        v.step().0.ready(),
{
    if v.imported is Some && v.imported->0.tasks.len() == 0 {
        let import = v.importing->0;
        lemma_imported_ids_insert(
            v.imported_modules,
            import.module,
            v.imported->0.parser.reference_nodes,
        );
    }
}

/// A tree supplied leaves the loader ready for the next step.
pub proof fn lemma_supply_keeps_ready(v: ModuleLoaderView, path: Seq<char>, tree: ParseTreeView)
    requires
        v.ready(),
    ensures
        v.supply(path, tree) matches Ok(next) ==> next.ready(),
{
    lemma_walk_file_finite(tree, YangParserView::initial());
    if v.imported is Some {
        lemma_walk_file_finite(tree, v.imported->0.parser);
    }
    lemma_walk_file_finite(tree, v.main->0.parser);
}

} // verus!
