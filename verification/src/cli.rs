//! The command line: a tree of subcommands that mirrors the namespaces and
//! their tasks, built and parsed with clap.

use vstd::prelude::*;
use crate::action::{task_about, Task, TaskView};
use crate::app::{dispatched, namespace_keys, App, AppView};
use crate::namespace::{index_of, lemma_index_of, task_keys, Namespace, NamespaceView};
use crate::run::{Run, RunView};
use crate::text::{same_text, strings_view};

verus! {

/// clap's command builder.
#[verifier::external_type_specification]
#[verifier::external_body]
pub struct ExCommand(clap::Command);

/// clap's record of what a command line matched.
#[verifier::external_type_specification]
#[verifier::external_body]
pub struct ExArgMatches(clap::ArgMatches);

/// What a command was built with: its name, its description, its version,
/// whether it asks for a subcommand, and its subcommands in the order in
/// which they were added.
pub ghost struct CommandShape {
    pub name: Seq<char>,
    pub about: Option<Seq<char>>,
    pub version: Option<Seq<char>>,
    pub subcommand_required: bool,
    pub subcommands: Seq<CommandShape>,
}

/// What the given clap command was built with. The commands of this crate
/// are built by the functions of this module alone, so their shape is all
/// there is to them.
pub uninterp spec fn shape(c: clap::Command) -> CommandShape;

/// The names of the subcommands that were matched, from the outermost
/// inwards.
pub uninterp spec fn matched_path(m: clap::ArgMatches) -> Seq<Seq<char>>;

/// What clap makes of the arguments, the program's own name first, when it
/// parses them with a command of the given shape: the names of the
/// subcommands that it matched, or `None` where it returns an error.
pub uninterp spec fn parsed(c: CommandShape, args: Seq<Seq<char>>) -> Option<Seq<Seq<char>>>;

/// The names of a list of commands, in order.
pub open spec fn names_of(commands: Seq<CommandShape>) -> Seq<Seq<char>> {
    Seq::new(commands.len(), |i: int| commands[i].name)
}

/// Names that can stand side by side as subcommands: no two are equal, and
/// none is `help`, which the command line keeps for itself.
pub open spec fn usable_names(names: Seq<Seq<char>>) -> bool {
    &&& forall|i: int, j: int| 0 <= i < j < names.len() ==> names[i] != names[j]
    &&& forall|i: int| 0 <= i < names.len() ==> names[i] != "help"@
}

/// A command that clap can parse with: at every level the subcommands have
/// usable names.
pub open spec fn parsable(s: CommandShape) -> bool
    decreases s,
{
    &&& usable_names(names_of(s.subcommands))
    &&& forall|i: int| 0 <= i < s.subcommands.len() ==> parsable(#[trigger] s.subcommands[i])
}

/// The words name subcommands level by level, each the first of its name,
/// and the command that the last one names asks for no further subcommand.
pub open spec fn names_path(s: CommandShape, words: Seq<Seq<char>>) -> bool
    decreases words.len(),
{
    if words.len() == 0 {
        !s.subcommand_required
    } else {
        match index_of(names_of(s.subcommands), words[0]) {
            Some(i) => names_path(s.subcommands[i], words.skip(1)),
            None => false,
        }
    }
}

/// A word that is neither `help` nor, by its leading `-`, a flag.
pub open spec fn plain_word(w: Seq<char>) -> bool {
    w != "help"@ && (w.len() == 0 || w[0] != '-')
}

/// The words leave the tree: they name subcommands level by level and then
/// either end where a subcommand is still asked for, or go on with a plain
/// word that names no subcommand there.
pub open spec fn strays(s: CommandShape, words: Seq<Seq<char>>) -> bool
    decreases words.len(),
{
    if words.len() == 0 {
        s.subcommand_required
    } else {
        match index_of(names_of(s.subcommands), words[0]) {
            Some(i) => strays(s.subcommands[i], words.skip(1)),
            None => plain_word(words[0]),
        }
    }
}

/// The run that a matched path names: the namespace by its first word, the
/// task by its second.
pub open spec fn run_of_path(a: AppView, path: Seq<Seq<char>>) -> Option<RunView> {
    if path.len() >= 2 {
        dispatched(a, path[0], path[1])
    } else {
        None
    }
}

/// The subcommand of a task: a leaf named by the task's key, with the
/// task's help text.
pub open spec fn task_shape(t: TaskView) -> CommandShape {
    CommandShape {
        name: t.key,
        about: Some(task_about(t)),
        version: None,
        subcommand_required: false,
        subcommands: Seq::empty(),
    }
}

/// The subcommands of a list of tasks: one per task, in order.
pub open spec fn task_shapes(tasks: Seq<TaskView>) -> Seq<CommandShape> {
    Seq::new(tasks.len(), |i: int| task_shape(tasks[i]))
}

/// The subcommand of a namespace: named by its key, described by its
/// description, asking for one of its tasks.
pub open spec fn namespace_shape(n: NamespaceView) -> CommandShape {
    CommandShape {
        name: n.key,
        about: Some(n.description),
        version: None,
        subcommand_required: true,
        subcommands: task_shapes(n.tasks),
    }
}

/// The subcommands of a list of namespaces: one per namespace, in order.
pub open spec fn namespace_shapes(namespaces: Seq<NamespaceView>) -> Seq<CommandShape> {
    Seq::new(namespaces.len(), |i: int| namespace_shape(namespaces[i]))
}

/// The whole command line of an application called `name`, described by
/// `about` and of the given version: it asks for one of the namespaces.
pub open spec fn app_shape(
    a: AppView,
    name: Seq<char>,
    about: Seq<char>,
    version: Seq<char>,
) -> CommandShape {
    CommandShape {
        name,
        about: Some(about),
        version: Some(version),
        subcommand_required: true,
        subcommands: namespace_shapes(a.namespaces),
    }
}

/// The keys of a namespace's tasks can stand side by side.
pub open spec fn namespace_well_formed(n: NamespaceView) -> bool {
    usable_names(task_keys(n.tasks))
}

/// The keys of the namespaces can stand side by side, and so can the keys
/// of the tasks of each.
pub open spec fn app_well_formed(a: AppView) -> bool {
    &&& usable_names(namespace_keys(a.namespaces))
    &&& forall|i: int|
        0 <= i < a.namespaces.len() ==> namespace_well_formed(#[trigger] a.namespaces[i])
}

/// The command line mirrors the tree: one subcommand per namespace and,
/// under it, one per task, in the declared order, each named by the key
/// letter for letter; tasks are leaves, whatever they nest inside.
pub proof fn lemma_cli_mirrors_tree(
    a: AppView,
    name: Seq<char>,
    about: Seq<char>,
    version: Seq<char>,
)
    ensures
        app_shape(a, name, about, version).name == name,
        app_shape(a, name, about, version).subcommand_required,
        app_shape(a, name, about, version).subcommands.len() == a.namespaces.len(),
        forall|i: int|
            0 <= i < a.namespaces.len() ==> {
                let sub = #[trigger] app_shape(a, name, about, version).subcommands[i];
                &&& sub.name == a.namespaces[i].key
                &&& sub.about == Some(a.namespaces[i].description)
                &&& sub.subcommand_required
                &&& sub.subcommands.len() == a.namespaces[i].tasks.len()
            },
        forall|i: int, j: int|
            0 <= i < a.namespaces.len() && 0 <= j < a.namespaces[i].tasks.len() ==> {
                let leaf = #[trigger] app_shape(a, name, about, version).subcommands[i].subcommands[j];
                &&& leaf.name == a.namespaces[i].tasks[j].key
                &&& leaf.about == Some(task_about(a.namespaces[i].tasks[j]))
                &&& leaf.subcommands.len() == 0
            },
{
}

/// A well-formed application gives a command line that clap can parse with.
pub proof fn lemma_well_formed_is_parsable(
    a: AppView,
    name: Seq<char>,
    about: Seq<char>,
    version: Seq<char>,
)
    requires
        app_well_formed(a),
    ensures
        parsable(app_shape(a, name, about, version)),
{
    let s = app_shape(a, name, about, version);
    assert(names_of(s.subcommands) =~= namespace_keys(a.namespaces));
    assert forall|i: int| 0 <= i < s.subcommands.len() implies parsable(
        #[trigger] s.subcommands[i],
    ) by {
        let n = s.subcommands[i];
        assert(namespace_well_formed(a.namespaces[i]));
        assert(names_of(n.subcommands) =~= task_keys(a.namespaces[i].tasks));
        assert forall|j: int| 0 <= j < n.subcommands.len() implies parsable(
            #[trigger] n.subcommands[j],
        ) by {
            assert(names_of(n.subcommands[j].subcommands) =~= Seq::<Seq<char>>::empty());
        }
    }
}

/// The words that name subcommands down the command line of an application
/// are exactly the paths that lead to a run: a namespace's key and then the
/// key of one of its tasks.
pub proof fn lemma_paths_of_the_tree(
    a: AppView,
    name: Seq<char>,
    about: Seq<char>,
    version: Seq<char>,
    path: Seq<Seq<char>>,
)
    ensures
        names_path(app_shape(a, name, about, version), path) <==> path.len() == 2 && dispatched(
            a,
            path[0],
            path[1],
        ) is Some,
        names_path(app_shape(a, name, about, version), path) ==> run_of_path(a, path)
            == dispatched(a, path[0], path[1]),
{
    reveal_with_fuel(names_path, 4);
    let s = app_shape(a, name, about, version);
    assert(names_of(s.subcommands) =~= namespace_keys(a.namespaces));
    if path.len() > 0 {
        lemma_index_of(namespace_keys(a.namespaces), path[0]);
        match index_of(namespace_keys(a.namespaces), path[0]) {
            Some(n) => {
                let under = s.subcommands[n];
                let rest = path.skip(1);
                assert(names_of(under.subcommands) =~= task_keys(a.namespaces[n].tasks));
                if rest.len() > 0 {
                    assert(rest[0] == path[1]);
                    lemma_index_of(task_keys(a.namespaces[n].tasks), rest[0]);
                    match index_of(task_keys(a.namespaces[n].tasks), rest[0]) {
                        Some(t) => {
                            let leaf = under.subcommands[t];
                            let last = rest.skip(1);
                            assert(last.len() == path.len() - 2);
                            assert(names_of(leaf.subcommands) =~= Seq::<Seq<char>>::empty());
                            if last.len() > 0 {
                                assert(index_of(names_of(leaf.subcommands), last[0]) is None);
                            }
                        },
                        None => {},
                    }
                }
            },
            None => {},
        }
    }
}

/// A plain word that is the key of no namespace strays from the command
/// line, whatever follows it; so does a plain word behind a namespace's key
/// that is the key of none of its tasks; and so does a command line that
/// ends before a task is named.
pub proof fn lemma_unknown_keys_stray(
    a: AppView,
    name: Seq<char>,
    about: Seq<char>,
    version: Seq<char>,
    words: Seq<Seq<char>>,
)
    ensures
        words.len() < 2 && (words.len() == 1 ==> index_of(namespace_keys(a.namespaces), words[0])
            is Some) ==> strays(app_shape(a, name, about, version), words),
        words.len() >= 1 && plain_word(words[0]) && index_of(
            namespace_keys(a.namespaces),
            words[0],
        ) is None ==> strays(app_shape(a, name, about, version), words),
        words.len() >= 2 && plain_word(words[1]) && dispatched(a, words[0], words[1]) is None
            && index_of(namespace_keys(a.namespaces), words[0]) is Some ==> strays(
            app_shape(a, name, about, version),
            words,
        ),
{
    reveal_with_fuel(strays, 4);
    let s = app_shape(a, name, about, version);
    assert(names_of(s.subcommands) =~= namespace_keys(a.namespaces));
    if words.len() > 0 {
        lemma_index_of(namespace_keys(a.namespaces), words[0]);
        match index_of(namespace_keys(a.namespaces), words[0]) {
            Some(n) => {
                let under = s.subcommands[n];
                let rest = words.skip(1);
                assert(names_of(under.subcommands) =~= task_keys(a.namespaces[n].tasks));
                if rest.len() > 0 {
                    assert(rest[0] == words[1]);
                }
            },
            None => {},
        }
    }
}

/// Calls `clap::Command::new`. Trusted: the new command has the given name,
/// no description, no version and no subcommands, and asks for none.
#[verifier::external_body]
fn new_command(name: &'static str) -> (c: clap::Command)
    ensures
        shape(c) == (CommandShape {
            name: name@,
            about: None,
            version: None,
            subcommand_required: false,
            subcommands: Seq::empty(),
        }),
{
    clap::Command::new(name)
}

/// Calls `clap::Command::about`. Trusted: the description becomes the given
/// text and nothing else changes.
#[verifier::external_body]
fn with_about(c: clap::Command, about: String) -> (r: clap::Command)
    ensures
        shape(r) == (CommandShape { about: Some(about@), ..shape(c) }),
{
    c.about(about)
}

/// Calls `clap::Command::version`. Trusted: the version becomes the given
/// text and nothing else changes.
#[verifier::external_body]
fn with_version(c: clap::Command, version: &'static str) -> (r: clap::Command)
    ensures
        shape(r) == (CommandShape { version: Some(version@), ..shape(c) }),
{
    c.version(version)
}

/// Calls `clap::Command::subcommand_required`. Trusted: the setting becomes
/// `yes` and nothing else changes.
#[verifier::external_body]
fn with_subcommand_required(c: clap::Command, yes: bool) -> (r: clap::Command)
    ensures
        shape(r) == (CommandShape { subcommand_required: yes, ..shape(c) }),
{
    c.subcommand_required(yes)
}

/// Calls `clap::Command::subcommand`. Trusted: `sub` is added behind the
/// subcommands that are there and nothing else changes.
#[verifier::external_body]
fn with_subcommand(c: clap::Command, sub: clap::Command) -> (r: clap::Command)
    ensures
        shape(r) == (CommandShape {
            subcommands: shape(c).subcommands.push(shape(sub)),
            ..shape(c)
        }),
{
    c.subcommand(sub)
}

/// A command line that clap turned down, or a request for help or for the
/// version: the text to show and the exit status to end with.
#[derive(Debug)]
pub struct UsageError {
    pub message: String,
    pub exit_code: i32,
}

/// Calls `clap::Command::try_get_matches_from`, and `to_string` and
/// `exit_code` on its error. Trusted, of a command that was built by the
/// functions of this module and has usable names at every level:
/// - the call returns, and whether it accepts the arguments, and which
///   subcommands it then matched, depends on the command's shape and the
///   arguments alone;
/// - what it matched names subcommands level by level, down to a command
///   that asks for no further subcommand: a word is looked up among the
///   subcommands' names, the first of that name is taken, `help` always
///   ends in an error, and a command that asks for a subcommand and got
///   none is an error;
/// - arguments that, behind the program's name, name subcommands level by
///   level in that way are accepted and matched as they stand: a word that
///   equals a subcommand's name is taken for that subcommand before
///   anything else is tried;
/// - arguments that stray from the tree are turned down with status 2;
/// - the exit status of any error is 2 for a rejected command line and 0
///   for a request for help or for the version.
#[verifier::external_body]
fn try_get_matches_from(c: clap::Command, args: Vec<String>) -> (r: Result<
    clap::ArgMatches,
    UsageError,
>)
    requires
        parsable(shape(c)),
    ensures
        match r {
            Ok(m) => parsed(shape(c), strings_view(args@)) == Some(matched_path(m)) && names_path(
                shape(c),
                matched_path(m),
            ),
            Err(e) => parsed(shape(c), strings_view(args@)) is None && (e.exit_code == 0
                || e.exit_code == 2),
        },
        args.len() > 0 && names_path(shape(c), strings_view(args@).skip(1)) ==> r is Ok
            && matched_path(r->Ok_0) == strings_view(args@).skip(1),
        args.len() > 0 && strays(shape(c), strings_view(args@).skip(1)) ==> r is Err
            && r->Err_0.exit_code == 2,
{
    match c.try_get_matches_from(args) {
        Ok(m) => Ok(m),
        Err(e) => Err(UsageError { message: e.to_string(), exit_code: e.exit_code() }),
    }
}

/// Calls `clap::ArgMatches::subcommand`. Trusted: it gives the name of the
/// subcommand that was matched and what was matched under it, or `None`
/// where no subcommand was matched.
#[verifier::external_body]
fn subcommand_of(m: &clap::ArgMatches) -> (r: Option<(&str, &clap::ArgMatches)>)
    ensures
        match r {
            Some((name, under)) => matched_path(*m) == seq![name@] + matched_path(*under),
            None => matched_path(*m).len() == 0,
        },
{
    m.subcommand()
}

/// Why an invocation did not begin a run.
#[derive(Debug)]
pub enum CliError {
    /// Two namespaces, or two tasks of one namespace, share a key, or one
    /// is called `help`: no command line can be built.
    AmbiguousKeys,
    /// The command line was turned down, or asked for help or for the
    /// version.
    Usage(UsageError),
}

/// Whether the keys can stand side by side as subcommands.
pub fn keys_usable(keys: &Vec<&'static str>) -> (r: bool)
    ensures
        r == usable_names(Seq::new(keys.len() as nat, |i: int| keys[i]@)),
{
    let ghost names = Seq::new(keys.len() as nat, |i: int| keys[i]@);
    let mut i: usize = 0;
    while i < keys.len()
        invariant
            i <= keys.len(),
            names == Seq::new(keys.len() as nat, |i: int| keys[i]@),
            forall|a: int, b: int| 0 <= a < b < names.len() && a < i ==> names[a] != names[b],
            forall|a: int| 0 <= a < i ==> names[a] != "help"@,
        decreases keys.len() - i,
    {
        if same_text(keys[i], "help") {
            assert(names[i as int] == "help"@);
            return false;
        }
        let mut j: usize = i + 1;
        while j < keys.len()
            invariant
                i < j <= keys.len(),
                names == Seq::new(keys.len() as nat, |i: int| keys[i]@),
                forall|b: int| i < b < j ==> names[i as int] != names[b],
            decreases keys.len() - j,
        {
            if same_text(keys[i], keys[j]) {
                assert(names[i as int] == names[j as int]);
                return false;
            }
            j += 1;
        }
        i += 1;
    }
    true
}

impl Task {
    /// The subcommand of the task.
    pub fn to_clap_subcommand(&self) -> (c: clap::Command)
        ensures
            shape(c) == task_shape(self@),
    {
        with_about(new_command(self.key), self.about())
    }
}

impl Namespace {
    /// The keys of the tasks, in order.
    pub fn task_keys(&self) -> (r: Vec<&'static str>)
        ensures
            Seq::new(r.len() as nat, |i: int| r[i]@) == task_keys(self@.tasks),
    {
        let mut keys: Vec<&'static str> = Vec::new();
        let mut i: usize = 0;
        while i < self.tasks.len()
            invariant
                i <= self.tasks.len(),
                keys.len() == i,
                forall|j: int| 0 <= j < i ==> keys[j]@ == self.tasks[j].key@,
            decreases self.tasks.len() - i,
        {
            keys.push(self.tasks[i].key);
            i += 1;
        }
        assert(Seq::new(keys.len() as nat, |i: int| keys[i]@) =~= task_keys(self@.tasks));
        keys
    }

    /// Whether the keys of the tasks can stand side by side as subcommands.
    pub fn is_well_formed(&self) -> (r: bool)
        ensures
            r == namespace_well_formed(self@),
    {
        let keys = self.task_keys();
        keys_usable(&keys)
    }

    /// The subcommand of the namespace, with one subcommand per task.
    pub fn to_clap_subcommand(&self) -> (c: clap::Command)
        ensures
            shape(c) == namespace_shape(self@),
    {
        let mut c = with_subcommand_required(new_command(self.key), true);
        let mut i: usize = 0;
        assert(task_shapes(self@.tasks.take(0)) =~= Seq::<CommandShape>::empty());
        while i < self.tasks.len()
            invariant
                i <= self.tasks.len(),
                shape(c) == (CommandShape {
                    name: self.key@,
                    about: None,
                    version: None,
                    subcommand_required: true,
                    subcommands: task_shapes(self@.tasks.take(i as int)),
                }),
            decreases self.tasks.len() - i,
        {
            let sub = self.tasks[i].to_clap_subcommand();
            assert(task_shapes(self@.tasks.take(i as int)).push(shape(sub)) =~= task_shapes(
                self@.tasks.take(i + 1),
            ));
            c = with_subcommand(c, sub);
            i += 1;
        }
        assert(self@.tasks.take(i as int) =~= self@.tasks);
        with_about(c, self.description.to_owned())
    }
}

impl App {
    /// The keys of the namespaces, in order.
    pub fn namespace_keys(&self) -> (r: Vec<&'static str>)
        ensures
            Seq::new(r.len() as nat, |i: int| r[i]@) == namespace_keys(self@.namespaces),
    {
        let mut keys: Vec<&'static str> = Vec::new();
        let mut i: usize = 0;
        while i < self.namespaces.len()
            invariant
                i <= self.namespaces.len(),
                keys.len() == i,
                forall|j: int| 0 <= j < i ==> keys[j]@ == self.namespaces[j].key@,
            decreases self.namespaces.len() - i,
        {
            keys.push(self.namespaces[i].key);
            i += 1;
        }
        assert(Seq::new(keys.len() as nat, |i: int| keys[i]@) =~= namespace_keys(
            self@.namespaces,
        ));
        keys
    }

    /// Whether a command line can be built: the keys of the namespaces can
    /// stand side by side, and so can the keys of the tasks of each.
    pub fn is_well_formed(&self) -> (r: bool)
        ensures
            r == app_well_formed(self@),
    {
        let keys = self.namespace_keys();
        if !keys_usable(&keys) {
            return false;
        }
        let mut i: usize = 0;
        while i < self.namespaces.len()
            invariant
                i <= self.namespaces.len(),
                forall|j: int| 0 <= j < i ==> namespace_well_formed(#[trigger] self@.namespaces[j]),
            decreases self.namespaces.len() - i,
        {
            assert(self@.namespaces[i as int] == self.namespaces[i as int]@);
            if !self.namespaces[i].is_well_formed() {
                return false;
            }
            i += 1;
        }
        true
    }

    /// The command line of the application: a command called `name`,
    /// described by `about` and of the given version, that asks for one of
    /// the namespaces.
    pub fn to_clap_command(
        &self,
        name: &'static str,
        about: &'static str,
        version: &'static str,
    ) -> (c: clap::Command)
        ensures
            shape(c) == app_shape(self@, name@, about@, version@),
    {
        let mut c = with_subcommand_required(new_command(name), true);
        let mut i: usize = 0;
        assert(namespace_shapes(self@.namespaces.take(0)) =~= Seq::<CommandShape>::empty());
        while i < self.namespaces.len()
            invariant
                i <= self.namespaces.len(),
                shape(c) == (CommandShape {
                    name: name@,
                    about: None,
                    version: None,
                    subcommand_required: true,
                    subcommands: namespace_shapes(self@.namespaces.take(i as int)),
                }),
            decreases self.namespaces.len() - i,
        {
            let sub = self.namespaces[i].to_clap_subcommand();
            assert(namespace_shapes(self@.namespaces.take(i as int)).push(shape(sub))
                =~= namespace_shapes(self@.namespaces.take(i + 1)));
            c = with_subcommand(c, sub);
            i += 1;
        }
        assert(self@.namespaces.take(i as int) =~= self@.namespaces);
        with_version(with_about(c, about.to_owned()), version)
    }

    /// Begins the run that the matched command line names: the namespace by
    /// the first subcommand, the task by the second. The matches are those
    /// of the application's own command line, which names a task.
    pub fn run(&self, matches: &clap::ArgMatches) -> (r: Run)
        requires
            run_of_path(self@, matched_path(*matches)) is Some,
        ensures
            Some(r@) == run_of_path(self@, matched_path(*matches)),
            r@.wf(),
    {
        match subcommand_of(matches) {
            Some((namespace_name, under)) => match subcommand_of(under) {
                Some((task_name, _)) => {
                    assert(matched_path(*matches)[0] == namespace_name@);
                    assert(matched_path(*matches)[1] == task_name@);
                    self.dispatch(namespace_name, task_name)
                },
                None => {
                    assert(matched_path(*matches).len() == 1);
                    vstd::pervasive::unreached()
                },
            },
            None => vstd::pervasive::unreached(),
        }
    }

    /// Parses the arguments, the program's own name first, against the
    /// command line of the application, and begins the run that they name.
    /// An application that is not well formed is turned down before
    /// anything is parsed. A namespace's key followed by the key of one of
    /// its tasks begins the run of that task; arguments that stray from the
    /// tree are turned down by the parser with status 2, before any lookup.
    pub fn invoke(
        &self,
        name: &'static str,
        about: &'static str,
        version: &'static str,
        args: Vec<String>,
    ) -> (r: Result<Run, CliError>)
        ensures
            r matches Err(CliError::AmbiguousKeys) <==> !app_well_formed(self@),
            app_well_formed(self@) ==> match parsed(
                app_shape(self@, name@, about@, version@),
                strings_view(args@),
            ) {
                Some(path) => r is Ok && Some(r->Ok_0@) == run_of_path(self@, path),
                None => (r matches Err(CliError::Usage(e)) && (e.exit_code == 0 || e.exit_code
                    == 2)),
            },
            app_well_formed(self@) && args.len() == 3 && dispatched(self@, args[1]@, args[2]@)
                is Some ==> r is Ok && Some(r->Ok_0@) == dispatched(self@, args[1]@, args[2]@),
            app_well_formed(self@) && args.len() > 0 && strays(
                app_shape(self@, name@, about@, version@),
                strings_view(args@).skip(1),
            ) ==> (r matches Err(CliError::Usage(e)) && e.exit_code == 2),
            r is Ok ==> r->Ok_0@.wf(),
    {
        if !self.is_well_formed() {
            return Err(CliError::AmbiguousKeys);
        }
        let c = self.to_clap_command(name, about, version);
        proof {
            lemma_well_formed_is_parsable(self@, name@, about@, version@);
            if args.len() == 3 {
                let words = strings_view(args@).skip(1);
                assert(words.len() == 2 && words[0] == args[1]@ && words[1] == args[2]@);
                lemma_paths_of_the_tree(self@, name@, about@, version@, words);
            }
        }
        match try_get_matches_from(c, args) {
            Ok(matches) => {
                proof {
                    lemma_paths_of_the_tree(
                        self@,
                        name@,
                        about@,
                        version@,
                        matched_path(matches),
                    );
                }
                Ok(self.run(&matches))
            },
            Err(e) => Err(CliError::Usage(e)),
        }
    }
}

} // verus!
