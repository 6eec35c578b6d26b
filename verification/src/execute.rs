//! The creation of a project: the plan that a language and a name give, and
//! the order in which its steps follow one another.

use vstd::prelude::*;
use vstd::string::*;
use crate::bash::{cargo_new, cargo_new_line, git_init, git_init_line, make_virtualenv,
    virtualenv_line, Command, CommandLine};
use crate::download::{all_written, download_files, failures, faults, fetch_of,
    lemma_failures_count, project_dir, root_of, unwritten, Fetch, FetchTask,
    FileOutcome};
use crate::lang::{lemma_templates_distinct, resolve, template_of, Manifest, Setup, Template};

verus! {

/// Everything that the creation of one project consists of.
pub struct Plan {
    /// The line that announces the project.
    pub banner: String,
    /// The project's directory.
    pub root_dir: String,
    /// Whether the plan itself creates `root_dir`, which then must not be
    /// there beforehand.
    pub guarded: bool,
    /// The files to fetch and write.
    pub fetches: Vec<FetchTask>,
    /// The language's own step, if it has one.
    pub setup: Option<Command>,
    /// The command that initialises the repository, if the plan has one.
    pub repo: Option<Command>,
}

/// A `Plan` as plain values.
pub struct PlanView {
    pub banner: Seq<char>,
    pub root_dir: Seq<char>,
    pub guarded: bool,
    pub fetches: Seq<Fetch>,
    pub setup: Option<CommandLine>,
    pub repo: Option<CommandLine>,
}

/// An optional command as plain text.
pub open spec fn line_of(command: Option<Command>) -> Option<CommandLine> {
    match command {
        Some(c) => Some(c@),
        None => None,
    }
}

impl View for Plan {
    type V = PlanView;

    open spec fn view(&self) -> PlanView {
        PlanView {
            banner: self.banner@,
            root_dir: self.root_dir@,
            guarded: self.guarded,
            fetches: Seq::new(self.fetches@.len(), |i: int| self.fetches@[i]@),
            setup: line_of(self.setup),
            repo: line_of(self.repo),
        }
    }
}

/// The line that announces a project.
pub open spec fn banner_of(label: Seq<char>, name: Seq<char>) -> Seq<char> {
    "Creating "@ + label + " project `"@ + name + "`"@
}

/// What is said of a language key that selects nothing.
pub open spec fn unsupported_of(key: Seq<char>) -> Seq<char> {
    "Language `"@ + key + "` not yet supported"@
}

/// The plan for a project `name` in the language `t`, made in the working
/// directory `cwd`.
///
/// A templated language has its directory guarded, each file of its
/// manifest fetched from the base address to its place under the project's
/// directory, then its own setup, then a repository. A Rust project is left
/// to the language's own tool, which creates the directory itself.
pub open spec fn plan_of(t: Template, cwd: Seq<char>, name: Seq<char>) -> PlanView {
    let root = root_of(cwd, name);
    PlanView {
        banner: banner_of(t.label_of(), name),
        root_dir: root,
        guarded: t != Template::Rust,
        fetches: Seq::new(t.paths().len(), |i: int| fetch_of(t.base(), cwd, name, t.paths()[i])),
        setup: match t {
            Template::Rust => Some(cargo_new_line(name)),
            _ => match t.setup_of() {
                Setup::Virtualenv => Some(virtualenv_line(root)),
                Setup::Nothing => None,
            },
        },
        repo: if t == Template::Rust {
            None
        } else {
            Some(git_init_line(root))
        },
    }
}

fn banner(label: &str, name: &str) -> (s: String)
    ensures
        s@ == banner_of(label@, name@),
{
    String::from_str("Creating ").concat(label).concat(" project `").concat(name).concat("`")
}

/// What to tell the user of a language key that selects nothing.
pub fn unsupported_message(key: &str) -> (s: String)
    ensures
        s@ == unsupported_of(key@),
{
    String::from_str("Language `").concat(key).concat("` not yet supported")
}

fn scaffold(t: Template, cwd: &str, name: &str) -> (plan: Plan)
    requires
        t != Template::Rust,
    ensures
        plan@ == plan_of(t, cwd@, name@),
{
    let manifest: Manifest = t.manifest();
    let fetches: Vec<FetchTask> = download_files(manifest.base_url.as_str(), &manifest.files, cwd, name);
    let root: String = project_dir(cwd, name);
    let setup: Option<Command> = match t.setup() {
        Setup::Virtualenv => Some(make_virtualenv(root.as_str())),
        Setup::Nothing => None,
    };
    let repo: Option<Command> = Some(git_init(root.as_str()));
    let label: String = t.label();
    let plan = Plan {
        banner: banner(label.as_str(), name),
        root_dir: root,
        guarded: true,
        fetches,
        setup,
        repo,
    };
    assert(plan@.fetches =~= plan_of(t, cwd@, name@).fetches);
    plan
}

/// The plan for a Python project.
pub fn python(cwd: &str, name: &str) -> (plan: Plan)
    ensures
        plan@ == plan_of(Template::Python, cwd@, name@),
{
    scaffold(Template::Python, cwd, name)
}

/// The plan for a Ruby project.
pub fn ruby(cwd: &str, name: &str) -> (plan: Plan)
    ensures
        plan@ == plan_of(Template::Ruby, cwd@, name@),
{
    scaffold(Template::Ruby, cwd, name)
}

/// The plan for a C++ project.
pub fn cpp(cwd: &str, name: &str) -> (plan: Plan)
    ensures
        plan@ == plan_of(Template::Cpp, cwd@, name@),
{
    scaffold(Template::Cpp, cwd, name)
}

/// The plan for a Rust project.
pub fn rust(cwd: &str, name: &str) -> (plan: Plan)
    ensures
        plan@ == plan_of(Template::Rust, cwd@, name@),
{
    let label: String = Template::Rust.label();
    let plan = Plan {
        banner: banner(label.as_str(), name),
        root_dir: project_dir(cwd, name),
        guarded: false,
        fetches: Vec::new(),
        setup: Some(cargo_new(name)),
        repo: None,
    };
    assert(plan@.fetches =~= plan_of(Template::Rust, cwd@, name@).fetches);
    plan
}

/// Plans the project `name` in the language that `lang` selects. A key that
/// selects no language gives no plan.
pub fn execute(cwd: &str, name: &str, lang: &str) -> (plan: Option<Plan>)
    ensures
        plan is Some <==> template_of(lang@) is Some,
        plan matches Some(p) ==> p@ == plan_of(template_of(lang@).unwrap(), cwd@, name@),
{
    match resolve(lang) {
        Some(Template::Python) => Some(python(cwd, name)),
        Some(Template::Ruby) => Some(ruby(cwd, name)),
        Some(Template::Rust) => Some(rust(cwd, name)),
        Some(Template::Cpp) => Some(cpp(cwd, name)),
        None => None,
    }
}

/// Where the creation of a project stands.
#[derive(Clone, Copy, Debug, PartialEq, Eq, Structural)]
pub enum Stage {
    /// Nothing has been done.
    Start,
    /// The directory is being looked for.
    Guarding,
    /// The files are being fetched and written.
    Fetching,
    /// The language's own step is running.
    SettingUp,
    /// The repository is being initialised.
    Initialising,
    /// Nothing is left to do.
    Finished,
}

/// What has just happened.
#[derive(Clone, Copy, Debug, PartialEq, Eq, Structural)]
pub enum Event {
    /// The creation begins.
    Begin,
    /// The directory was looked for, and created where it was absent.
    DirChecked { existed: bool },
    /// Every fetch has ended; `failed` of them did not write their file.
    Fetched { failed: usize },
    /// The command that was asked for has ended.
    Ran { exit_code: i32 },
}

/// What to do next.
#[derive(Clone, Copy, Debug, PartialEq, Eq, Structural)]
pub enum Action {
    /// Look for the plan's directory and create it if it is absent.
    CheckDir,
    /// Fetch and write all the plan's files at once and wait for all.
    Fetch,
    /// Run the plan's setup command.
    RunSetup,
    /// Run the plan's repository command.
    RunRepoInit,
    /// End with this exit status.
    Exit { status: u8 },
}

/// What went wrong at a step.
#[derive(Clone, Copy, Debug, PartialEq, Eq, Structural)]
pub enum Trouble {
    /// The directory was there already: nothing is fetched or written.
    AlreadyExists,
    /// Some file was not written: the tree is not usable.
    Incomplete,
    /// The setup command failed. The files stay as they are.
    PostProcessFailure,
    /// The repository command failed. The project stands without one.
    RepoInitFailure,
    /// The event does not answer what was asked for.
    OutOfTurn,
}

/// One step of the creation: the stage it leads to, what to do there, and
/// what went wrong on the way.
#[derive(Clone, Copy, Debug, PartialEq, Eq, Structural)]
pub struct Step {
    pub stage: Stage,
    pub action: Action,
    pub trouble: Option<Trouble>,
}

/// The step that follows the language's own step.
pub open spec fn after_setup(has_repo: bool, trouble: Option<Trouble>) -> Step {
    if has_repo {
        Step { stage: Stage::Initialising, action: Action::RunRepoInit, trouble }
    } else {
        Step { stage: Stage::Finished, action: Action::Exit { status: 0 }, trouble }
    }
}

/// The step that follows the writing of the files.
pub open spec fn after_fetch(has_setup: bool, has_repo: bool) -> Step {
    if has_setup {
        Step { stage: Stage::SettingUp, action: Action::RunSetup, trouble: None }
    } else {
        after_setup(has_repo, None)
    }
}

/// A step that ends the creation as failed.
pub open spec fn failed(trouble: Trouble) -> Step {
    Step { stage: Stage::Finished, action: Action::Exit { status: 1 }, trouble: Some(trouble) }
}

/// The order of the steps.
///
/// A guarded plan looks for its directory first, and ends at once where it
/// is found. The files are fetched only behind the guard, the setup runs
/// only once every file is written, and the repository comes last. A
/// command that fails is noted and does not end the creation; a file that
/// is not written does. An event that does not answer the stage's action
/// ends it as well.
pub open spec fn next_step(plan: PlanView, stage: Stage, event: Event) -> Step {
    let has_setup = plan.setup is Some;
    let has_repo = plan.repo is Some;
    match (stage, event) {
        (Stage::Start, Event::Begin) => if plan.guarded {
            Step { stage: Stage::Guarding, action: Action::CheckDir, trouble: None }
        } else {
            after_fetch(has_setup, has_repo)
        },
        (Stage::Guarding, Event::DirChecked { existed }) => if existed {
            failed(Trouble::AlreadyExists)
        } else {
            Step { stage: Stage::Fetching, action: Action::Fetch, trouble: None }
        },
        (Stage::Fetching, Event::Fetched { failed: count }) => if count > 0 {
            failed(Trouble::Incomplete)
        } else {
            after_fetch(has_setup, has_repo)
        },
        (Stage::SettingUp, Event::Ran { exit_code }) => after_setup(
            has_repo,
            if exit_code != 0 {
                Some(Trouble::PostProcessFailure)
            } else {
                None
            },
        ),
        (Stage::Initialising, Event::Ran { exit_code }) => Step {
            stage: Stage::Finished,
            action: Action::Exit { status: 0 },
            trouble: if exit_code != 0 {
                Some(Trouble::RepoInitFailure)
            } else {
                None
            },
        },
        _ => failed(Trouble::OutOfTurn),
    }
}

fn step_after_setup(has_repo: bool, trouble: Option<Trouble>) -> (s: Step)
    ensures
        s == after_setup(has_repo, trouble),
{
    if has_repo {
        Step { stage: Stage::Initialising, action: Action::RunRepoInit, trouble }
    } else {
        Step { stage: Stage::Finished, action: Action::Exit { status: 0 }, trouble }
    }
}

fn step_after_fetch(has_setup: bool, has_repo: bool) -> (s: Step)
    ensures
        s == after_fetch(has_setup, has_repo),
{
    if has_setup {
        Step { stage: Stage::SettingUp, action: Action::RunSetup, trouble: None }
    } else {
        step_after_setup(has_repo, None)
    }
}

fn step_failed(trouble: Trouble) -> (s: Step)
    ensures
        s == failed(trouble),
{
    Step { stage: Stage::Finished, action: Action::Exit { status: 1 }, trouble: Some(trouble) }
}

/// Takes the creation of `plan` one step further: from the stage it stands
/// at and what has just happened to the next stage and what to do there.
pub fn step(plan: &Plan, stage: Stage, event: Event) -> (s: Step)
    ensures
        s == next_step(plan@, stage, event),
{
    let has_setup: bool = plan.setup.is_some();
    let has_repo: bool = plan.repo.is_some();
    match stage {
        Stage::Start => match event {
            Event::Begin => {
                if plan.guarded {
                    Step { stage: Stage::Guarding, action: Action::CheckDir, trouble: None }
                } else {
                    step_after_fetch(has_setup, has_repo)
                }
            },
            _ => step_failed(Trouble::OutOfTurn),
        },
        Stage::Guarding => match event {
            Event::DirChecked { existed } => {
                if existed {
                    step_failed(Trouble::AlreadyExists)
                } else {
                    Step { stage: Stage::Fetching, action: Action::Fetch, trouble: None }
                }
            },
            _ => step_failed(Trouble::OutOfTurn),
        },
        Stage::Fetching => match event {
            Event::Fetched { failed } => {
                if failed > 0 {
                    step_failed(Trouble::Incomplete)
                } else {
                    step_after_fetch(has_setup, has_repo)
                }
            },
            _ => step_failed(Trouble::OutOfTurn),
        },
        Stage::SettingUp => match event {
            Event::Ran { exit_code } => {
                let trouble: Option<Trouble> = if exit_code != 0 {
                    Some(Trouble::PostProcessFailure)
                } else {
                    None
                };
                step_after_setup(has_repo, trouble)
            },
            _ => step_failed(Trouble::OutOfTurn),
        },
        Stage::Initialising => match event {
            Event::Ran { exit_code } => {
                let trouble: Option<Trouble> = if exit_code != 0 {
                    Some(Trouble::RepoInitFailure)
                } else {
                    None
                };
                Step { stage: Stage::Finished, action: Action::Exit { status: 0 }, trouble }
            },
            _ => step_failed(Trouble::OutOfTurn),
        },
        Stage::Finished => step_failed(Trouble::OutOfTurn),
    }
}

/// The event that the end of all fetches makes: it counts the files that
/// were not written.
pub fn fetched(outcomes: &Vec<FileOutcome>) -> (e: Event)
    ensures
        unwritten(outcomes@) <= usize::MAX,
        e == (Event::Fetched { failed: unwritten(outcomes@) as usize }),
{
    let errors = failures(outcomes);
    proof {
        lemma_failures_count(outcomes@);
        assert(faults(errors@).len() == errors@.len());
    }
    Event::Fetched { failed: errors.len() }
}

/// The creation goes on past the fetches exactly when every file was
/// written; one file that was not ends it as incomplete, before any command
/// is run.
pub proof fn lemma_incomplete_tree_stops(plan: PlanView, outcomes: Seq<FileOutcome>)
    requires
        unwritten(outcomes) <= usize::MAX,
    ensures
        all_written(outcomes) <==> next_step(
            plan,
            Stage::Fetching,
            Event::Fetched { failed: unwritten(outcomes) as usize },
        ).trouble is None,
        !all_written(outcomes) ==> next_step(
            plan,
            Stage::Fetching,
            Event::Fetched { failed: unwritten(outcomes) as usize },
        ) == failed(Trouble::Incomplete),
{
    lemma_failures_count(outcomes);
}

/// No two fetches of a plan write to the same place, so the fetches can
/// run in any order and at the same time.
pub proof fn lemma_plan_places_distinct(t: Template, cwd: Seq<char>, name: Seq<char>)
    ensures
        forall|i: int, j: int|
            0 <= i < j < plan_of(t, cwd, name).fetches.len() ==> plan_of(t, cwd, name).fetches[i].path
                != plan_of(t, cwd, name).fetches[j].path,
{
    let plan = plan_of(t, cwd, name);
    lemma_templates_distinct(t);
    assert forall|i: int, j: int| 0 <= i < j < plan.fetches.len() implies plan.fetches[i].path
        != plan.fetches[j].path by {
        let front = root_of(cwd, name) + seq!['/'];
        let a = t.paths()[i];
        let b = t.paths()[j];
        assert(plan.fetches[i].path == front + a);
        assert(plan.fetches[j].path == front + b);
        if front + a == front + b {
            assert((front + a).skip(front.len() as int) =~= a);
            assert((front + b).skip(front.len() as int) =~= b);
            assert(false);
        }
    }
}

/// A directory that is already there ends the creation at once, whatever
/// the plan: the step asks for no fetch and no command, only for the end,
/// with a status that is not zero.
pub proof fn lemma_existing_directory_stops(plan: PlanView)
    ensures
        next_step(plan, Stage::Guarding, Event::DirChecked { existed: true }) == failed(
            Trouble::AlreadyExists,
        ),
        next_step(plan, Stage::Guarding, Event::DirChecked { existed: true }).action
            == (Action::Exit { status: 1 }),
{
}

/// A fetch is asked for only behind the guard, with the directory absent;
/// a command only once no file has failed; and a plan that is guarded asks
/// for its guard first.
pub proof fn lemma_steps_in_order(plan: PlanView, stage: Stage, event: Event)
    ensures
        next_step(plan, stage, event).action == Action::Fetch ==> stage == Stage::Guarding
            && event == (Event::DirChecked { existed: false }),
        next_step(plan, stage, event).action == Action::RunSetup ==> (stage == Stage::Fetching
            && event == (Event::Fetched { failed: 0 })) || (stage == Stage::Start
            && !plan.guarded),
        next_step(plan, stage, event).action == Action::RunRepoInit ==> stage
            != Stage::Guarding && !(event matches Event::Fetched { failed } && failed > 0),
        plan.guarded ==> next_step(plan, Stage::Start, Event::Begin).action == Action::CheckDir,
        next_step(plan, stage, event).action == Action::CheckDir ==> stage == Stage::Start,
        next_step(plan, stage, event).stage == Stage::Fetching ==> next_step(
            plan,
            stage,
            event,
        ).action == Action::Fetch,
{
}

} // verus!
