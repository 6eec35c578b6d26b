//! The plan of a materialisation: which address each template file is
//! fetched from, where it is written, and what the outcomes of the single
//! files add up to.

use vstd::prelude::*;
use vstd::string::*;
use crate::text::texts;

verus! {

/// One file to fetch and write: its relative path in the manifest, the
/// address its bytes are served at and the place they go to.
pub struct FetchTask {
    pub file: String,
    pub url: String,
    pub path: String,
}

/// A `FetchTask` as plain text.
pub struct Fetch {
    pub file: Seq<char>,
    pub url: Seq<char>,
    pub path: Seq<char>,
}

impl View for FetchTask {
    type V = Fetch;

    open spec fn view(&self) -> Fetch {
        Fetch { file: self.file@, url: self.url@, path: self.path@ }
    }
}

/// The fetch of the manifest file `file`, served under `base`, for the
/// project `name` under `cwd`.
pub open spec fn fetch_of(base: Seq<char>, cwd: Seq<char>, name: Seq<char>, file: Seq<char>) -> Fetch {
    Fetch { file, url: url_of(base, file), path: path_of(cwd, name, file) }
}

/// How one file of a manifest ended.
#[derive(Clone, Copy, Debug, PartialEq, Eq, Structural)]
pub enum FileStatus {
    /// Fetched and written.
    Written,
    /// The bytes could not be fetched.
    FetchFailed,
    /// The bytes were fetched and could not be written.
    WriteFailed,
}

/// The outcome of one file, named by its relative path.
pub struct FileOutcome {
    pub path: String,
    pub status: FileStatus,
}

/// Why a materialisation failed.
#[derive(Debug)]
pub enum EngineError {
    /// The project directory was there before anything was written.
    AlreadyExists,
    /// The file of this relative path could not be fetched.
    FetchFailure(String),
    /// The file of this relative path could not be written.
    WriteFailure(String),
}

/// An `EngineError` with its path as plain text.
pub enum EngineFault {
    AlreadyExists,
    FetchFailure(Seq<char>),
    WriteFailure(Seq<char>),
}

impl View for EngineError {
    type V = EngineFault;

    open spec fn view(&self) -> EngineFault {
        match self {
            EngineError::AlreadyExists => EngineFault::AlreadyExists,
            EngineError::FetchFailure(p) => EngineFault::FetchFailure(p@),
            EngineError::WriteFailure(p) => EngineFault::WriteFailure(p@),
        }
    }
}

/// The address of a template file: the base address with the relative path
/// behind it, nothing between them.
pub open spec fn url_of(base: Seq<char>, file: Seq<char>) -> Seq<char> {
    base + file
}

/// The directory of the project `name` under the working directory `cwd`.
pub open spec fn root_of(cwd: Seq<char>, name: Seq<char>) -> Seq<char> {
    cwd + seq!['/'] + name
}

/// The place of a template file inside the project.
pub open spec fn path_of(cwd: Seq<char>, name: Seq<char>, file: Seq<char>) -> Seq<char> {
    root_of(cwd, name) + seq!['/'] + file
}

/// The directory of the project `name` under `cwd`.
pub fn project_dir(cwd: &str, name: &str) -> (dir: String)
    ensures
        dir@ == root_of(cwd@, name@),
{
    proof {
        reveal_strlit("/");
    }
    let dir: String = String::from_str(cwd).concat("/").concat(name);
    assert("/"@ =~= seq!['/']);
    dir
}

/// The directory guard. A project directory that is already there is never
/// reused: the guard lets the caller go on exactly when it is absent.
pub fn mkdir_if_not_exists(exists: bool) -> (r: Result<(), EngineError>)
    ensures
        exists ==> (r matches Err(e) && e@ == EngineFault::AlreadyExists),
        !exists ==> r is Ok,
{
    if exists {
        Err(EngineError::AlreadyExists)
    } else {
        Ok(())
    }
}

/// Pairs every file of a manifest with its address and its place in the
/// project `name` under `cwd`, in the manifest's order.
pub fn download_files(base_url: &str, files: &Vec<String>, cwd: &str, name: &str) -> (tasks: Vec<
    FetchTask,
>)
    ensures
        tasks@.len() == files@.len(),
        forall|i: int|
            0 <= i < files@.len() ==> (#[trigger] tasks@[i])@ == fetch_of(
                base_url@,
                cwd@,
                name@,
                files@[i]@,
            ),
{
    let root: String = project_dir(cwd, name);
    let mut tasks: Vec<FetchTask> = Vec::new();
    let mut i: usize = 0;
    while i < files.len()
        invariant
            i <= files@.len(),
            root@ == root_of(cwd@, name@),
            tasks@.len() == i,
            forall|k: int|
                0 <= k < i ==> (#[trigger] tasks@[k])@ == fetch_of(
                    base_url@,
                    cwd@,
                    name@,
                    files@[k]@,
                ),
        decreases files@.len() - i,
    {
        proof {
            reveal_strlit("/");
        }
        let file: &str = files[i].as_str();
        let url: String = String::from_str(base_url).concat(file);
        let path: String = root.clone().concat("/").concat(file);
        assert("/"@ =~= seq!['/']);
        tasks.push(FetchTask { file: files[i].clone(), url, path });
        i = i + 1;
    }
    tasks
}

/// The failures among `outcomes`, in their order: one for each file that
/// was not written, none for a file that was.
pub open spec fn failures_of(outcomes: Seq<FileOutcome>) -> Seq<EngineFault>
    decreases outcomes.len(),
{
    if outcomes.len() == 0 {
        Seq::empty()
    } else {
        let rest = failures_of(outcomes.drop_last());
        match outcomes.last().status {
            FileStatus::Written => rest,
            FileStatus::FetchFailed => rest.push(EngineFault::FetchFailure(outcomes.last().path@)),
            FileStatus::WriteFailed => rest.push(EngineFault::WriteFailure(outcomes.last().path@)),
        }
    }
}

/// Every file of `outcomes` was written.
pub open spec fn all_written(outcomes: Seq<FileOutcome>) -> bool {
    forall|i: int| 0 <= i < outcomes.len() ==> (#[trigger] outcomes[i]).status == FileStatus::Written
}

/// The faults of `errors` as plain values.
pub open spec fn faults(errors: Seq<EngineError>) -> Seq<EngineFault> {
    Seq::new(errors.len(), |i: int| errors[i]@)
}

/// Collects the failure of every file that was not written, in the order of
/// `outcomes`. No failure is left out and none is made up.
pub fn failures(outcomes: &Vec<FileOutcome>) -> (errors: Vec<EngineError>)
    ensures
        faults(errors@) == failures_of(outcomes@),
{
    let mut errors: Vec<EngineError> = Vec::new();
    let mut i: usize = 0;
    assert(outcomes@.take(0) =~= Seq::empty());
    assert(faults(errors@) =~= failures_of(outcomes@.take(0)));
    while i < outcomes.len()
        invariant
            i <= outcomes@.len(),
            faults(errors@) == failures_of(outcomes@.take(i as int)),
        decreases outcomes@.len() - i,
    {
        let ghost before = errors@;
        assert(outcomes@.take(i + 1).drop_last() =~= outcomes@.take(i as int));
        assert(outcomes@.take(i + 1).last() == outcomes@[i as int]);
        match outcomes[i].status {
            FileStatus::Written => {},
            FileStatus::FetchFailed => {
                errors.push(EngineError::FetchFailure(outcomes[i].path.clone()));
                assert(faults(errors@) =~= faults(before).push(
                    EngineFault::FetchFailure(outcomes@[i as int].path@),
                ));
            },
            FileStatus::WriteFailed => {
                errors.push(EngineError::WriteFailure(outcomes[i].path.clone()));
                assert(faults(errors@) =~= faults(before).push(
                    EngineFault::WriteFailure(outcomes@[i as int].path@),
                ));
            },
        }
        i = i + 1;
    }
    assert(outcomes@.take(i as int) =~= outcomes@);
    errors
}

/// The verdict on a materialisation: it has succeeded exactly when every
/// file was written, and otherwise fails with the first failure in the
/// order of `outcomes`.
pub fn materialize(outcomes: &Vec<FileOutcome>) -> (r: Result<(), EngineError>)
    ensures
        r is Ok <==> all_written(outcomes@),
        r is Ok <==> failures_of(outcomes@).len() == 0,
        r matches Err(e) ==> e@ == failures_of(outcomes@)[0],
{
    let mut errors: Vec<EngineError> = failures(outcomes);
    proof {
        lemma_failures_count(outcomes@);
    }
    if errors.len() == 0 {
        Ok(())
    } else {
        let first: EngineError = errors.swap_remove(0);
        Err(first)
    }
}

/// The number of files of `outcomes` that were not written.
pub open spec fn unwritten(outcomes: Seq<FileOutcome>) -> nat
    decreases outcomes.len(),
{
    if outcomes.len() == 0 {
        0
    } else {
        let rest = unwritten(outcomes.drop_last());
        if outcomes.last().status == FileStatus::Written {
            rest
        } else {
            rest + 1
        }
    }
}

/// Every file that was not written is reported, and only those: there are as
/// many failures as unwritten files, and none exactly when all were written.
pub proof fn lemma_failures_count(outcomes: Seq<FileOutcome>)
    ensures
        failures_of(outcomes).len() == unwritten(outcomes),
        failures_of(outcomes).len() == 0 <==> all_written(outcomes),
    decreases outcomes.len(),
{
    if outcomes.len() > 0 {
        let front = outcomes.drop_last();
        lemma_failures_count(front);
        if all_written(outcomes) {
            assert forall|i: int| 0 <= i < front.len() implies (#[trigger] front[i]).status
                == FileStatus::Written by {
                assert(front[i] == outcomes[i]);
            }
            assert(outcomes.last() == outcomes[outcomes.len() - 1]);
        }
        if failures_of(outcomes).len() == 0 {
            assert forall|i: int| 0 <= i < outcomes.len() implies (#[trigger] outcomes[i]).status
                == FileStatus::Written by {
                if i < front.len() {
                    assert(front[i] == outcomes[i]);
                }
            }
        }
    }
}

} // verus!
