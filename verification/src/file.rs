//! A file that is to be created under the working directory.

use vstd::prelude::*;
use vstd::string::*;

verus! {

/// A file to create: its name, the directory it goes to, and its content.
pub struct File {
    pub name: String,
    pub dir: String,
    pub content: String,
}

/// What has to happen for a file to be on disk: the directory `dir` is
/// created with all that leads to it, then `content` is written to `path`.
pub struct WriteOrder {
    pub dir: String,
    pub path: String,
    pub content: String,
}

/// The directory `dir` under the working directory `cwd`, with a closing
/// slash.
pub open spec fn dir_under(cwd: Seq<char>, dir: Seq<char>) -> Seq<char> {
    cwd + "/"@ + dir + "/"@
}

/// The place of the file `name` in the directory `dir`.
pub open spec fn file_in(dir: Seq<char>, name: Seq<char>) -> Seq<char> {
    dir + "/"@ + name
}

/// Whether a response of this status carries a file.
pub open spec fn is_success(status: u16) -> bool {
    status == 200
}

/// What is said of a file that was created.
pub open spec fn created_notice(name: Seq<char>) -> Seq<char> {
    name + " created."@
}

/// What is said of a file that the repository did not give.
pub open spec fn missing_notice(name: Seq<char>) -> Seq<char> {
    "Error: Could not get "@ + name + " from repo."@
}

impl File {
    /// A file `name` with this content, in the directory `dir` under the
    /// working directory `cwd`.
    pub fn new(cwd: &str, name: String, dir: String, content: String) -> (file: Self)
        ensures
            file.name == name,
            file.content == content,
            file.dir@ == dir_under(cwd@, dir@),
    {
        let dir_path: String = String::from_str(cwd).concat("/").concat(dir.as_str()).concat("/");
        Self { name, dir: dir_path, content }
    }

    /// The order that puts this file on disk: its directory, its place in
    /// it, and its content unchanged.
    pub fn write(&self) -> (order: WriteOrder)
        ensures
            order.dir@ == self.dir@,
            order.path@ == file_in(self.dir@, self.name@),
            order.content@ == self.content@,
    {
        WriteOrder {
            dir: self.dir.clone(),
            path: self.dir.clone().concat("/").concat(self.name.as_str()),
            content: self.content.clone(),
        }
    }
}

/// What became of one requested file.
pub enum Received {
    /// The repository gave the file: it is to be written, and the notice
    /// says so.
    Created { file: File, notice: String },
    /// The repository did not give the file: the notice says so.
    Missing { notice: String },
}

/// Decides what to do with the response to the request for the file `file`
/// of a project in `dir`: a response of status 200 gives the file with the
/// response's text as its content, any other status gives nothing to write.
pub fn write_file_from_response(
    cwd: &str,
    status: u16,
    text: String,
    file: String,
    dir: String,
) -> (r: Received)
    ensures
        is_success(status) ==> (r matches Received::Created { file: f, notice } && f.name@
            == file@ && f.content@ == text@ && f.dir@ == dir_under(cwd@, dir@) && notice@
            == created_notice(file@)),
        !is_success(status) ==> (r matches Received::Missing { notice } && notice@
            == missing_notice(file@)),
{
    if status == 200 {
        let notice: String = file.clone().concat(" created.");
        let f: File = File::new(cwd, file, dir, text);
        Received::Created { file: f, notice }
    } else {
        let notice: String = String::from_str("Error: Could not get ").concat(
            file.as_str(),
        ).concat(" from repo.");
        Received::Missing { notice }
    }
}

} // verus!
