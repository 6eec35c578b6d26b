//! The template registry: which files make up a new project in each
//! supported language, and where they are fetched from.

use vstd::prelude::*;
use vstd::string::*;
use crate::download::{url_of, FetchTask};
use crate::file::{dir_under, file_in};
use crate::text::{same_text, texts};

verus! {

/// A template: a base address and the relative paths of its files, in the
/// order in which they are listed.
pub struct Manifest {
    pub base_url: String,
    pub files: Vec<String>,
}

/// What has to be done to a freshly written project tree before its
/// repository is initialised.
#[derive(Clone, Copy, Debug, PartialEq, Eq, Structural)]
pub enum Setup {
    /// Nothing.
    Nothing,
    /// Create an isolated runtime environment inside the project.
    Virtualenv,
}

/// The languages a project can be created in.
#[derive(Clone, Copy, Debug, PartialEq, Eq, Structural)]
pub enum Template {
    Python,
    Ruby,
    Rust,
    /// C++ has a template and, so far, no key that selects it.
    Cpp,
}

/// No two entries of `paths` are the same.
pub open spec fn distinct(paths: Seq<Seq<char>>) -> bool {
    forall|i: int, j: int| 0 <= i < j < paths.len() ==> paths[i] != paths[j]
}

impl Manifest {
    /// A manifest is well formed when it lists no path twice: each file is
    /// then written by one fetch alone.
    pub open spec fn wf(&self) -> bool {
        distinct(texts(self.files@))
    }

    /// Whether the manifest lists no path twice.
    pub fn is_well_formed(&self) -> (ok: bool)
        ensures
            ok == self.wf(),
    {
        let n: usize = self.files.len();
        let mut j: usize = 0;
        while j < n
            invariant
                n == self.files@.len(),
                j <= n,
                forall|a: int, b: int| 0 <= a < b < j ==> self.files@[a]@ != self.files@[b]@,
            decreases n - j,
        {
            let mut i: usize = 0;
            while i < j
                invariant
                    n == self.files@.len(),
                    i <= j < n,
                    forall|a: int| 0 <= a < i ==> self.files@[a]@ != self.files@[j as int]@,
                decreases j - i,
            {
                if self.files[i] == self.files[j] {
                    assert(texts(self.files@)[i as int] == texts(self.files@)[j as int]);
                    return false;
                }
                i = i + 1;
            }
            j = j + 1;
        }
        assert forall|a: int, b: int| 0 <= a < b < texts(self.files@).len() implies texts(
            self.files@,
        )[a] != texts(self.files@)[b] by {
            assert(self.files@[a]@ != self.files@[b]@);
        }
        true
    }
}

pub open spec fn python_base() -> Seq<char> {
    "https://raw.githubusercontent.com/sam-kenney/python-template/main/"@
}

pub open spec fn python_files() -> Seq<Seq<char>> {
    seq![
        ".editorconfig"@,
        ".gitignore"@,
        ".pre-commit-config.yaml"@,
        "README.md"@,
        "poetry.lock"@,
        "pyproject.toml"@,
        "src/main.py"@,
        "src/__init__.py"@,
        "tests/__init__.py"@,
        ".github/workflows/github-actions-black.yml"@,
        ".github/workflows/github-actions-mypy.yml"@,
        ".github/workflows/github-actions-ruff.yml"@,
    ]
}

pub open spec fn ruby_base() -> Seq<char> {
    "https://raw.githubusercontent.com/sam-kenney/ruby-template/main/"@
}

pub open spec fn ruby_files() -> Seq<Seq<char>> {
    seq![
        "spec/calculate_spec.rb"@,
        "src/calculate.rb"@,
        "src/main.rb"@,
        ".gitignore"@,
        ".rubocop.yml"@,
        ".ruby-version"@,
        "Gemfile"@,
        "Gemfile.lock"@,
        "Rakefile"@,
    ]
}

pub open spec fn cpp_base() -> Seq<char> {
    "https://raw.githubusercontent.com/sam-kenney/cpp-template/main/"@
}

pub open spec fn cpp_files() -> Seq<Seq<char>> {
    seq![
        "src/Main.cpp"@,
        "src/Calculate.cpp"@,
        "src/Calculate.hpp"@,
        "tests/Main.cpp"@,
        "tests/Test.cpp"@,
        "tests/Test.hpp"@,
        ".editorconfig"@,
        ".gitignore"@,
        "Makefile"@,
    ]
}

impl Template {
    /// The address under which the template's files are served. A Rust
    /// project is laid out by the language's own tool and has no template.
    pub open spec fn base(self) -> Seq<char> {
        match self {
            Template::Python => python_base(),
            Template::Ruby => ruby_base(),
            Template::Rust => Seq::empty(),
            Template::Cpp => cpp_base(),
        }
    }

    /// The relative paths of the template's files, in order.
    pub open spec fn paths(self) -> Seq<Seq<char>> {
        match self {
            Template::Python => python_files(),
            Template::Ruby => ruby_files(),
            Template::Rust => Seq::empty(),
            Template::Cpp => cpp_files(),
        }
    }

    /// The step that follows the writing of the files.
    pub open spec fn setup_of(self) -> Setup {
        match self {
            Template::Python => Setup::Virtualenv,
            _ => Setup::Nothing,
        }
    }

    /// The language as it is named to the user.
    pub open spec fn label_of(self) -> Seq<char> {
        match self {
            Template::Python => "Python"@,
            Template::Ruby => "Ruby"@,
            Template::Rust => "Rust"@,
            Template::Cpp => "C++"@,
        }
    }

    pub fn setup(self) -> (s: Setup)
        ensures
            s == self.setup_of(),
    {
        match self {
            Template::Python => Setup::Virtualenv,
            _ => Setup::Nothing,
        }
    }

    pub fn label(self) -> (s: String)
        ensures
            s@ == self.label_of(),
    {
        match self {
            Template::Python => String::from_str("Python"),
            Template::Ruby => String::from_str("Ruby"),
            Template::Rust => String::from_str("Rust"),
            Template::Cpp => String::from_str("C++"),
        }
    }

    /// The manifest of the language's template.
    pub fn manifest(self) -> (m: Manifest)
        ensures
            m.base_url@ == self.base(),
            texts(m.files@) == self.paths(),
            m.wf(),
    {
        proof {
            lemma_templates_distinct(self);
        }
        match self {
            Template::Python => python_manifest(),
            Template::Ruby => ruby_manifest(),
            Template::Rust => Manifest { base_url: String::new(), files: Vec::new() },
            Template::Cpp => cpp_manifest(),
        }
    }
}

fn entry(files: &mut Vec<String>, path: &str)
    ensures
        texts(final(files)@) == texts(old(files)@).push(path@),
{
    files.push(String::from_str(path));
    assert(texts(files@) =~= texts(old(files)@).push(path@));
}

fn python_manifest() -> (m: Manifest)
    ensures
        m.base_url@ == python_base(),
        texts(m.files@) == python_files(),
{
    let mut files: Vec<String> = Vec::new();
    assert(texts(files@) =~= Seq::empty());
    entry(&mut files, ".editorconfig");
    entry(&mut files, ".gitignore");
    entry(&mut files, ".pre-commit-config.yaml");
    entry(&mut files, "README.md");
    entry(&mut files, "poetry.lock");
    entry(&mut files, "pyproject.toml");
    entry(&mut files, "src/main.py");
    entry(&mut files, "src/__init__.py");
    entry(&mut files, "tests/__init__.py");
    entry(&mut files, ".github/workflows/github-actions-black.yml");
    entry(&mut files, ".github/workflows/github-actions-mypy.yml");
    entry(&mut files, ".github/workflows/github-actions-ruff.yml");
    Manifest {
        base_url: String::from_str(
            "https://raw.githubusercontent.com/sam-kenney/python-template/main/",
        ),
        files,
    }
}

fn ruby_manifest() -> (m: Manifest)
    ensures
        m.base_url@ == ruby_base(),
        texts(m.files@) == ruby_files(),
{
    let mut files: Vec<String> = Vec::new();
    assert(texts(files@) =~= Seq::empty());
    entry(&mut files, "spec/calculate_spec.rb");
    entry(&mut files, "src/calculate.rb");
    entry(&mut files, "src/main.rb");
    entry(&mut files, ".gitignore");
    entry(&mut files, ".rubocop.yml");
    entry(&mut files, ".ruby-version");
    entry(&mut files, "Gemfile");
    entry(&mut files, "Gemfile.lock");
    entry(&mut files, "Rakefile");
    Manifest {
        base_url: String::from_str(
            "https://raw.githubusercontent.com/sam-kenney/ruby-template/main/",
        ),
        files,
    }
}

fn cpp_manifest() -> (m: Manifest)
    ensures
        m.base_url@ == cpp_base(),
        texts(m.files@) == cpp_files(),
{
    let mut files: Vec<String> = Vec::new();
    assert(texts(files@) =~= Seq::empty());
    entry(&mut files, "src/Main.cpp");
    entry(&mut files, "src/Calculate.cpp");
    entry(&mut files, "src/Calculate.hpp");
    entry(&mut files, "tests/Main.cpp");
    entry(&mut files, "tests/Test.cpp");
    entry(&mut files, "tests/Test.hpp");
    entry(&mut files, ".editorconfig");
    entry(&mut files, ".gitignore");
    entry(&mut files, "Makefile");
    Manifest {
        base_url: String::from_str(
            "https://raw.githubusercontent.com/sam-kenney/cpp-template/main/",
        ),
        files,
    }
}

/// The language that a key selects, if any. Keys are matched letter for
/// letter, case included.
pub open spec fn template_of(key: Seq<char>) -> Option<Template> {
    if key == "py"@ {
        Some(Template::Python)
    } else if key == "rb"@ {
        Some(Template::Ruby)
    } else if key == "rs"@ {
        Some(Template::Rust)
    } else {
        None
    }
}

/// Looks a language key up. An unknown key gives `None`; nothing is read or
/// written either way.
pub fn resolve(key: &str) -> (found: Option<Template>)
    ensures
        found == template_of(key@),
{
    if same_text(key, "py") {
        Some(Template::Python)
    } else if same_text(key, "rb") {
        Some(Template::Ruby)
    } else if same_text(key, "rs") {
        Some(Template::Rust)
    } else {
        None
    }
}

/// For every supported key, the template it selects lists no path twice.
pub proof fn lemma_supported_keys_distinct(key: Seq<char>)
    ensures
        template_of(key) matches Some(t) ==> distinct(t.paths()),
{
    if let Some(t) = template_of(key) {
        lemma_templates_distinct(t);
    }
}

/// A language that a project can be requested in.
pub trait Language {
    /// The base address of the language's template.
    spec fn base(&self) -> Seq<char>;

    /// The relative paths of the template's files, in order.
    spec fn paths(&self) -> Seq<Seq<char>>;

    /// The requests that create a project in the directory `dir` under the
    /// working directory `cwd`: for each file of the template, in order,
    /// its address and the place it is written to.
    fn execute(&self, cwd: &str, dir: &String) -> (tasks: Vec<FetchTask>)
        ensures
            tasks@.len() == self.paths().len(),
            forall|i: int|
                0 <= i < tasks@.len() ==> {
                    &&& (#[trigger] tasks@[i]).file@ == self.paths()[i]
                    &&& tasks@[i].url@ == url_of(self.base(), self.paths()[i])
                    &&& tasks@[i].path@ == file_in(dir_under(cwd@, dir@), self.paths()[i])
                },
    ;
}

/// The Python template that is kept in a public repository of its own.
pub struct Python {
    base_url: String,
    files: Vec<String>,
}

pub open spec fn python_public_base() -> Seq<char> {
    "https://bitbucket.org/louder/python-template-public/raw/main/"@
}

pub open spec fn python_public_files() -> Seq<Seq<char>> {
    seq![
        ".editorconfig"@,
        ".gitignore"@,
        ".pre-commit-config.yaml"@,
        "README.md"@,
        "noxfile.py"@,
        "requirements-dev.txt"@,
        "setup.cfg"@,
    ]
}

impl Python {
    pub closed spec fn manifest_base(&self) -> Seq<char> {
        self.base_url@
    }

    pub closed spec fn manifest_paths(&self) -> Seq<Seq<char>> {
        texts(self.files@)
    }

    /// The template with its address and its seven files.
    pub fn new() -> (python: Python)
        ensures
            python.manifest_base() == python_public_base(),
            python.manifest_paths() == python_public_files(),
            distinct(python.manifest_paths()),
    {
        proof {
            lemma_python_public_distinct();
        }
        let mut files: Vec<String> = Vec::new();
        assert(texts(files@) =~= Seq::empty());
        entry(&mut files, ".editorconfig");
        entry(&mut files, ".gitignore");
        entry(&mut files, ".pre-commit-config.yaml");
        entry(&mut files, "README.md");
        entry(&mut files, "noxfile.py");
        entry(&mut files, "requirements-dev.txt");
        entry(&mut files, "setup.cfg");
        Python {
            base_url: String::from_str(
                "https://bitbucket.org/louder/python-template-public/raw/main/",
            ),
            files,
        }
    }

    /// The base address.
    pub fn base_url(&self) -> (base: &String)
        ensures
            base@ == self.manifest_base(),
    {
        &self.base_url
    }

    /// The relative paths, in order.
    pub fn files(&self) -> (files: &Vec<String>)
        ensures
            texts(files@) == self.manifest_paths(),
    {
        &self.files
    }
}

impl Language for Python {
    open spec fn base(&self) -> Seq<char> {
        self.manifest_base()
    }

    open spec fn paths(&self) -> Seq<Seq<char>> {
        self.manifest_paths()
    }

    fn execute(&self, cwd: &str, dir: &String) -> (tasks: Vec<FetchTask>) {
        let folder: String = String::from_str(cwd).concat("/").concat(dir.as_str()).concat("/");
        let mut tasks: Vec<FetchTask> = Vec::new();
        let mut i: usize = 0;
        while i < self.files.len()
            invariant
                i <= self.files@.len(),
                folder@ == dir_under(cwd@, dir@),
                tasks@.len() == i,
                forall|k: int|
                    0 <= k < i ==> {
                        &&& (#[trigger] tasks@[k]).file@ == self.files@[k]@
                        &&& tasks@[k].url@ == url_of(self.base_url@, self.files@[k]@)
                        &&& tasks@[k].path@ == file_in(dir_under(cwd@, dir@), self.files@[k]@)
                    },
            decreases self.files@.len() - i,
        {
            let file: &str = self.files[i].as_str();
            let url: String = self.base_url.clone().concat(file);
            let path: String = folder.clone().concat("/").concat(file);
            tasks.push(FetchTask { file: self.files[i].clone(), url, path });
            i = i + 1;
        }
        tasks
    }
}

/// The public Python template lists no path twice.
pub proof fn lemma_python_public_distinct()
    ensures
        distinct(python_public_files()),
{
    reveal_strlit(".editorconfig");
    reveal_strlit(".gitignore");
    reveal_strlit(".pre-commit-config.yaml");
    reveal_strlit("README.md");
    reveal_strlit("noxfile.py");
    reveal_strlit("requirements-dev.txt");
    reveal_strlit("setup.cfg");
    let p = python_public_files();
    assert(p[0] == ".editorconfig"@ && p[0].len() == 13);
    assert(p[1] == ".gitignore"@ && p[1].len() == 10);
    assert(p[2] == ".pre-commit-config.yaml"@ && p[2].len() == 23);
    assert(p[3] == "README.md"@ && p[3].len() == 9);
    assert(p[4] == "noxfile.py"@ && p[4].len() == 10);
    assert(p[5] == "requirements-dev.txt"@ && p[5].len() == 20);
    assert(p[6] == "setup.cfg"@ && p[6].len() == 9);
    assert(p[1][0] == '.' && p[4][0] == 'n');
    assert(p[3][0] == 'R' && p[6][0] == 's');
}

/// No template lists a path twice.
pub proof fn lemma_templates_distinct(t: Template)
    ensures
        distinct(t.paths()),
{
    match t {
        Template::Python => {
            reveal_strlit(".editorconfig");
            reveal_strlit(".gitignore");
            reveal_strlit(".pre-commit-config.yaml");
            reveal_strlit("README.md");
            reveal_strlit("poetry.lock");
            reveal_strlit("pyproject.toml");
            reveal_strlit("src/main.py");
            reveal_strlit("src/__init__.py");
            reveal_strlit("tests/__init__.py");
            reveal_strlit(".github/workflows/github-actions-black.yml");
            reveal_strlit(".github/workflows/github-actions-mypy.yml");
            reveal_strlit(".github/workflows/github-actions-ruff.yml");
            let p = python_files();
            assert(p[0] == ".editorconfig"@ && p[0].len() == 13);
            assert(p[1] == ".gitignore"@ && p[1].len() == 10);
            assert(p[2] == ".pre-commit-config.yaml"@ && p[2].len() == 23);
            assert(p[3] == "README.md"@ && p[3].len() == 9);
            assert(p[4] == "poetry.lock"@ && p[4].len() == 11);
            assert(p[5] == "pyproject.toml"@ && p[5].len() == 14);
            assert(p[6] == "src/main.py"@ && p[6].len() == 11);
            assert(p[7] == "src/__init__.py"@ && p[7].len() == 15);
            assert(p[8] == "tests/__init__.py"@ && p[8].len() == 17);
            assert(p[9] == ".github/workflows/github-actions-black.yml"@ && p[9].len() == 42);
            assert(p[10] == ".github/workflows/github-actions-mypy.yml"@ && p[10].len() == 41);
            assert(p[11] == ".github/workflows/github-actions-ruff.yml"@ && p[11].len() == 41);
            assert(p[4][0] == 'p' && p[6][0] == 's');
            assert(p[10][33] == 'm' && p[11][33] == 'r');
            assert(distinct(p));
        },
        Template::Ruby => {
            reveal_strlit("spec/calculate_spec.rb");
            reveal_strlit("src/calculate.rb");
            reveal_strlit("src/main.rb");
            reveal_strlit(".gitignore");
            reveal_strlit(".rubocop.yml");
            reveal_strlit(".ruby-version");
            reveal_strlit("Gemfile");
            reveal_strlit("Gemfile.lock");
            reveal_strlit("Rakefile");
            let p = ruby_files();
            assert(p[0] == "spec/calculate_spec.rb"@ && p[0].len() == 22);
            assert(p[1] == "src/calculate.rb"@ && p[1].len() == 16);
            assert(p[2] == "src/main.rb"@ && p[2].len() == 11);
            assert(p[3] == ".gitignore"@ && p[3].len() == 10);
            assert(p[4] == ".rubocop.yml"@ && p[4].len() == 12);
            assert(p[5] == ".ruby-version"@ && p[5].len() == 13);
            assert(p[6] == "Gemfile"@ && p[6].len() == 7);
            assert(p[7] == "Gemfile.lock"@ && p[7].len() == 12);
            assert(p[8] == "Rakefile"@ && p[8].len() == 8);
            assert(p[4][0] == '.' && p[7][0] == 'G');
            assert(distinct(p));
        },
        Template::Rust => {},
        Template::Cpp => {
            reveal_strlit("src/Main.cpp");
            reveal_strlit("src/Calculate.cpp");
            reveal_strlit("src/Calculate.hpp");
            reveal_strlit("tests/Main.cpp");
            reveal_strlit("tests/Test.cpp");
            reveal_strlit("tests/Test.hpp");
            reveal_strlit(".editorconfig");
            reveal_strlit(".gitignore");
            reveal_strlit("Makefile");
            let p = cpp_files();
            assert(p[0] == "src/Main.cpp"@ && p[0].len() == 12);
            assert(p[1] == "src/Calculate.cpp"@ && p[1].len() == 17);
            assert(p[2] == "src/Calculate.hpp"@ && p[2].len() == 17);
            assert(p[3] == "tests/Main.cpp"@ && p[3].len() == 14);
            assert(p[4] == "tests/Test.cpp"@ && p[4].len() == 14);
            assert(p[5] == "tests/Test.hpp"@ && p[5].len() == 14);
            assert(p[6] == ".editorconfig"@ && p[6].len() == 13);
            assert(p[7] == ".gitignore"@ && p[7].len() == 10);
            assert(p[8] == "Makefile"@ && p[8].len() == 8);
            assert(p[1][14] == 'c' && p[2][14] == 'h');
            assert(p[3][6] == 'M' && p[4][6] == 'T');
            assert(p[3][6] == 'M' && p[5][6] == 'T');
            assert(p[4][11] == 'c' && p[5][11] == 'h');
            assert(distinct(p));
        },
    }
}

} // verus!
