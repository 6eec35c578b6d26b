use dev_cli::execute::{cpp, execute, python, ruby, rust, unsupported_message};
use dev_cli::lang::{resolve, Language, Manifest, Python, Setup, Template};

fn has_duplicates(files: &Vec<String>) -> bool {
    for i in 0..files.len() {
        for j in (i + 1)..files.len() {
            if files[i] == files[j] {
                return true;
            }
        }
    }
    false
}

#[test]
fn resolve_knows_the_three_keys() {
    assert_eq!(resolve("py"), Some(Template::Python));
    assert_eq!(resolve("rb"), Some(Template::Ruby));
    assert_eq!(resolve("rs"), Some(Template::Rust));
}

#[test]
fn resolve_rejects_other_keys() {
    assert_eq!(resolve("cpp"), None);
    assert_eq!(resolve("PY"), None);
    assert_eq!(resolve("Py"), None);
    assert_eq!(resolve(""), None);
    assert_eq!(resolve("python"), None);
    assert_eq!(resolve(" py"), None);
}

#[test]
fn no_template_lists_a_path_twice() {
    for t in [Template::Python, Template::Ruby, Template::Rust, Template::Cpp] {
        assert!(!has_duplicates(&t.manifest().files));
    }
    assert!(!has_duplicates(Python::new().files()));
}

#[test]
fn a_manifest_with_a_repeated_path_is_not_well_formed() {
    for t in [Template::Python, Template::Ruby, Template::Rust, Template::Cpp] {
        assert!(t.manifest().is_well_formed());
    }
    let twice = Manifest {
        base_url: "B/".to_string(),
        files: vec!["a".to_string(), "b/c".to_string(), "a".to_string()],
    };
    assert!(!twice.is_well_formed());
    let close = Manifest {
        base_url: "B/".to_string(),
        files: vec!["a".to_string(), "A".to_string(), "a ".to_string(), "b/a".to_string()],
    };
    assert!(close.is_well_formed());
    let neighbours = Manifest {
        base_url: String::new(),
        files: vec!["x".to_string(), "x".to_string()],
    };
    assert!(!neighbours.is_well_formed());
}

#[test]
fn python_manifest_is_exact() {
    let m = Template::Python.manifest();
    assert_eq!(
        m.base_url,
        "https://raw.githubusercontent.com/sam-kenney/python-template/main/"
    );
    assert_eq!(
        m.files,
        vec![
            ".editorconfig",
            ".gitignore",
            ".pre-commit-config.yaml",
            "README.md",
            "poetry.lock",
            "pyproject.toml",
            "src/main.py",
            "src/__init__.py",
            "tests/__init__.py",
            ".github/workflows/github-actions-black.yml",
            ".github/workflows/github-actions-mypy.yml",
            ".github/workflows/github-actions-ruff.yml",
        ]
    );
}

#[test]
fn ruby_and_cpp_manifests_are_exact() {
    let m = Template::Ruby.manifest();
    assert_eq!(
        m.base_url,
        "https://raw.githubusercontent.com/sam-kenney/ruby-template/main/"
    );
    assert_eq!(
        m.files,
        vec![
            "spec/calculate_spec.rb",
            "src/calculate.rb",
            "src/main.rb",
            ".gitignore",
            ".rubocop.yml",
            ".ruby-version",
            "Gemfile",
            "Gemfile.lock",
            "Rakefile",
        ]
    );
    let m = Template::Cpp.manifest();
    assert_eq!(
        m.base_url,
        "https://raw.githubusercontent.com/sam-kenney/cpp-template/main/"
    );
    assert_eq!(
        m.files,
        vec![
            "src/Main.cpp",
            "src/Calculate.cpp",
            "src/Calculate.hpp",
            "tests/Main.cpp",
            "tests/Test.cpp",
            "tests/Test.hpp",
            ".editorconfig",
            ".gitignore",
            "Makefile",
        ]
    );
}

#[test]
fn rust_has_no_template_files() {
    let m = Template::Rust.manifest();
    assert_eq!(m.base_url, "");
    assert!(m.files.is_empty());
}

#[test]
fn labels_and_setups() {
    assert_eq!(Template::Python.label(), "Python");
    assert_eq!(Template::Ruby.label(), "Ruby");
    assert_eq!(Template::Rust.label(), "Rust");
    assert_eq!(Template::Cpp.label(), "C++");
    assert_eq!(Template::Python.setup(), Setup::Virtualenv);
    assert_eq!(Template::Ruby.setup(), Setup::Nothing);
    assert_eq!(Template::Rust.setup(), Setup::Nothing);
    assert_eq!(Template::Cpp.setup(), Setup::Nothing);
}

#[test]
fn public_python_template() {
    let p = Python::new();
    assert_eq!(
        p.base_url(),
        "https://bitbucket.org/louder/python-template-public/raw/main/"
    );
    assert_eq!(
        *p.files(),
        vec![
            ".editorconfig",
            ".gitignore",
            ".pre-commit-config.yaml",
            "README.md",
            "noxfile.py",
            "requirements-dev.txt",
            "setup.cfg",
        ]
    );
    let tasks = p.execute("/work", &"proj".to_string());
    assert_eq!(tasks.len(), 7);
    assert_eq!(tasks[0].file, ".editorconfig");
    assert_eq!(tasks[6].file, "setup.cfg");
    assert_eq!(
        tasks[0].url,
        "https://bitbucket.org/louder/python-template-public/raw/main/.editorconfig"
    );
    assert_eq!(tasks[0].path, "/work/proj//.editorconfig");
    assert_eq!(
        tasks[6].url,
        "https://bitbucket.org/louder/python-template-public/raw/main/setup.cfg"
    );
    assert_eq!(tasks[6].path, "/work/proj//setup.cfg");
}

#[test]
fn python_plan_is_exact() {
    let plan = execute("/work", "demo", "py").unwrap();
    assert_eq!(plan.banner, "Creating Python project `demo`");
    assert_eq!(plan.root_dir, "/work/demo");
    assert!(plan.guarded);
    assert_eq!(plan.fetches.len(), 12);
    assert_eq!(plan.fetches[0].file, ".editorconfig");
    assert_eq!(
        plan.fetches[0].url,
        "https://raw.githubusercontent.com/sam-kenney/python-template/main/.editorconfig"
    );
    assert_eq!(plan.fetches[0].path, "/work/demo/.editorconfig");
    assert_eq!(
        plan.fetches[11].url,
        "https://raw.githubusercontent.com/sam-kenney/python-template/main/.github/workflows/github-actions-ruff.yml"
    );
    assert_eq!(
        plan.fetches[11].path,
        "/work/demo/.github/workflows/github-actions-ruff.yml"
    );
    let setup = plan.setup.unwrap();
    assert_eq!(setup.program, "python3");
    assert_eq!(setup.args, vec!["-m", "venv", "/work/demo/venv"]);
    let repo = plan.repo.unwrap();
    assert_eq!(repo.program, "git");
    assert_eq!(repo.args, vec!["init", "/work/demo"]);
}

#[test]
fn ruby_and_cpp_plans() {
    let plan = execute("/work", "demo", "rb").unwrap();
    assert_eq!(plan.banner, "Creating Ruby project `demo`");
    assert!(plan.guarded);
    assert_eq!(plan.fetches.len(), 9);
    assert_eq!(plan.fetches[8].path, "/work/demo/Rakefile");
    assert!(plan.setup.is_none());
    assert_eq!(plan.repo.unwrap().args, vec!["init", "/work/demo"]);

    let same = ruby("/work", "demo");
    assert_eq!(same.fetches.len(), 9);
    assert_eq!(same.banner, "Creating Ruby project `demo`");

    let plan = cpp("/work", "demo");
    assert_eq!(plan.banner, "Creating C++ project `demo`");
    assert_eq!(plan.fetches.len(), 9);
    assert_eq!(
        plan.fetches[0].url,
        "https://raw.githubusercontent.com/sam-kenney/cpp-template/main/src/Main.cpp"
    );
    assert!(plan.setup.is_none());
    assert!(plan.repo.is_some());

    let plan = python("/work", "demo");
    assert_eq!(plan.fetches.len(), 12);
}

#[test]
fn rust_plan_leaves_the_work_to_cargo() {
    let plan = execute("/work", "demo", "rs").unwrap();
    assert_eq!(plan.banner, "Creating Rust project `demo`");
    assert_eq!(plan.root_dir, "/work/demo");
    assert!(!plan.guarded);
    assert!(plan.fetches.is_empty());
    let setup = plan.setup.unwrap();
    assert_eq!(setup.program, "cargo");
    assert_eq!(setup.args, vec!["new", "demo"]);
    assert!(plan.repo.is_none());
    let same = rust("/work", "demo");
    assert!(!same.guarded);
}

#[test]
fn unsupported_language_gives_no_plan() {
    assert!(execute("/work", "demo", "cpp").is_none());
    assert!(execute("/work", "demo", "go").is_none());
    assert!(execute("/work", "demo", "").is_none());
    assert_eq!(unsupported_message("go"), "Language `go` not yet supported");
}
