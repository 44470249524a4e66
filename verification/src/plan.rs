//! The project generator: every file and directory of the new project is
//! computed here as an ordered plan of filesystem actions, with the exact
//! contents of each generated file pinned down by spec functions.

use vstd::prelude::*;
use vstd::string::StringExecFns;

use crate::options::{BuildTools, Language};

verus! {

/// One filesystem action of the generation plan. The surrounding binary
/// executes the actions in order and stops at the first failure.
pub enum FsAction {
    /// Create a directory together with any missing parents.
    CreateDirAll { path: String },
    /// Create a directory whose parent already exists.
    CreateDir { path: String },
    /// Write a file with the given contents; `executable` asks for owner
    /// execute permission on it.
    WriteFile { path: String, contents: String, executable: bool },
    /// Run the version-control binary with `init` inside `path`; a failure
    /// here aborts the rest of the plan.
    GitInit { path: String },
}

/// The mathematical model of one filesystem action.
pub ghost enum ActionSpec {
    CreateDirAll { path: Seq<char> },
    CreateDir { path: Seq<char> },
    WriteFile { path: Seq<char>, contents: Seq<char>, executable: bool },
    GitInit { path: Seq<char> },
}

impl View for FsAction {
    type V = ActionSpec;

    open spec fn view(&self) -> ActionSpec {
        match self {
            FsAction::CreateDirAll { path } => ActionSpec::CreateDirAll { path: path@ },
            FsAction::CreateDir { path } => ActionSpec::CreateDir { path: path@ },
            FsAction::WriteFile { path, contents, executable } => ActionSpec::WriteFile {
                path: path@,
                contents: contents@,
                executable: *executable,
            },
            FsAction::GitInit { path } => ActionSpec::GitInit { path: path@ },
        }
    }
}

impl DeepView for FsAction {
    type V = ActionSpec;

    open spec fn deep_view(&self) -> ActionSpec {
        self.view()
    }
}

/// The extension of the project's entry file.
pub open spec fn spec_ext(lang: Language) -> Seq<char> {
    match lang {
        Language::C => ".c"@,
        Language::Cpp => ".cpp"@,
    }
}

/// The standard header included by the generated entry file.
pub open spec fn spec_header(lang: Language) -> Seq<char> {
    match lang {
        Language::C => "stdio.h"@,
        Language::Cpp => "iostream"@,
    }
}

/// The contents of the generated entry file: the language's minimal standard
/// header followed by an empty `main`.
pub open spec fn spec_main_file(lang: Language) -> Seq<char> {
    "#include <"@ + spec_header(lang) + ">\n\nint main() {\n\n}\n"@
}

/// The command name of a compiler build tool (empty for CMake, which gets a
/// project file instead of a run script).
pub open spec fn spec_compiler(tool: BuildTools) -> Seq<char> {
    match tool {
        BuildTools::Gcc => "gcc"@,
        BuildTools::Gpp => "g++"@,
        BuildTools::CMake => Seq::empty(),
        BuildTools::Clang => "clang"@,
        BuildTools::Clangpp => "clang++"@,
    }
}

/// The contents of the `run` script generated for a compiler build tool.
pub open spec fn spec_run_script(tool: BuildTools, lang: Language) -> Seq<char> {
    spec_compiler(tool) + " -o main ./src/main"@ + spec_ext(lang) + " && ./main"@
}

/// The language identifier used in the CMake `project` directive.
pub open spec fn spec_cmake_lang(lang: Language) -> Seq<char> {
    match lang {
        Language::C => "C"@,
        Language::Cpp => "CXX"@,
    }
}

/// The contents of the generated `CMakeLists.txt`.
pub open spec fn spec_cmake_file(name: Seq<char>, lang: Language) -> Seq<char> {
    "cmake_minimum_required(VERSION 3.14)\n"@ + "\nproject("@ + name + " "@ + spec_cmake_lang(
        lang,
    ) + ")"@ + "\n\nset(src\nsrc/main"@ + spec_ext(lang) + "\n)\n\n"@ + "add_executable("@ + name
        + " ${src})"@
}

/// The base structure of every project: the source directory and the entry
/// file inside it.
pub open spec fn spec_base_actions(path: Seq<char>, lang: Language) -> Seq<ActionSpec> {
    seq![
        ActionSpec::CreateDirAll { path: path + "/src"@ },
        ActionSpec::WriteFile {
            path: path + "/src/main"@ + spec_ext(lang),
            contents: spec_main_file(lang),
            executable: false,
        },
    ]
}

/// The build-tool artifact: an owner-executable `run` script for the compiler
/// tools, or an empty `build/` directory plus a `CMakeLists.txt` for CMake.
pub open spec fn spec_artifact_actions(
    tool: BuildTools,
    path: Seq<char>,
    name: Seq<char>,
    lang: Language,
) -> Seq<ActionSpec> {
    match tool {
        BuildTools::CMake => seq![
            ActionSpec::CreateDir { path: path + "/build"@ },
            ActionSpec::WriteFile {
                path: path + "/CMakeLists.txt"@,
                contents: spec_cmake_file(name, lang),
                executable: false,
            },
        ],
        _ => seq![
            ActionSpec::WriteFile {
                path: path + "/run"@,
                contents: spec_run_script(tool, lang),
                executable: true,
            },
        ],
    }
}

/// The optional version-control actions: repository initialization, then the
/// ignore file — in that order, so that a failed initialization leaves no
/// ignore file behind.
pub open spec fn spec_git_actions(path: Seq<char>, git: bool) -> Seq<ActionSpec> {
    if git {
        seq![
            ActionSpec::GitInit { path: path },
            ActionSpec::WriteFile {
                path: path + "/.gitignore"@,
                contents: "build"@,
                executable: false,
            },
        ]
    } else {
        Seq::empty()
    }
}

/// The optional readme action: one empty file.
pub open spec fn spec_readme_actions(path: Seq<char>, readme: bool) -> Seq<ActionSpec> {
    if readme {
        seq![
            ActionSpec::WriteFile {
                path: path + "/readme.md"@,
                contents: Seq::empty(),
                executable: false,
            },
        ]
    } else {
        Seq::empty()
    }
}

/// The whole generation plan, in execution order: base structure, build-tool
/// artifact, optional version control, optional readme.
pub open spec fn spec_plan(
    tool: BuildTools,
    path: Seq<char>,
    name: Seq<char>,
    lang: Language,
    git: bool,
    readme: bool,
) -> Seq<ActionSpec> {
    spec_base_actions(path, lang) + spec_artifact_actions(tool, path, name, lang)
        + spec_git_actions(path, git) + spec_readme_actions(path, readme)
}

/// Concatenates a path with a suffix.
fn join(path: &str, rest: &str) -> (r: String)
    ensures
        r@ == path@ + rest@,
{
    let mut s = String::from_str(path);
    s.append(rest);
    s
}

/// Builds the contents of the entry file for the given language.
fn main_file_contents(lang: &Language) -> (r: String)
    ensures
        r@ == spec_main_file(*lang),
{
    let header: &str = match lang {
        Language::C => "stdio.h",
        Language::Cpp => "iostream",
    };
    let mut s = String::from_str("#include <");
    s.append(header);
    s.append(">\n\nint main() {\n\n}\n");
    s
}

/// The extension of the entry file for the given language.
fn ext_str(lang: &Language) -> (r: &'static str)
    ensures
        r@ == spec_ext(*lang),
{
    match lang {
        Language::C => ".c",
        Language::Cpp => ".cpp",
    }
}

/// Builds the contents of the `run` script for a compiler command.
fn run_script_contents(compiler: &str, lang: &Language) -> (r: String)
    ensures
        r@ == compiler@ + " -o main ./src/main"@ + spec_ext(*lang) + " && ./main"@,
{
    let mut s = String::from_str(compiler);
    s.append(" -o main ./src/main");
    s.append(ext_str(lang));
    s.append(" && ./main");
    s
}

impl BuildTools {
    /// Computes the whole generation plan for a project rooted at `path` and
    /// named `p_name` (the two coincide for the command-line tool), in the
    /// order the actions must be executed.
    pub fn generate_project(
        &self,
        path: &str,
        p_name: &str,
        lang: &Language,
        git: bool,
        readme: bool,
    ) -> (plan: Vec<FsAction>)
        ensures
            plan.deep_view() == spec_plan(*self, path@, p_name@, *lang, git, readme),
    {
        let mut plan: Vec<FsAction> = Vec::new();
        Self::base_gen(&mut plan, path, lang);

        match self {
            BuildTools::Gcc => Self::gcc_gen(&mut plan, path, lang),
            BuildTools::Gpp => Self::gpp_gen(&mut plan, path, lang),
            BuildTools::CMake => Self::cmake_gen(&mut plan, path, p_name, lang),
            BuildTools::Clang => Self::clang_gen(&mut plan, path, lang),
            BuildTools::Clangpp => Self::clangpp_gen(&mut plan, path, lang),
        }

        if git {
            plan.push(FsAction::GitInit { path: String::from_str(path) });
            plan.push(
                FsAction::WriteFile {
                    path: join(path, "/.gitignore"),
                    contents: String::from_str("build"),
                    executable: false,
                },
            );
        }

        if readme {
            plan.push(
                FsAction::WriteFile {
                    path: join(path, "/readme.md"),
                    contents: String::new(),
                    executable: false,
                },
            );
        }

        proof {
            assert(plan.deep_view() =~= spec_plan(*self, path@, p_name@, *lang, git, readme));
        }
        plan
    }

    /// Appends the base structure: the source directory and the entry file.
    fn base_gen(plan: &mut Vec<FsAction>, path: &str, lang: &Language)
        ensures
            final(plan).deep_view() == old(plan).deep_view() + spec_base_actions(path@, *lang),
    {
        plan.push(FsAction::CreateDirAll { path: join(path, "/src") });

        let mut main_path = join(path, "/src/main");
        main_path.append(ext_str(lang));
        plan.push(
            FsAction::WriteFile {
                path: main_path,
                contents: main_file_contents(lang),
                executable: false,
            },
        );

        proof {
            assert(plan.deep_view() =~= old(plan).deep_view() + spec_base_actions(path@, *lang));
        }
    }

    /// Appends the gcc artifact: the `run` script.
    fn gcc_gen(plan: &mut Vec<FsAction>, path: &str, lang: &Language)
        ensures
            final(plan).deep_view() == old(plan).deep_view() + spec_artifact_actions(
                BuildTools::Gcc,
                path@,
                Seq::empty(),
                *lang,
            ),
    {
        plan.push(
            FsAction::WriteFile {
                path: join(path, "/run"),
                contents: run_script_contents("gcc", lang),
                executable: true,
            },
        );
        proof {
            assert(plan.deep_view() =~= old(plan).deep_view() + spec_artifact_actions(
                BuildTools::Gcc,
                path@,
                Seq::empty(),
                *lang,
            ));
        }
    }

    /// Appends the g++ artifact: the `run` script.
    fn gpp_gen(plan: &mut Vec<FsAction>, path: &str, lang: &Language)
        ensures
            final(plan).deep_view() == old(plan).deep_view() + spec_artifact_actions(
                BuildTools::Gpp,
                path@,
                Seq::empty(),
                *lang,
            ),
    {
        plan.push(
            FsAction::WriteFile {
                path: join(path, "/run"),
                contents: run_script_contents("g++", lang),
                executable: true,
            },
        );
        proof {
            assert(plan.deep_view() =~= old(plan).deep_view() + spec_artifact_actions(
                BuildTools::Gpp,
                path@,
                Seq::empty(),
                *lang,
            ));
        }
    }

    /// Appends the CMake artifact: the empty `build/` directory and the
    /// `CMakeLists.txt` project file.
    fn cmake_gen(plan: &mut Vec<FsAction>, path: &str, p_name: &str, lang: &Language)
        ensures
            final(plan).deep_view() == old(plan).deep_view() + spec_artifact_actions(
                BuildTools::CMake,
                path@,
                p_name@,
                *lang,
            ),
    {
        plan.push(FsAction::CreateDir { path: join(path, "/build") });

        let mut sb = String::new();
        sb.append("cmake_minimum_required(VERSION 3.14)\n");
        sb.append("\nproject(");
        sb.append(p_name);
        sb.append(" ");
        sb.append(
            match lang {
                Language::C => "C",
                Language::Cpp => "CXX",
            },
        );
        sb.append(")");
        sb.append("\n\nset(src\nsrc/main");
        sb.append(ext_str(lang));
        sb.append("\n)\n\n");
        sb.append("add_executable(");
        sb.append(p_name);
        sb.append(" ${src})");

        proof {
            assert(sb@ =~= spec_cmake_file(p_name@, *lang));
        }

        plan.push(
            FsAction::WriteFile {
                path: join(path, "/CMakeLists.txt"),
                contents: sb,
                executable: false,
            },
        );

        proof {
            assert(plan.deep_view() =~= old(plan).deep_view() + spec_artifact_actions(
                BuildTools::CMake,
                path@,
                p_name@,
                *lang,
            ));
        }
    }

    /// Appends the clang artifact: the `run` script.
    fn clang_gen(plan: &mut Vec<FsAction>, path: &str, lang: &Language)
        ensures
            final(plan).deep_view() == old(plan).deep_view() + spec_artifact_actions(
                BuildTools::Clang,
                path@,
                Seq::empty(),
                *lang,
            ),
    {
        plan.push(
            FsAction::WriteFile {
                path: join(path, "/run"),
                contents: run_script_contents("clang", lang),
                executable: true,
            },
        );
        proof {
            assert(plan.deep_view() =~= old(plan).deep_view() + spec_artifact_actions(
                BuildTools::Clang,
                path@,
                Seq::empty(),
                *lang,
            ));
        }
    }

    /// Appends the clang++ artifact: the `run` script.
    fn clangpp_gen(plan: &mut Vec<FsAction>, path: &str, lang: &Language)
        ensures
            final(plan).deep_view() == old(plan).deep_view() + spec_artifact_actions(
                BuildTools::Clangpp,
                path@,
                Seq::empty(),
                *lang,
            ),
    {
        plan.push(
            FsAction::WriteFile {
                path: join(path, "/run"),
                contents: run_script_contents("clang++", lang),
                executable: true,
            },
        );
        proof {
            assert(plan.deep_view() =~= old(plan).deep_view() + spec_artifact_actions(
                BuildTools::Clangpp,
                path@,
                Seq::empty(),
                *lang,
            ));
        }
    }
}

} // verus!
