//! Laws of the generation plan: what every plan contains, for every choice of
//! options, stated over the spec functions of `plan` and proved once and for
//! all.

use vstd::prelude::*;

use crate::options::{BuildTools, Language};
use crate::plan::{
    spec_artifact_actions, spec_cmake_file, spec_cmake_lang, spec_compiler, spec_ext,
    spec_main_file, spec_plan, spec_run_script, ActionSpec,
};

verus! {

/// `needle` occurs in `hay` starting at position `i`.
pub open spec fn contains_at(hay: Seq<char>, i: int, needle: Seq<char>) -> bool {
    &&& 0 <= i
    &&& i + needle.len() <= hay.len()
    &&& hay.subrange(i, i + needle.len()) == needle
}

/// `needle` occurs somewhere in `hay` as a contiguous substring.
pub open spec fn contains_seq(hay: Seq<char>, needle: Seq<char>) -> bool {
    exists|i: int| contains_at(hay, i, needle)
}

/// A sequence contains anything it is built around.
proof fn lemma_concat_contains(pre: Seq<char>, needle: Seq<char>, post: Seq<char>)
    ensures
        contains_seq(pre + needle + post, needle),
{
    let hay = pre + needle + post;
    assert(hay.subrange(pre.len() as int, pre.len() + needle.len() as int) =~= needle);
    assert(contains_at(hay, pre.len() as int, needle));
}

/// The action is a write of a file at exactly the given path.
pub open spec fn is_write_to(a: ActionSpec, p: Seq<char>) -> bool {
    a matches ActionSpec::WriteFile { path, .. } && path == p
}

/// The position of the repository-init action in the plan, when version
/// control was requested: right after the base structure and the build-tool
/// artifact.
pub open spec fn spec_git_index(tool: BuildTools) -> int {
    2 + spec_artifact_actions(tool, Seq::empty(), Seq::empty(), Language::C).len() as int
}

/// Law: every plan starts by creating the source directory and writing the
/// entry file `src/main.<ext>` under the project root, with extension `.c`
/// for C and `.cpp` for C++.
pub proof fn lemma_plan_creates_entry_file(
    tool: BuildTools,
    path: Seq<char>,
    name: Seq<char>,
    lang: Language,
    git: bool,
    readme: bool,
)
    ensures
        ({
            let plan = spec_plan(tool, path, name, lang, git, readme);
            &&& plan.len() >= 3
            &&& plan[0] == (ActionSpec::CreateDirAll { path: path + "/src"@ })
            &&& plan[1] == (ActionSpec::WriteFile {
                path: path + "/src/main"@ + spec_ext(lang),
                contents: spec_main_file(lang),
                executable: false,
            })
        }),
        lang is C ==> spec_ext(lang) == ".c"@,
        lang is Cpp ==> spec_ext(lang) == ".cpp"@,
{
}

/// Law: for every compiler build tool the plan writes an owner-executable
/// `run` script right after the base structure, whose content is exactly
/// `<compiler> -o main ./src/main<ext> && ./main`, with the extension that
/// the chosen language selects — and no build directory is created.
pub proof fn lemma_plan_run_script(
    tool: BuildTools,
    path: Seq<char>,
    name: Seq<char>,
    lang: Language,
    git: bool,
    readme: bool,
)
    requires
        tool != BuildTools::CMake,
    ensures
        ({
            let plan = spec_plan(tool, path, name, lang, git, readme);
            &&& plan[2] == (ActionSpec::WriteFile {
                path: path + "/run"@,
                contents: spec_run_script(tool, lang),
                executable: true,
            })
            &&& forall|j: int| 0 <= j < plan.len() ==> !((#[trigger] plan[j]) is CreateDir)
        }),
        spec_run_script(tool, lang) == spec_compiler(tool) + " -o main ./src/main"@ + spec_ext(
            lang,
        ) + " && ./main"@,
        lang is C ==> spec_ext(lang) == ".c"@,
        lang is Cpp ==> spec_ext(lang) == ".cpp"@,
{
}

/// Law: with CMake as the build tool the plan creates the `build/` directory
/// and writes a `CMakeLists.txt` that contains the literal substring
/// `project(<name> <LANG>)`, with `C` for C and `CXX` for C++.
pub proof fn lemma_plan_cmake_artifacts(
    path: Seq<char>,
    name: Seq<char>,
    lang: Language,
    git: bool,
    readme: bool,
)
    ensures
        ({
            let plan = spec_plan(BuildTools::CMake, path, name, lang, git, readme);
            &&& plan[2] == (ActionSpec::CreateDir { path: path + "/build"@ })
            &&& plan[3] == (ActionSpec::WriteFile {
                path: path + "/CMakeLists.txt"@,
                contents: spec_cmake_file(name, lang),
                executable: false,
            })
        }),
        contains_seq(
            spec_cmake_file(name, lang),
            "project("@ + name + " "@ + spec_cmake_lang(lang) + ")"@,
        ),
        lang is C ==> spec_cmake_lang(lang) == "C"@,
        lang is Cpp ==> spec_cmake_lang(lang) == "CXX"@,
{
    let pre = "cmake_minimum_required(VERSION 3.14)\n\n"@;
    let needle = "project("@ + name + " "@ + spec_cmake_lang(lang) + ")"@;
    let post = "\n\nset(src\nsrc/main"@ + spec_ext(lang) + "\n)\n\n"@ + "add_executable("@ + name
        + " ${src})"@;
    reveal_strlit("cmake_minimum_required(VERSION 3.14)\n");
    reveal_strlit("cmake_minimum_required(VERSION 3.14)\n\n");
    reveal_strlit("\nproject(");
    reveal_strlit("project(");
    assert(spec_cmake_file(name, lang) =~= pre + needle + post);
    lemma_concat_contains(pre, needle, post);
}

/// Law: the ignore file is planned exactly when version control was
/// requested, and then as the action right after the repository-init action,
/// never before it — so a failed initialization leaves no ignore file.
pub proof fn lemma_gitignore_needs_git_init(
    tool: BuildTools,
    path: Seq<char>,
    name: Seq<char>,
    lang: Language,
    git: bool,
    readme: bool,
)
    ensures
        ({
            let plan = spec_plan(tool, path, name, lang, git, readme);
            &&& git ==> plan[spec_git_index(tool)] == (ActionSpec::GitInit { path: path })
            &&& git ==> plan[spec_git_index(tool) + 1] == (ActionSpec::WriteFile {
                path: path + "/.gitignore"@,
                contents: "build"@,
                executable: false,
            })
            &&& forall|j: int|
                0 <= j < plan.len() && is_write_to(#[trigger] plan[j], path + "/.gitignore"@)
                    ==> git && j == spec_git_index(tool) + 1
        }),
{
    let plan = spec_plan(tool, path, name, lang, git, readme);
    let gi = path + "/.gitignore"@;
    reveal_strlit("/src/main");
    reveal_strlit(".c");
    reveal_strlit(".cpp");
    reveal_strlit("/.gitignore");
    reveal_strlit("/run");
    reveal_strlit("/CMakeLists.txt");
    reveal_strlit("/readme.md");
    let l = path.len() as int;
    assert((path + "/src/main"@ + ".c"@)[l + 1] == 's');
    assert((path + "/src/main"@ + ".cpp"@).len() == l + 13);
    assert((path + "/run"@).len() == l + 4);
    assert((path + "/CMakeLists.txt"@).len() == l + 15);
    assert((path + "/readme.md"@).len() == l + 10);
    assert(gi.len() == l + 11);
    assert(gi[l + 1] == '.');
    assert(!is_write_to(plan[1], gi));
}

/// Law: the empty readme file is planned exactly when it was requested, and
/// then as the last action of the plan.
pub proof fn lemma_readme_action(
    tool: BuildTools,
    path: Seq<char>,
    name: Seq<char>,
    lang: Language,
    git: bool,
    readme: bool,
)
    ensures
        ({
            let plan = spec_plan(tool, path, name, lang, git, readme);
            &&& readme ==> plan.last() == (ActionSpec::WriteFile {
                path: path + "/readme.md"@,
                contents: Seq::<char>::empty(),
                executable: false,
            })
            &&& forall|j: int|
                0 <= j < plan.len() && is_write_to(#[trigger] plan[j], path + "/readme.md"@)
                    ==> readme && j == plan.len() - 1
        }),
{
    let plan = spec_plan(tool, path, name, lang, git, readme);
    let rm = path + "/readme.md"@;
    reveal_strlit("/src/main");
    reveal_strlit(".c");
    reveal_strlit(".cpp");
    reveal_strlit("/.gitignore");
    reveal_strlit("/run");
    reveal_strlit("/CMakeLists.txt");
    reveal_strlit("/readme.md");
    let l = path.len() as int;
    assert((path + "/src/main"@ + ".c"@).len() == l + 11);
    assert((path + "/src/main"@ + ".cpp"@).len() == l + 13);
    assert((path + "/run"@).len() == l + 4);
    assert((path + "/CMakeLists.txt"@).len() == l + 15);
    assert((path + "/.gitignore"@).len() == l + 11);
    assert(rm.len() == l + 10);
}

} // verus!
