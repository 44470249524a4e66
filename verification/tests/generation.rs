use cenv::{BuildTools, FsAction, Language};

fn dir_all_path(action: &FsAction) -> &str {
    match action {
        FsAction::CreateDirAll { path } => path,
        _ => panic!("expected a recursive directory creation"),
    }
}

fn dir_path(action: &FsAction) -> &str {
    match action {
        FsAction::CreateDir { path } => path,
        _ => panic!("expected a directory creation"),
    }
}

fn file_parts(action: &FsAction) -> (&str, &str, bool) {
    match action {
        FsAction::WriteFile { path, contents, executable } => (path, contents, *executable),
        _ => panic!("expected a file write"),
    }
}

#[test]
fn default_invocation_generates_a_cmake_cpp_project() {
    let plan = BuildTools::CMake.generate_project("demo", "demo", &Language::Cpp, false, false);
    assert_eq!(plan.len(), 4);
    assert_eq!(dir_all_path(&plan[0]), "demo/src");
    let (path, contents, executable) = file_parts(&plan[1]);
    assert_eq!(path, "demo/src/main.cpp");
    assert_eq!(contents, "#include <iostream>\n\nint main() {\n\n}\n");
    assert!(!executable);
    assert_eq!(dir_path(&plan[2]), "demo/build");
    let (path, contents, executable) = file_parts(&plan[3]);
    assert_eq!(path, "demo/CMakeLists.txt");
    assert_eq!(
        contents,
        "cmake_minimum_required(VERSION 3.14)\n\nproject(demo CXX)\n\nset(src\nsrc/main.cpp\n)\n\nadd_executable(demo ${src})"
    );
    assert!(!executable);
}

#[test]
fn gcc_with_c_generates_a_run_script_and_no_build_dir() {
    let plan = BuildTools::Gcc.generate_project("demo2", "demo2", &Language::C, false, false);
    assert_eq!(plan.len(), 3);
    assert_eq!(dir_all_path(&plan[0]), "demo2/src");
    let (path, contents, executable) = file_parts(&plan[1]);
    assert_eq!(path, "demo2/src/main.c");
    assert_eq!(contents, "#include <stdio.h>\n\nint main() {\n\n}\n");
    assert!(!executable);
    let (path, contents, executable) = file_parts(&plan[2]);
    assert_eq!(path, "demo2/run");
    assert_eq!(contents, "gcc -o main ./src/main.c && ./main");
    assert!(executable);
    assert!(plan.iter().all(|a| !matches!(a, FsAction::CreateDir { .. })));
}

#[test]
fn every_compiler_tool_gets_its_exact_run_script() {
    let cases = [
        (BuildTools::Gcc, "gcc"),
        (BuildTools::Gpp, "g++"),
        (BuildTools::Clang, "clang"),
        (BuildTools::Clangpp, "clang++"),
    ];
    for &(tool, command) in &cases {
        for &(lang, ext) in &[(Language::C, ".c"), (Language::Cpp, ".cpp")] {
            let plan = tool.generate_project("p", "p", &lang, false, false);
            assert_eq!(plan.len(), 3);
            let (path, contents, executable) = file_parts(&plan[2]);
            assert_eq!(path, "p/run");
            assert_eq!(contents, format!("{} -o main ./src/main{} && ./main", command, ext));
            assert!(executable);
        }
    }
}

#[test]
fn entry_file_extension_follows_the_language() {
    for &(lang, expected) in &[(Language::C, "p/src/main.c"), (Language::Cpp, "p/src/main.cpp")] {
        for &tool in &[BuildTools::CMake, BuildTools::Gpp] {
            let plan = tool.generate_project("p", "p", &lang, false, false);
            let (path, _, _) = file_parts(&plan[1]);
            assert_eq!(path, expected);
        }
    }
}

#[test]
fn cmake_project_line_uses_c_for_c() {
    let plan = BuildTools::CMake.generate_project("proj", "proj", &Language::C, false, false);
    assert_eq!(dir_path(&plan[2]), "proj/build");
    let (path, contents, _) = file_parts(&plan[3]);
    assert_eq!(path, "proj/CMakeLists.txt");
    assert!(contents.contains("project(proj C)"));
    assert!(contents.contains("src/main.c\n"));
}

#[test]
fn gitignore_is_planned_right_after_git_init() {
    let plan = BuildTools::Gcc.generate_project("p", "p", &Language::Cpp, true, false);
    assert_eq!(plan.len(), 5);
    assert!(matches!(&plan[3], FsAction::GitInit { path } if path == "p"));
    let (path, contents, executable) = file_parts(&plan[4]);
    assert_eq!(path, "p/.gitignore");
    assert_eq!(contents, "build");
    assert!(!executable);
}

#[test]
fn no_gitignore_without_the_git_flag() {
    let plan = BuildTools::CMake.generate_project("p", "p", &Language::Cpp, false, true);
    for action in &plan {
        assert!(!matches!(action, FsAction::GitInit { .. }));
        if let FsAction::WriteFile { path, .. } = action {
            assert_ne!(path, "p/.gitignore");
        }
    }
}

#[test]
fn readme_is_planned_last_and_empty() {
    let plan = BuildTools::CMake.generate_project("p", "p", &Language::Cpp, true, true);
    assert_eq!(plan.len(), 7);
    let (path, contents, executable) = file_parts(&plan[6]);
    assert_eq!(path, "p/readme.md");
    assert_eq!(contents, "");
    assert!(!executable);
}

#[test]
fn no_readme_without_the_readme_flag() {
    let plan = BuildTools::Gcc.generate_project("p", "p", &Language::C, true, false);
    for action in &plan {
        if let FsAction::WriteFile { path, .. } = action {
            assert_ne!(path, "p/readme.md");
        }
    }
}
