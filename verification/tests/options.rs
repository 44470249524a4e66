use cenv::{BuildTools, Language, Opt};
use cenv::report::git_init_error_message;
use cenv::{to_green, to_red};

fn opt_with(build_type: BuildTools, c: bool, cpp: bool) -> Opt {
    Opt { project_name: String::from("demo"), build_type, c, cpp, git: false, readme: false }
}

#[test]
fn lang_defaults_to_cpp() {
    let opt = opt_with(BuildTools::CMake, false, true);
    assert_eq!(opt.lang(), Language::Cpp);
}

#[test]
fn lang_c_flag_wins_over_cpp_flag() {
    let opt = opt_with(BuildTools::CMake, true, true);
    assert_eq!(opt.lang(), Language::C);
    let opt = opt_with(BuildTools::CMake, true, false);
    assert_eq!(opt.lang(), Language::C);
}

#[test]
fn check_build_tools_passes_every_tool_through() {
    let tools = [
        BuildTools::Gcc,
        BuildTools::Gpp,
        BuildTools::CMake,
        BuildTools::Clang,
        BuildTools::Clangpp,
    ];
    for &tool in &tools {
        for &c in &[false, true] {
            let opt = opt_with(tool, c, !c);
            assert_eq!(opt.check_build_tools(), tool);
        }
    }
}

#[test]
fn check_path_accepts_a_free_path() {
    let opt = opt_with(BuildTools::CMake, false, true);
    assert!(opt.check_path(false).is_ok());
}

#[test]
fn check_path_rejects_a_taken_path() {
    let opt = opt_with(BuildTools::CMake, false, true);
    let err = opt.check_path(true).unwrap_err();
    assert_eq!(err, "\x1b[38;5;160m\u{2718}\x1b[m The `demo` already exists!");
}

#[test]
fn to_green_wraps_in_green_escape_codes() {
    assert_eq!(to_green("ok"), "\x1b[38;5;10mok\x1b[m");
    assert_eq!(to_green(""), "\x1b[38;5;10m\x1b[m");
}

#[test]
fn to_red_wraps_in_red_escape_codes() {
    assert_eq!(to_red("bad"), "\x1b[38;5;160mbad\x1b[m");
}

#[test]
fn language_display_names() {
    assert_eq!(Language::C.to_string(), "C");
    assert_eq!(Language::Cpp.to_string(), "C++");
}

#[test]
fn build_tool_display_names() {
    assert_eq!(BuildTools::Gcc.to_string(), "gcc");
    assert_eq!(BuildTools::Gpp.to_string(), "g++");
    assert_eq!(BuildTools::CMake.to_string(), "CMake");
    assert_eq!(BuildTools::Clang.to_string(), "Clang");
    assert_eq!(BuildTools::Clangpp.to_string(), "Clang++");
}

#[test]
fn git_init_error_message_names_git() {
    let msg = git_init_error_message();
    assert_eq!(
        msg,
        "\x1b[38;5;160m\u{2718}\x1b[m Fatal error during Git initialization:\n\tis Git installed and the project path writable?"
    );
}
