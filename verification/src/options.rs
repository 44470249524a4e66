//! The option model: project name, language and build-tool choice, and the
//! two optional extras (version control, readme).

use vstd::prelude::*;
use vstd::string::StringExecFns;

use crate::report::{path_exists_message, spec_path_exists_message};

verus! {

/// The language the new project is generated for.
#[derive(Debug, Clone, Copy, PartialEq, Eq, Structural)]
pub enum Language {
    C,
    Cpp,
}

/// The build tool the new project is generated for.
#[derive(Debug, Clone, Copy, PartialEq, Eq, Structural)]
pub enum BuildTools {
    Gcc,
    Gpp,
    CMake,
    Clang,
    Clangpp,
}

impl Language {
    /// The display name of the language.
    pub open spec fn spec_name(self) -> Seq<char> {
        match self {
            Language::C => "C"@,
            Language::Cpp => "C++"@,
        }
    }

    /// Returns the display name of the language.
    pub fn to_string(&self) -> (name: String)
        ensures
            name@ == self.spec_name(),
    {
        match self {
            Language::C => String::from_str("C"),
            Language::Cpp => String::from_str("C++"),
        }
    }
}

impl BuildTools {
    /// The display name of the build tool.
    pub open spec fn spec_name(self) -> Seq<char> {
        match self {
            BuildTools::Gcc => "gcc"@,
            BuildTools::Gpp => "g++"@,
            BuildTools::CMake => "CMake"@,
            BuildTools::Clang => "Clang"@,
            BuildTools::Clangpp => "Clang++"@,
        }
    }

    /// Returns the display name of the build tool.
    pub fn to_string(&self) -> (name: String)
        ensures
            name@ == self.spec_name(),
    {
        match self {
            BuildTools::Gcc => String::from_str("gcc"),
            BuildTools::Gpp => String::from_str("g++"),
            BuildTools::CMake => String::from_str("CMake"),
            BuildTools::Clang => String::from_str("Clang"),
            BuildTools::Clangpp => String::from_str("Clang++"),
        }
    }
}

/// The resolved command-line options of one invocation.
pub struct Opt {
    /// Name of the project; also the path of the directory to generate.
    pub project_name: String,
    /// The requested build tool (CMake when none was requested).
    pub build_type: BuildTools,
    /// True when the C language was requested.
    pub c: bool,
    /// True when the C++ language was requested (the default); ignored
    /// whenever `c` is set, since C wins.
    pub cpp: bool,
    /// True when a version-control repository is to be initialized.
    pub git: bool,
    /// True when an empty readme file is to be created.
    pub readme: bool,
}

impl Opt {
    /// The language these options resolve to: C when the `c` flag is set,
    /// C++ otherwise, whatever the `cpp` flag says.
    pub open spec fn spec_lang(&self) -> Language {
        if self.c {
            Language::C
        } else {
            Language::Cpp
        }
    }

    /// Resolves the language choice: the `c` flag wins over the `cpp` flag.
    pub fn lang(&self) -> (lang: Language)
        ensures
            lang == self.spec_lang(),
    {
        if self.c {
            Language::C
        } else {
            Language::Cpp
        }
    }

    /// Guards the target path. The caller reports whether a filesystem entry
    /// of any kind already exists at `project_name`; when one does, the
    /// result is the error message to print, and nothing may be generated.
    pub fn check_path(&self, exists: bool) -> (r: Result<(), String>)
        ensures
            r is Ok <==> !exists,
            exists ==> (r matches Err(m) && m@ == spec_path_exists_message(self.project_name@)),
    {
        if exists {
            Err(path_exists_message(self.project_name.as_str()))
        } else {
            Ok(())
        }
    }

    /// Resolves the build tool against the language. The only special cases
    /// are gcc and clang together with C, and both keep the requested tool,
    /// so every combination passes through unchanged.
    pub fn check_build_tools(&self) -> (tool: BuildTools)
        ensures
            tool == self.build_type,
    {
        let lang = self.lang();
        let is_c = lang == Language::C;

        if self.build_type == BuildTools::Gcc && is_c {
            return BuildTools::Gcc;
        }

        if self.build_type == BuildTools::Clang && is_c {
            return BuildTools::Clang;
        }

        self.build_type
    }
}

} // verus!
