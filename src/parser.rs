//! Source languages and the bookkeeping of the code parser.
use vstd::prelude::*;

use crate::json::{owned, str_eq};
use crate::platform::{lowercase_of, to_lowercase};

verus! {

/// A source language the parser knows.
#[derive(Debug, Clone, Copy, PartialEq, Eq)]
pub enum Language {
    Go,
    Rust,
    JavaScript,
    Python,
}

/// The language that the lower-case name `name` stands for.
pub open spec fn language_named(name: Seq<char>) -> Option<Language> {
    if name == "go"@ {
        Some(Language::Go)
    } else if name == "rust"@ {
        Some(Language::Rust)
    } else if name == "javascript"@ || name == "js"@ {
        Some(Language::JavaScript)
    } else if name == "python"@ || name == "py"@ {
        Some(Language::Python)
    } else {
        None
    }
}

/// The file extensions of `l`.
pub open spec fn extensions_of(l: Language) -> Seq<Seq<char>> {
    match l {
        Language::Go => seq!["go"@],
        Language::Rust => seq!["rs"@],
        Language::JavaScript => seq!["js"@, "jsx"@, "ts"@, "tsx"@],
        Language::Python => seq!["py"@],
    }
}

impl Language {
    /// The language named `s`, in any letter case.
    pub fn from_str(s: &str) -> (r: Result<Language, String>)
        ensures
            match language_named(lowercase_of(s@)) {
                Some(l) => r == Ok::<Language, String>(l),
                None => r matches Err(m) && m@ == "Unsupported language: "@ + s@,
            },
    {
        let lower = to_lowercase(s);
        let name = lower.as_str();
        if str_eq(name, "go") {
            Ok(Language::Go)
        } else if str_eq(name, "rust") {
            Ok(Language::Rust)
        } else if str_eq(name, "javascript") || str_eq(name, "js") {
            Ok(Language::JavaScript)
        } else if str_eq(name, "python") || str_eq(name, "py") {
            Ok(Language::Python)
        } else {
            let mut m = owned("Unsupported language: ");
            m.append(s);
            Err(m)
        }
    }

    /// The file extensions of the language.
    pub fn file_extensions(&self) -> (r: Vec<&'static str>)
        ensures
            r@.map_values(|e: &'static str| e@) == extensions_of(*self),
    {
        let r = match self {
            Language::Go => vec!["go"],
            Language::Rust => vec!["rs"],
            Language::JavaScript => vec!["js", "jsx", "ts", "tsx"],
            Language::Python => vec!["py"],
        };
        assert(r@.map_values(|e: &'static str| e@) =~= extensions_of(*self));
        r
    }
}

/// A function found in source code.
#[derive(Debug, Clone)]
pub struct ExtractedFunction {
    pub name: String,
    pub signature: String,
    pub body: String,
    pub file_path: String,
    pub line_number: usize,
    /// Functions this function calls.
    pub calls: Vec<String>,
    /// Functions that call this function.
    pub called_by: Vec<String>,
    pub package: Option<String>,
    pub doc_comment: Option<String>,
}

/// The structure of a codebase.
#[derive(Debug, Clone)]
pub struct CodebaseAnalysis {
    pub total_files: usize,
    pub total_functions: usize,
    /// Each function name with the names it calls.
    pub relationships: Vec<(String, Vec<String>)>,
    pub packages: Vec<String>,
}

/// Counts the files it has parsed.
pub struct CodeParser {
    files_processed: usize,
}

impl CodeParser {
    pub closed spec fn processed(&self) -> usize {
        self.files_processed
    }

    /// A parser that has parsed nothing.
    pub fn new() -> (r: CodeParser)
        ensures
            r.processed() == 0,
    {
        CodeParser { files_processed: 0 }
    }

    /// The number of files parsed so far.
    pub fn get_files_processed(&self) -> (r: usize)
        ensures
            r == self.processed(),
    {
        self.files_processed
    }
}

impl Default for CodeParser {
    fn default() -> (r: CodeParser)
        ensures
            r.processed() == 0,
    {
        CodeParser::new()
    }
}

} // verus!
