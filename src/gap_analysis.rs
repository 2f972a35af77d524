//! Function-level comparison of two codebases.
use vstd::prelude::*;

use crate::parser::CodeParser;

verus! {

/// A function, as the gap analysis sees it.
#[derive(Debug, Clone, PartialEq, Eq, Hash)]
pub struct FunctionInfo {
    pub name: String,
    pub module: String,
    pub file_path: String,
    pub signature: String,
}

/// Compares the functions of two codebases.
pub struct GapAnalyzer {
    parser: CodeParser,
}

impl GapAnalyzer {
    pub closed spec fn parser_view(&self) -> CodeParser {
        self.parser
    }

    /// An analyzer whose parser has parsed nothing.
    pub fn new() -> (r: GapAnalyzer)
        ensures
            r.parser_view().processed() == 0,
    {
        GapAnalyzer { parser: CodeParser::new() }
    }

    /// The parser used for both codebases.
    pub fn parser(&self) -> (r: &CodeParser)
        ensures
            *r == self.parser_view(),
    {
        &self.parser
    }
}

impl Default for GapAnalyzer {
    fn default() -> (r: GapAnalyzer)
        ensures
            r.parser_view().processed() == 0,
    {
        GapAnalyzer::new()
    }
}

} // verus!
