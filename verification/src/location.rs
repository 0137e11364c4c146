//! Source locations recorded in error nodes.

use vstd::prelude::*;

use crate::decimal::dec_seq;
use crate::decimal::u64_to_decimal;

verus! {

/// A source location captured when an error node is constructed:
/// file, line and column. Immutable after construction.
pub struct SourceLocation {
    /// The file this location points into.
    pub file: String,
    /// The line this location points at.
    pub line: u32,
    /// The column this location points at.
    pub column: u32,
}

impl SourceLocation {
    /// The file this location points into.
    pub open spec fn spec_file(self) -> Seq<char> {
        self.file@
    }

    /// The line this location points at.
    pub open spec fn spec_line(self) -> u32 {
        self.line
    }

    /// The column this location points at.
    pub open spec fn spec_column(self) -> u32 {
        self.column
    }

    /// The canonical `file:line:column` rendering.
    pub open spec fn spec_render(self) -> Seq<char> {
        self.file@ + ":"@ + dec_seq(self.line as nat) + ":"@ + dec_seq(
            self.column as nat,
        )
    }

    /// Records a source location.
    pub fn new(file: String, line: u32, column: u32) -> (loc: SourceLocation)
        ensures
            loc.spec_file() == file@,
            loc.spec_line() == line,
            loc.spec_column() == column,
    {
        SourceLocation { file, line, column }
    }

    /// Renders this location as `file:line:column`.
    pub fn render(&self) -> (s: String)
        ensures
            s@ == self.spec_render(),
    {
        let mut s = self.file.clone();
        s.append(":");
        s.append(u64_to_decimal(self.line as u64).as_str());
        s.append(":");
        s.append(u64_to_decimal(self.column as u64).as_str());
        assert(s@ =~= self.spec_render());
        s
    }
}

impl Clone for SourceLocation {
    /// A clone carries the same file, line and column.
    fn clone(&self) -> (loc: Self)
        ensures
            loc.spec_file() == self.spec_file(),
            loc.spec_line() == self.spec_line(),
            loc.spec_column() == self.spec_column(),
    {
        SourceLocation { file: self.file.clone(), line: self.line, column: self.column }
    }
}

} // verus!
