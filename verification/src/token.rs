//! Source positions, as the lexical analyzer hands them on.

use crate::text::{
    append_decimal, decimal, is_digit, lemma_decimal_is_numeral, lemma_decimal_round_trip,
};
use vstd::prelude::*;
use vstd::string::StringExecFns;

verus! {

/// Where a token starts in the source text. Positions are ordered as they
/// occur in the text: by line, then by column.
#[derive(Clone, Copy, Debug, PartialEq, Eq, Structural, PartialOrd, Ord, Hash)]
pub struct TokenPos {
    pub line: usize,
    pub column: usize,
}

impl TokenPos {
    /// How a position reads in a diagnostic: line and column as decimal
    /// numerals with a colon between them.
    pub open spec fn text(self) -> Seq<char> {
        decimal(self.line as nat) + seq![':'] + decimal(self.column as nat)
    }

    /// Two positions that read the same are the same position: a diagnostic
    /// points at one place only.
    pub proof fn lemma_text_tells_positions_apart(self, other: TokenPos)
        requires
            self.text() == other.text(),
        ensures
            self == other,
    {
        let line = decimal(self.line as nat);
        let column = decimal(self.column as nat);
        let other_line = decimal(other.line as nat);
        let other_column = decimal(other.column as nat);
        lemma_decimal_is_numeral(self.line as nat);
        lemma_decimal_is_numeral(other.line as nat);
        lemma_decimal_round_trip(self.line as nat);
        lemma_decimal_round_trip(self.column as nat);
        lemma_decimal_round_trip(other.line as nat);
        lemma_decimal_round_trip(other.column as nat);
        let text = self.text();
        assert(text.len() == line.len() + 1 + column.len());
        assert(text.len() == other_line.len() + 1 + other_column.len());
        // The colon stands where the line ends, and no digit is a colon.
        if line.len() < other_line.len() {
            assert(text[line.len() as int] == ':');
            assert(other.text()[line.len() as int] == other_line[line.len() as int]);
            assert(is_digit(other_line[line.len() as int]));
        }
        if other_line.len() < line.len() {
            assert(other.text()[other_line.len() as int] == ':');
            assert(text[other_line.len() as int] == line[other_line.len() as int]);
            assert(is_digit(line[other_line.len() as int]));
        }
        assert(line =~= other_line) by {
            assert forall|i: int| 0 <= i < line.len() implies line[i] == other_line[i] by {
                assert(text[i] == line[i]);
                assert(other.text()[i] == other_line[i]);
            }
        }
        assert(column =~= other_column) by {
            assert forall|i: int| 0 <= i < column.len() implies column[i] == other_column[i] by {
                assert(text[line.len() + 1 + i] == column[i]);
                assert(other.text()[other_line.len() + 1 + i] == other_column[i]);
            }
        }
    }

    /// Appends the position to `out` as it reads in a diagnostic.
    pub fn append_to(&self, out: &mut String)
        ensures
            final(out)@ == old(out)@ + self.text(),
    {
        append_decimal(out, self.line);
        proof {
            reveal_strlit(":");
        }
        out.append(":");
        append_decimal(out, self.column);
        assert(out@ =~= old(out)@ + self.text());
    }

    /// The position as it reads in a diagnostic.
    pub fn render(&self) -> (s: String)
        ensures
            s@ == self.text(),
    {
        let mut s = String::new();
        self.append_to(&mut s);
        s
    }
}

} // verus!
