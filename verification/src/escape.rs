//! The escape sequences of string and character literals.
//!
//! An escape sequence is spelled with two characters: the escape marker and
//! a designator. It stands for one character.

use vstd::hash_map::StringHashMap;
use vstd::prelude::*;
use vstd::string::StringExecFns;

verus! {

/// The character that every escape sequence begins with.
pub const ESCAPE_MARKER: char = '*';

/// The character with code 4, which ends a string.
pub const END_OF_STRING: char = '\u{4}';

/// The character that the escape sequence with the given designator stands
/// for, or `None` where the designator is not one of the language.
pub open spec fn escape_literal(designator: char) -> Option<char> {
    if designator == '0' {
        Some('\0')
    } else if designator == 'e' {
        Some(END_OF_STRING)
    } else if designator == '(' {
        Some('{')
    } else if designator == ')' {
        Some('}')
    } else if designator == 't' {
        Some('\t')
    } else if designator == '*' {
        Some('*')
    } else if designator == '\'' {
        Some('\'')
    } else if designator == '"' {
        Some('"')
    } else if designator == 'n' {
        Some('\n')
    } else {
        None
    }
}

/// How the escape sequence with the given designator is spelled.
pub open spec fn escape_spelling(designator: char) -> Seq<char> {
    seq![ESCAPE_MARKER, designator]
}

/// The character that `spelling` stands for, or `None` where `spelling` is
/// not an escape sequence of the language.
pub open spec fn escape_value(spelling: Seq<char>) -> Option<char> {
    if spelling.len() == 2 && spelling[0] == ESCAPE_MARKER {
        escape_literal(spelling[1])
    } else {
        None
    }
}

/// The escape sequences as a map: from each spelling to the text, one
/// character long, that it stands for.
pub open spec fn escape_sequences() -> Map<Seq<char>, Seq<char>> {
    Map::new(
        |spelling: Seq<char>| escape_value(spelling) is Some,
        |spelling: Seq<char>| seq![escape_value(spelling)->0],
    )
}

/// What a table of texts holds, each text taken as a sequence of characters.
pub open spec fn texts(table: Map<Seq<char>, String>) -> Map<Seq<char>, Seq<char>> {
    table.map_values(|text: String| text@)
}

/// The number of escape sequences.
pub const ESCAPE_SEQUENCES_SIZE: usize = 9;

/// Enters the escape sequence with the designator `designator` for the
/// character `literal`; both are given as texts of one character.
fn define(table: &mut StringHashMap<String>, designator: &str, literal: &str)
    requires
        designator@.len() == 1,
        literal@.len() == 1,
    ensures
        final(table)@.dom() == old(table)@.dom().insert(escape_spelling(designator@[0])),
        texts(final(table)@) == texts(old(table)@).insert(
            escape_spelling(designator@[0]),
            seq![literal@[0]],
        ),
{
    proof {
        reveal_strlit("*");
        assert("*"@ + designator@ =~= escape_spelling(designator@[0]));
        assert(literal@ =~= seq![literal@[0]]);
    }
    let text = String::from_str(literal);
    table.insert(String::from_str("*").concat(designator), text);
    assert(texts(table@) =~= texts(old(table)@).insert(
        escape_spelling(designator@[0]),
        seq![literal@[0]],
    ));
}

/// Builds the table of the escape sequences.
pub fn get_escape_sequences() -> (table: StringHashMap<String>)
    ensures
        texts(table@) == escape_sequences(),
        table@.dom().finite(),
        table@.len() == ESCAPE_SEQUENCES_SIZE,
{
    proof {
        reveal_strlit("0");
        reveal_strlit("e");
        reveal_strlit("(");
        reveal_strlit(")");
        reveal_strlit("t");
        reveal_strlit("*");
        reveal_strlit("'");
        reveal_strlit("\"");
        reveal_strlit("n");
        reveal_strlit("\0");
        reveal_strlit("\u{4}");
        reveal_strlit("{");
        reveal_strlit("}");
        reveal_strlit("\t");
        reveal_strlit("\n");
    }
    let mut table = StringHashMap::<String>::new();
    assert(texts(table@) =~= Map::<Seq<char>, Seq<char>>::empty());
    define(&mut table, "0", "\0");
    define(&mut table, "e", "\u{4}");
    define(&mut table, "(", "{");
    define(&mut table, ")", "}");
    define(&mut table, "t", "\t");
    define(&mut table, "*", "*");
    define(&mut table, "'", "'");
    define(&mut table, "\"", "\"");
    define(&mut table, "n", "\n");
    proof {
        assert forall|spelling: Seq<char>| escape_value(spelling) is Some implies texts(
            table@,
        ).contains_key(spelling) by {
            assert(spelling =~= escape_spelling(spelling[1]));
        }
        assert(texts(table@) =~= escape_sequences());
    }
    table
}

/// The escape sequence of every designator of the language is in the map,
/// under the marker followed by the designator, and stands for the one
/// character that belongs to the designator.
pub proof fn lemma_designator_is_mapped(designator: char)
    requires
        escape_literal(designator) is Some,
    ensures
        escape_sequences().contains_key(escape_spelling(designator)),
        escape_sequences()[escape_spelling(designator)] == seq![escape_literal(designator)->0],
{
}

/// The map holds nothing but the escape sequences of the designators: every
/// key is the marker followed by a designator of the language.
pub proof fn lemma_key_is_escape_spelling(spelling: Seq<char>)
    requires
        escape_sequences().contains_key(spelling),
    ensures
        spelling.len() == 2,
        spelling == escape_spelling(spelling[1]),
        escape_literal(spelling[1]) is Some,
{
    assert(spelling =~= escape_spelling(spelling[1]));
}

/// There are finitely many escape sequences, one for each designator;
/// `ESCAPE_SEQUENCES_SIZE` is their number.
pub proof fn lemma_escape_sequences_size()
    ensures
        escape_sequences().dom().finite(),
        escape_sequences().len() == ESCAPE_SEQUENCES_SIZE,
{
    let listed = Map::<Seq<char>, Seq<char>>::empty().insert(
        escape_spelling('0'),
        seq!['\0'],
    ).insert(escape_spelling('e'), seq![END_OF_STRING]).insert(
        escape_spelling('('),
        seq!['{'],
    ).insert(escape_spelling(')'), seq!['}']).insert(escape_spelling('t'), seq!['\t']).insert(
        escape_spelling('*'),
        seq!['*'],
    ).insert(escape_spelling('\''), seq!['\'']).insert(
        escape_spelling('"'),
        seq!['"'],
    ).insert(escape_spelling('n'), seq!['\n']);
    assert forall|spelling: Seq<char>| escape_value(spelling) is Some implies listed.contains_key(
        spelling,
    ) by {
        assert(spelling =~= escape_spelling(spelling[1]));
    }
    assert(listed =~= escape_sequences());
}

/// Building the table anew changes nothing: any two tables that hold the
/// escape sequences agree on every spelling.
pub proof fn lemma_same_table_each_time(
    first: StringHashMap<String>,
    second: StringHashMap<String>,
)
    requires
        texts(first@) == escape_sequences(),
        texts(second@) == escape_sequences(),
    ensures
        texts(first@) == texts(second@),
        forall|spelling: Seq<char>|
            first@.contains_key(spelling) <==> second@.contains_key(spelling),
        forall|spelling: Seq<char>|
            first@.contains_key(spelling) ==> first@[spelling]@ == second@[spelling]@,
{
    assert forall|spelling: Seq<char>| first@.contains_key(spelling) implies second@.contains_key(
        spelling,
    ) && first@[spelling]@ == second@[spelling]@ by {
        assert(texts(first@).contains_key(spelling));
        assert(texts(second@).contains_key(spelling));
        assert(texts(first@)[spelling] == texts(second@)[spelling]);
    }
    assert forall|spelling: Seq<char>| second@.contains_key(spelling) implies first@.contains_key(
        spelling,
    ) by {
        assert(texts(second@).contains_key(spelling));
        assert(texts(first@).contains_key(spelling));
    }
}

} // verus!
