//! The reserved words of the language and the part that each plays.

use vstd::hash_map::StringHashMap;
use vstd::prelude::*;
use vstd::string::StringExecFns;

verus! {

/// A reserved word that begins a declaration.
#[derive(Clone, Copy, Debug, PartialEq, Eq, Structural, Hash)]
pub enum DeclarationSpecifier {
    Auto,
    Extrn,
}

/// A reserved word that begins, or belongs to, a control statement.
#[derive(Clone, Copy, Debug, PartialEq, Eq, Structural, Hash)]
pub enum ControlStatementIdentifier {
    Goto,
    Switch,
    Case,
    Return,
    If,
    Else,
    While,
    Break,
    Default,
}

/// The part that a reserved word plays.
#[derive(Clone, Copy, Debug, PartialEq, Eq, Structural, Hash)]
pub enum ReservedName {
    DeclarationSpecifier(DeclarationSpecifier),
    ControlStatement(ControlStatementIdentifier),
}

/// The table of the reserved words: from the spelling of each to the part it
/// plays. A word is looked up letter for letter; the case of a letter counts.
pub type ReservedSymbolsTable = StringHashMap<ReservedName>;

/// The part that the word spelled `spelling` plays, or `None` where the
/// word is not reserved.
pub open spec fn reserved_name(spelling: Seq<char>) -> Option<ReservedName> {
    if spelling == "auto"@ {
        Some(ReservedName::DeclarationSpecifier(DeclarationSpecifier::Auto))
    } else if spelling == "extrn"@ {
        Some(ReservedName::DeclarationSpecifier(DeclarationSpecifier::Extrn))
    } else if spelling == "goto"@ {
        Some(ReservedName::ControlStatement(ControlStatementIdentifier::Goto))
    } else if spelling == "switch"@ {
        Some(ReservedName::ControlStatement(ControlStatementIdentifier::Switch))
    } else if spelling == "case"@ {
        Some(ReservedName::ControlStatement(ControlStatementIdentifier::Case))
    } else if spelling == "return"@ {
        Some(ReservedName::ControlStatement(ControlStatementIdentifier::Return))
    } else if spelling == "if"@ {
        Some(ReservedName::ControlStatement(ControlStatementIdentifier::If))
    } else if spelling == "else"@ {
        Some(ReservedName::ControlStatement(ControlStatementIdentifier::Else))
    } else if spelling == "while"@ {
        Some(ReservedName::ControlStatement(ControlStatementIdentifier::While))
    } else if spelling == "break"@ {
        Some(ReservedName::ControlStatement(ControlStatementIdentifier::Break))
    } else if spelling == "default"@ {
        Some(ReservedName::ControlStatement(ControlStatementIdentifier::Default))
    } else {
        None
    }
}

/// The reserved words as a map: it holds a spelling exactly where
/// `reserved_name` knows it, with the part that `reserved_name` gives.
pub open spec fn reserved_symbols() -> Map<Seq<char>, ReservedName> {
    Map::new(
        |spelling: Seq<char>| reserved_name(spelling) is Some,
        |spelling: Seq<char>| reserved_name(spelling)->0,
    )
}

/// The number of reserved words.
pub const RESERVED_SYMBOLS_SIZE: usize = 11;

/// Tells the reserved words apart: each by its length and its first two
/// characters.
pub proof fn lemma_spellings_differ()
    ensures
        "auto"@.len() == 4 && "auto"@[0] == 'a' && "auto"@[1] == 'u',
        "extrn"@.len() == 5 && "extrn"@[0] == 'e' && "extrn"@[1] == 'x',
        "goto"@.len() == 4 && "goto"@[0] == 'g' && "goto"@[1] == 'o',
        "switch"@.len() == 6 && "switch"@[0] == 's' && "switch"@[1] == 'w',
        "case"@.len() == 4 && "case"@[0] == 'c' && "case"@[1] == 'a',
        "return"@.len() == 6 && "return"@[0] == 'r' && "return"@[1] == 'e',
        "if"@.len() == 2 && "if"@[0] == 'i' && "if"@[1] == 'f',
        "else"@.len() == 4 && "else"@[0] == 'e' && "else"@[1] == 'l',
        "while"@.len() == 5 && "while"@[0] == 'w' && "while"@[1] == 'h',
        "break"@.len() == 5 && "break"@[0] == 'b' && "break"@[1] == 'r',
        "default"@.len() == 7 && "default"@[0] == 'd' && "default"@[1] == 'e',
{
    reveal_strlit("auto");
    reveal_strlit("extrn");
    reveal_strlit("goto");
    reveal_strlit("switch");
    reveal_strlit("case");
    reveal_strlit("return");
    reveal_strlit("if");
    reveal_strlit("else");
    reveal_strlit("while");
    reveal_strlit("break");
    reveal_strlit("default");
}

fn reserve(table: &mut ReservedSymbolsTable, spelling: &str, name: ReservedName)
    ensures
        final(table)@ == old(table)@.insert(spelling@, name),
{
    table.insert(String::from_str(spelling), name);
}

/// Builds the table of the reserved words.
pub fn get_reserved_symbols() -> (table: ReservedSymbolsTable)
    ensures
        table@ == reserved_symbols(),
        table@.dom().finite(),
        table@.len() == RESERVED_SYMBOLS_SIZE,
{
    let mut table = StringHashMap::<ReservedName>::new();
    reserve(&mut table, "auto", ReservedName::DeclarationSpecifier(DeclarationSpecifier::Auto));
    reserve(&mut table, "extrn", ReservedName::DeclarationSpecifier(DeclarationSpecifier::Extrn));
    reserve(&mut table, "goto", ReservedName::ControlStatement(ControlStatementIdentifier::Goto));
    reserve(
        &mut table,
        "switch",
        ReservedName::ControlStatement(ControlStatementIdentifier::Switch),
    );
    reserve(&mut table, "case", ReservedName::ControlStatement(ControlStatementIdentifier::Case));
    reserve(
        &mut table,
        "return",
        ReservedName::ControlStatement(ControlStatementIdentifier::Return),
    );
    reserve(&mut table, "if", ReservedName::ControlStatement(ControlStatementIdentifier::If));
    reserve(&mut table, "else", ReservedName::ControlStatement(ControlStatementIdentifier::Else));
    reserve(&mut table, "while", ReservedName::ControlStatement(ControlStatementIdentifier::While));
    reserve(&mut table, "break", ReservedName::ControlStatement(ControlStatementIdentifier::Break));
    reserve(
        &mut table,
        "default",
        ReservedName::ControlStatement(ControlStatementIdentifier::Default),
    );
    proof {
        lemma_spellings_differ();
        assert(table@ =~= reserved_symbols());
    }
    table
}

/// What each reserved word stands for.
pub proof fn lemma_reserved_names()
    ensures
        reserved_name("auto"@) == Some(
            ReservedName::DeclarationSpecifier(DeclarationSpecifier::Auto),
        ),
        reserved_name("extrn"@) == Some(
            ReservedName::DeclarationSpecifier(DeclarationSpecifier::Extrn),
        ),
        reserved_name("goto"@) == Some(
            ReservedName::ControlStatement(ControlStatementIdentifier::Goto),
        ),
        reserved_name("switch"@) == Some(
            ReservedName::ControlStatement(ControlStatementIdentifier::Switch),
        ),
        reserved_name("case"@) == Some(
            ReservedName::ControlStatement(ControlStatementIdentifier::Case),
        ),
        reserved_name("return"@) == Some(
            ReservedName::ControlStatement(ControlStatementIdentifier::Return),
        ),
        reserved_name("if"@) == Some(ReservedName::ControlStatement(ControlStatementIdentifier::If)),
        reserved_name("else"@) == Some(
            ReservedName::ControlStatement(ControlStatementIdentifier::Else),
        ),
        reserved_name("while"@) == Some(
            ReservedName::ControlStatement(ControlStatementIdentifier::While),
        ),
        reserved_name("break"@) == Some(
            ReservedName::ControlStatement(ControlStatementIdentifier::Break),
        ),
        reserved_name("default"@) == Some(
            ReservedName::ControlStatement(ControlStatementIdentifier::Default),
        ),
{
    lemma_spellings_differ();
}

/// Which words are reserved, and for what: two begin a declaration, nine
/// belong to control statements, and no other word is reserved.
pub proof fn lemma_reserved_words(spelling: Seq<char>)
    ensures
        reserved_name(spelling) is Some <==> reserved_symbols().contains_key(spelling),
        reserved_symbols().contains_key(spelling) ==> reserved_symbols()[spelling]
            == reserved_name(spelling)->0,
        (reserved_name(spelling) matches Some(name) && name is DeclarationSpecifier) <==> (spelling
            == "auto"@ || spelling == "extrn"@),
        (reserved_name(spelling) matches Some(name) && name is ControlStatement) <==> (spelling
            == "goto"@ || spelling == "switch"@ || spelling == "case"@ || spelling == "return"@
            || spelling == "if"@ || spelling == "else"@ || spelling == "while"@ || spelling
            == "break"@ || spelling == "default"@),
{
    lemma_spellings_differ();
}

/// No two reserved words play the same part.
pub proof fn lemma_one_spelling_per_name(first: Seq<char>, second: Seq<char>)
    requires
        reserved_name(first) is Some,
        reserved_name(first) == reserved_name(second),
    ensures
        first == second,
{
    lemma_spellings_differ();
}

/// There are finitely many reserved words; `RESERVED_SYMBOLS_SIZE` is their
/// number.
pub proof fn lemma_reserved_symbols_size()
    ensures
        reserved_symbols().dom().finite(),
        reserved_symbols().len() == RESERVED_SYMBOLS_SIZE,
{
    lemma_spellings_differ();
    let declaration = |specifier: DeclarationSpecifier| ReservedName::DeclarationSpecifier(specifier);
    let control = |identifier: ControlStatementIdentifier| ReservedName::ControlStatement(identifier);
    let listed = Map::<Seq<char>, ReservedName>::empty().insert(
        "auto"@,
        declaration(DeclarationSpecifier::Auto),
    ).insert("extrn"@, declaration(DeclarationSpecifier::Extrn)).insert(
        "goto"@,
        control(ControlStatementIdentifier::Goto),
    ).insert("switch"@, control(ControlStatementIdentifier::Switch)).insert(
        "case"@,
        control(ControlStatementIdentifier::Case),
    ).insert("return"@, control(ControlStatementIdentifier::Return)).insert(
        "if"@,
        control(ControlStatementIdentifier::If),
    ).insert("else"@, control(ControlStatementIdentifier::Else)).insert(
        "while"@,
        control(ControlStatementIdentifier::While),
    ).insert("break"@, control(ControlStatementIdentifier::Break)).insert(
        "default"@,
        control(ControlStatementIdentifier::Default),
    );
    assert(listed =~= reserved_symbols());
}

/// Building the table anew changes nothing: any two tables that hold the
/// reserved words agree on every spelling.
pub proof fn lemma_same_table_each_time(first: ReservedSymbolsTable, second: ReservedSymbolsTable)
    requires
        first@ == reserved_symbols(),
        second@ == reserved_symbols(),
    ensures
        first@ == second@,
        forall|spelling: Seq<char>|
            first@.contains_key(spelling) <==> second@.contains_key(spelling),
        forall|spelling: Seq<char>|
            first@.contains_key(spelling) ==> first@[spelling] == second@[spelling],
{
}

} // verus!
