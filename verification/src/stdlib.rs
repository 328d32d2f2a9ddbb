//! The names that the standard library declares before any user code.

use vstd::prelude::*;
use vstd::seq_lib::seq_to_set_is_finite;
use vstd::set_lib::lemma_subset_equality;
use vstd::string::StringExecFns;

verus! {

/// A name that the standard library declares.
///
/// Two names are equal when they are of the same kind and agree in every
/// field, so a function and a variable may share a spelling.
#[derive(Clone, Debug, Eq, Hash)]
pub enum StandardLibraryName {
    /// A function; `parameter_list_length` is the number of arguments that a
    /// call must give, `None` where that number is not checked.
    Function { fn_name: String, parameter_list_length: Option<usize> },
    /// A global variable.
    Variable { var_name: String },
}

/// What a `StandardLibraryName` stands for: its kind, its spelling as a
/// sequence of characters and, for a function, its arity.
pub enum NameModel {
    Function { fn_name: Seq<char>, parameter_list_length: Option<usize> },
    Variable { var_name: Seq<char> },
}

impl View for StandardLibraryName {
    type V = NameModel;

    open spec fn view(&self) -> NameModel {
        match self {
            StandardLibraryName::Function { fn_name, parameter_list_length } => NameModel::Function {
                fn_name: fn_name@,
                parameter_list_length: *parameter_list_length,
            },
            StandardLibraryName::Variable { var_name } => NameModel::Variable {
                var_name: var_name@,
            },
        }
    }
}

impl PartialEq for StandardLibraryName {
    fn eq(&self, other: &StandardLibraryName) -> (same: bool) {
        match (self, other) {
            (
                StandardLibraryName::Function { fn_name, parameter_list_length },
                StandardLibraryName::Function {
                    fn_name: other_name,
                    parameter_list_length: other_length,
                },
            ) => {
                let same_length = match (parameter_list_length, other_length) {
                    (Some(a), Some(b)) => *a == *b,
                    (None, None) => true,
                    _ => false,
                };
                same_length && *fn_name == *other_name
            },
            (
                StandardLibraryName::Variable { var_name },
                StandardLibraryName::Variable { var_name: other_name },
            ) => *var_name == *other_name,
            _ => false,
        }
    }
}

impl vstd::std_specs::cmp::PartialEqSpecImpl for StandardLibraryName {
    open spec fn obeys_eq_spec() -> bool {
        true
    }

    open spec fn eq_spec(&self, other: &StandardLibraryName) -> bool {
        self@ == other@
    }
}

/// A set of standard library names: no name occurs in it twice.
#[derive(Debug, Eq)]
pub struct StandardLibraryNames {
    names: Vec<StandardLibraryName>,
}

impl View for StandardLibraryNames {
    type V = Set<NameModel>;

    open spec fn view(&self) -> Set<NameModel> {
        self.entries().to_set()
    }
}

impl StandardLibraryNames {
    /// The names in the order in which they were put in.
    pub closed spec fn entries(&self) -> Seq<NameModel> {
        self.names@.map_values(|name: StandardLibraryName| name@)
    }

    #[verifier::type_invariant]
    spec fn no_name_twice(&self) -> bool {
        self.entries().no_duplicates()
    }

    /// The empty set.
    pub fn new() -> (set: StandardLibraryNames)
        ensures
            set@ == Set::<NameModel>::empty(),
            set.entries() == Seq::<NameModel>::empty(),
    {
        let set = StandardLibraryNames { names: Vec::new() };
        assert(set.entries() =~= Seq::<NameModel>::empty());
        assert(set@ =~= Set::<NameModel>::empty());
        set
    }

    /// The number of names in the set.
    pub fn len(&self) -> (n: usize)
        ensures
            self@.finite(),
            n == self@.len(),
    {
        proof {
            use_type_invariant(self);
            self.entries().unique_seq_to_set();
            seq_to_set_is_finite(self.entries());
        }
        self.names.len()
    }

    /// The names of the set, each once, in the order in which they were put
    /// in.
    pub fn names(&self) -> (names: &Vec<StandardLibraryName>)
        ensures
            names@.map_values(|name: StandardLibraryName| name@) == self.entries(),
    {
        &self.names
    }

    /// Whether `name` is in the set.
    pub fn contains(&self, name: &StandardLibraryName) -> (found: bool)
        ensures
            found == self@.contains(name@),
    {
        let mut i: usize = 0;
        while i < self.names.len()
            invariant
                i <= self.names.len(),
                forall|j: int| 0 <= j < i ==> self.entries()[j] != name@,
            decreases self.names.len() - i,
        {
            if self.names[i] == *name {
                assert(self.entries()[i as int] == name@);
                return true;
            }
            i += 1;
        }
        false
    }

    /// Puts `name` into the set. The result tells whether it was absent
    /// before; a name that is present already is not put in again.
    pub fn insert(&mut self, name: StandardLibraryName) -> (fresh: bool)
        ensures
            final(self)@ == old(self)@.insert(name@),
            fresh == !old(self)@.contains(name@),
            final(self).entries() == if fresh {
                old(self).entries().push(name@)
            } else {
                old(self).entries()
            },
    {
        if self.contains(&name) {
            assert(self@.insert(name@) =~= self@);
            false
        } else {
            proof {
                use_type_invariant(&*self);
                self.entries().lemma_push_to_set_commute(name@);
                self.names@.lemma_push_map_commute(|n: StandardLibraryName| n@, name);
            }
            let mut names: Vec<StandardLibraryName> = Vec::new();
            std::mem::swap(&mut names, &mut self.names);
            names.push(name);
            self.names = names;
            true
        }
    }
}

impl StandardLibraryNames {
    /// Whether every name of this set is in `other` too.
    pub fn is_subset(&self, other: &StandardLibraryNames) -> (within: bool)
        ensures
            within == self@.subset_of(other@),
    {
        let mut i: usize = 0;
        while i < self.names.len()
            invariant
                i <= self.names.len(),
                forall|j: int| 0 <= j < i ==> other@.contains(#[trigger] self.entries()[j]),
            decreases self.names.len() - i,
        {
            if !other.contains(&self.names[i]) {
                assert(self@.contains(self.entries()[i as int]));
                return false;
            }
            i += 1;
        }
        true
    }
}

impl PartialEq for StandardLibraryNames {
    fn eq(&self, other: &StandardLibraryNames) -> (same: bool) {
        if self.len() != other.len() {
            return false;
        }
        let within = self.is_subset(other);
        proof {
            if within {
                lemma_subset_equality(self@, other@);
            }
        }
        within
    }
}

impl vstd::std_specs::cmp::PartialEqSpecImpl for StandardLibraryNames {
    open spec fn obeys_eq_spec() -> bool {
        true
    }

    open spec fn eq_spec(&self, other: &StandardLibraryNames) -> bool {
        self@ == other@
    }
}

/// The arity under which the standard library declares the function `name`:
/// `Some(Some(n))` for a function of `n` arguments, `Some(None)` for one whose
/// argument count is not checked, `None` where it declares no such function.
pub open spec fn standard_function_arity(name: Seq<char>) -> Option<Option<usize>> {
    if name == "getchar"@ {
        Some(Some(0))
    } else if name == "putchar"@ {
        Some(Some(1))
    } else if name == "openr"@ {
        Some(Some(2))
    } else if name == "openw"@ {
        Some(Some(2))
    } else if name == "getstr"@ {
        Some(Some(1))
    } else if name == "putstr"@ {
        Some(Some(1))
    } else if name == "system"@ {
        Some(Some(1))
    } else if name == "close"@ {
        Some(Some(1))
    } else if name == "flush"@ {
        Some(Some(0))
    } else if name == "reread"@ {
        Some(Some(0))
    } else if name == "printf"@ {
        Some(None)
    } else if name == "ioerrors"@ {
        Some(Some(1))
    } else if name == "char"@ {
        Some(Some(2))
    } else if name == "lchar"@ {
        Some(Some(3))
    } else if name == "getarg"@ {
        Some(Some(3))
    } else if name == "concat"@ {
        Some(None)
    } else if name == "getvec"@ {
        Some(Some(1))
    } else if name == "rlsevec"@ {
        Some(Some(2))
    } else if name == "nargs"@ {
        Some(Some(0))
    } else if name == "exit"@ {
        Some(Some(0))
    } else {
        None
    }
}

/// Whether the standard library declares a variable `name`.
pub open spec fn is_standard_variable(name: Seq<char>) -> bool {
    name == "wr.unit"@ || name == "rd.unit"@
}

/// Whether the standard library declares `name`, with that kind and arity.
pub open spec fn is_standard_library_name(name: NameModel) -> bool {
    match name {
        NameModel::Function { fn_name, parameter_list_length } => standard_function_arity(fn_name)
            == Some(parameter_list_length),
        NameModel::Variable { var_name } => is_standard_variable(var_name),
    }
}

/// Everything that the standard library declares.
pub open spec fn standard_library_names() -> Set<NameModel> {
    Set::new(|name: NameModel| is_standard_library_name(name))
}

/// The number of names that the standard library declares.
pub const STANDARD_LIBRARY_SIZE: usize = 22;

/// Tells the spellings of the standard library apart: each by its length,
/// its first and its last character.
pub proof fn lemma_spellings_differ()
    ensures
        "getchar"@.len() == 7 && "getchar"@[0] == 'g' && "getchar"@[6] == 'r',
        "putchar"@.len() == 7 && "putchar"@[0] == 'p' && "putchar"@[6] == 'r',
        "openr"@.len() == 5 && "openr"@[0] == 'o' && "openr"@[4] == 'r',
        "openw"@.len() == 5 && "openw"@[0] == 'o' && "openw"@[4] == 'w',
        "getstr"@.len() == 6 && "getstr"@[0] == 'g' && "getstr"@[5] == 'r',
        "putstr"@.len() == 6 && "putstr"@[0] == 'p' && "putstr"@[5] == 'r',
        "system"@.len() == 6 && "system"@[0] == 's' && "system"@[5] == 'm',
        "close"@.len() == 5 && "close"@[0] == 'c' && "close"@[4] == 'e',
        "flush"@.len() == 5 && "flush"@[0] == 'f' && "flush"@[4] == 'h',
        "reread"@.len() == 6 && "reread"@[0] == 'r' && "reread"@[5] == 'd',
        "printf"@.len() == 6 && "printf"@[0] == 'p' && "printf"@[5] == 'f',
        "ioerrors"@.len() == 8 && "ioerrors"@[0] == 'i' && "ioerrors"@[7] == 's',
        "char"@.len() == 4 && "char"@[0] == 'c' && "char"@[3] == 'r',
        "lchar"@.len() == 5 && "lchar"@[0] == 'l' && "lchar"@[4] == 'r',
        "getarg"@.len() == 6 && "getarg"@[0] == 'g' && "getarg"@[5] == 'g',
        "concat"@.len() == 6 && "concat"@[0] == 'c' && "concat"@[5] == 't',
        "getvec"@.len() == 6 && "getvec"@[0] == 'g' && "getvec"@[5] == 'c',
        "rlsevec"@.len() == 7 && "rlsevec"@[0] == 'r' && "rlsevec"@[6] == 'c',
        "nargs"@.len() == 5 && "nargs"@[0] == 'n' && "nargs"@[4] == 's',
        "exit"@.len() == 4 && "exit"@[0] == 'e' && "exit"@[3] == 't',
        "wr.unit"@.len() == 7 && "wr.unit"@[0] == 'w' && "wr.unit"@[6] == 't',
        "rd.unit"@.len() == 7 && "rd.unit"@[0] == 'r' && "rd.unit"@[6] == 't',
{
    reveal_strlit("getchar");
    reveal_strlit("putchar");
    reveal_strlit("openr");
    reveal_strlit("openw");
    reveal_strlit("getstr");
    reveal_strlit("putstr");
    reveal_strlit("system");
    reveal_strlit("close");
    reveal_strlit("flush");
    reveal_strlit("reread");
    reveal_strlit("printf");
    reveal_strlit("ioerrors");
    reveal_strlit("char");
    reveal_strlit("lchar");
    reveal_strlit("getarg");
    reveal_strlit("concat");
    reveal_strlit("getvec");
    reveal_strlit("rlsevec");
    reveal_strlit("nargs");
    reveal_strlit("exit");
    reveal_strlit("wr.unit");
    reveal_strlit("rd.unit");
}

fn declare_function(names: &mut StandardLibraryNames, name: &str, arity: Option<usize>)
    ensures
        final(names)@ == old(names)@.insert(
            NameModel::Function { fn_name: name@, parameter_list_length: arity },
        ),
{
    names.insert(
        StandardLibraryName::Function {
            fn_name: String::from_str(name),
            parameter_list_length: arity,
        },
    );
}

fn declare_variable(names: &mut StandardLibraryNames, name: &str)
    ensures
        final(names)@ == old(names)@.insert(NameModel::Variable { var_name: name@ }),
{
    names.insert(StandardLibraryName::Variable { var_name: String::from_str(name) });
}

/// Builds the set of the names that the standard library declares.
pub fn get_standard_library_names() -> (names: StandardLibraryNames)
    ensures
        names@ == standard_library_names(),
        names@.finite(),
        names@.len() == STANDARD_LIBRARY_SIZE,
        names.entries().no_duplicates(),
        names.entries().len() == STANDARD_LIBRARY_SIZE,
{
    let mut names = StandardLibraryNames::new();
    declare_variable(&mut names, "wr.unit");
    declare_variable(&mut names, "rd.unit");
    // Input and output routines with a fixed number of arguments.
    declare_function(&mut names, "getchar", Some(0));
    declare_function(&mut names, "putchar", Some(1));
    declare_function(&mut names, "openr", Some(2));
    declare_function(&mut names, "openw", Some(2));
    declare_function(&mut names, "getstr", Some(1));
    declare_function(&mut names, "putstr", Some(1));
    declare_function(&mut names, "system", Some(1));
    declare_function(&mut names, "close", Some(1));
    declare_function(&mut names, "flush", Some(0));
    declare_function(&mut names, "reread", Some(0));
    // Formatted output takes any number of arguments.
    declare_function(&mut names, "printf", None);
    // The error query.
    declare_function(&mut names, "ioerrors", Some(1));
    // Characters, strings and arguments.
    declare_function(&mut names, "char", Some(2));
    declare_function(&mut names, "lchar", Some(3));
    declare_function(&mut names, "getarg", Some(3));
    declare_function(&mut names, "concat", None);
    // Vectors and the rest.
    declare_function(&mut names, "getvec", Some(1));
    declare_function(&mut names, "rlsevec", Some(2));
    declare_function(&mut names, "nargs", Some(0));
    declare_function(&mut names, "exit", Some(0));
    proof {
        lemma_spellings_differ();
        assert(names@ =~= standard_library_names());
        use_type_invariant(&names);
        names.entries().unique_seq_to_set();
    }
    names
}

/// The standard library declares finitely many names; `STANDARD_LIBRARY_SIZE`
/// is their number.
pub proof fn lemma_standard_library_size()
    ensures
        standard_library_names().finite(),
        standard_library_names().len() == STANDARD_LIBRARY_SIZE,
{
    lemma_spellings_differ();
    let function = |name: Seq<char>, arity: Option<usize>|
        NameModel::Function { fn_name: name, parameter_list_length: arity };
    let listed = Set::<NameModel>::empty().insert(
        NameModel::Variable { var_name: "wr.unit"@ },
    ).insert(NameModel::Variable { var_name: "rd.unit"@ }).insert(
        function("getchar"@, Some(0)),
    ).insert(function("putchar"@, Some(1))).insert(function("openr"@, Some(2))).insert(
        function("openw"@, Some(2)),
    ).insert(function("getstr"@, Some(1))).insert(function("putstr"@, Some(1))).insert(
        function("system"@, Some(1)),
    ).insert(function("close"@, Some(1))).insert(function("flush"@, Some(0))).insert(
        function("reread"@, Some(0)),
    ).insert(function("printf"@, None)).insert(function("ioerrors"@, Some(1))).insert(
        function("char"@, Some(2)),
    ).insert(function("lchar"@, Some(3))).insert(function("getarg"@, Some(3))).insert(
        function("concat"@, None),
    ).insert(function("getvec"@, Some(1))).insert(function("rlsevec"@, Some(2))).insert(
        function("nargs"@, Some(0)),
    ).insert(function("exit"@, Some(0)));
    assert(listed =~= standard_library_names());
}

/// The arity of each function that the standard library declares.
pub proof fn lemma_standard_functions()
    ensures
        standard_function_arity("getchar"@) == Some(Some(0usize)),
        standard_function_arity("putchar"@) == Some(Some(1usize)),
        standard_function_arity("openr"@) == Some(Some(2usize)),
        standard_function_arity("openw"@) == Some(Some(2usize)),
        standard_function_arity("getstr"@) == Some(Some(1usize)),
        standard_function_arity("putstr"@) == Some(Some(1usize)),
        standard_function_arity("system"@) == Some(Some(1usize)),
        standard_function_arity("close"@) == Some(Some(1usize)),
        standard_function_arity("flush"@) == Some(Some(0usize)),
        standard_function_arity("reread"@) == Some(Some(0usize)),
        standard_function_arity("printf"@) == Some(None::<usize>),
        standard_function_arity("ioerrors"@) == Some(Some(1usize)),
        standard_function_arity("char"@) == Some(Some(2usize)),
        standard_function_arity("lchar"@) == Some(Some(3usize)),
        standard_function_arity("getarg"@) == Some(Some(3usize)),
        standard_function_arity("concat"@) == Some(None::<usize>),
        standard_function_arity("getvec"@) == Some(Some(1usize)),
        standard_function_arity("rlsevec"@) == Some(Some(2usize)),
        standard_function_arity("nargs"@) == Some(Some(0usize)),
        standard_function_arity("exit"@) == Some(Some(0usize)),
{
    lemma_spellings_differ();
}

/// `printf` and `concat` are the only functions that the standard library
/// declares without a checked number of arguments.
pub proof fn lemma_unchecked_arity(name: Seq<char>)
    ensures
        standard_library_names().contains(
            NameModel::Function { fn_name: name, parameter_list_length: None },
        ) <==> (name == "printf"@ || name == "concat"@),
{
    lemma_spellings_differ();
}

/// The standard library declares a function under one arity only.
pub proof fn lemma_one_arity_per_function(
    name: Seq<char>,
    first: Option<usize>,
    second: Option<usize>,
)
    requires
        standard_library_names().contains(
            NameModel::Function { fn_name: name, parameter_list_length: first },
        ),
        standard_library_names().contains(
            NameModel::Function { fn_name: name, parameter_list_length: second },
        ),
    ensures
        first == second,
{
}

/// `wr.unit` and `rd.unit` are declared, as variables and not as functions
/// of any arity.
pub proof fn lemma_units_are_variables(arity: Option<usize>)
    ensures
        standard_library_names().contains(NameModel::Variable { var_name: "wr.unit"@ }),
        standard_library_names().contains(NameModel::Variable { var_name: "rd.unit"@ }),
        !standard_library_names().contains(
            NameModel::Function { fn_name: "wr.unit"@, parameter_list_length: arity },
        ),
        !standard_library_names().contains(
            NameModel::Function { fn_name: "rd.unit"@, parameter_list_length: arity },
        ),
{
    lemma_spellings_differ();
}

/// Building the set anew changes nothing: any two sets that hold what the
/// standard library declares hold the same names.
pub proof fn lemma_same_names_each_time(first: StandardLibraryNames, second: StandardLibraryNames)
    requires
        first@ == standard_library_names(),
        second@ == standard_library_names(),
    ensures
        first@ == second@,
        forall|name: NameModel| first@.contains(name) <==> second@.contains(name),
{
}

} // verus!
