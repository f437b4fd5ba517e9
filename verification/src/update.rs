//! Update handlers: the kinds of update a handler can be registered for, and
//! the arguments that a registration accepts.

use vstd::prelude::*;

verus! {

/// The kind of update a handler listens to.
#[derive(Clone, Copy, Debug, PartialEq, Eq)]
pub enum UpdateType {
    Message,
    CallbackQuery,
    InlineQuery,
}

impl UpdateType {
    /// The identifier under which this kind of update is known.
    pub open spec fn name(self) -> Seq<char> {
        match self {
            UpdateType::Message => "Message"@,
            UpdateType::CallbackQuery => "Callback_Query"@,
            UpdateType::InlineQuery => "Inline_Query"@,
        }
    }

    pub fn as_str(&self) -> (s: &'static str)
        ensures
            s@ == self.name(),
    {
        match self {
            UpdateType::Message => "Message",
            UpdateType::CallbackQuery => "Callback_Query",
            UpdateType::InlineQuery => "Inline_Query",
        }
    }
}

/// A literal, as far as a registration tells literals apart.
#[derive(Debug, PartialEq, Eq)]
pub enum Lit {
    Str(String),
    Bool(bool),
    /// A number, a character, a byte string.
    Other,
}

/// One argument of a registration.
#[derive(Debug, PartialEq, Eq)]
pub enum Argument {
    /// A literal standing alone, such as `"^/start"`.
    Lit(Lit),
    /// `name = literal`. The name is `None` where the left-hand side is not a
    /// single identifier.
    NameValue { name: Option<String>, lit: Lit },
    /// Anything else: a bare path, a nested list.
    Other,
}

/// What can be wrong with the arguments of a registration.
#[derive(Clone, Copy, Debug, PartialEq, Eq)]
pub enum ArgsErrorKind {
    /// A second pattern, after one was given already.
    MultiplePatterns,
    /// `pattern = ..` with something other than a string.
    PatternExpectsStr,
    /// `is_regex = ..` with something other than a boolean.
    IsRegexExpectsBool,
    /// `is_command = ..` with something other than a boolean.
    IsCommandExpectsBool,
    /// An argument that is neither a string nor `name = literal`.
    UnknownAttribute,
    /// No argument gave a pattern.
    PatternExpected,
}

/// The first thing wrong with the arguments of a registration, and the
/// position of the argument it was found at (`None` where it is about the
/// arguments as a whole).
#[derive(Clone, Copy, Debug, PartialEq, Eq)]
pub struct ArgsError {
    pub kind: ArgsErrorKind,
    pub index: Option<usize>,
}

/// The arguments of a registration, checked.
#[derive(Debug, PartialEq, Eq)]
pub struct Args {
    pub pattern: String,
    pub is_regex: bool,
    pub is_command: bool,
}

impl Clone for Lit {
    fn clone(&self) -> (copy: Self)
        ensures
            copy == *self,
    {
        match self {
            Lit::Str(text) => Lit::Str(text.clone()),
            Lit::Bool(value) => Lit::Bool(*value),
            Lit::Other => Lit::Other,
        }
    }
}

impl Clone for Argument {
    fn clone(&self) -> (copy: Self)
        ensures
            copy == *self,
    {
        match self {
            Argument::Lit(lit) => Argument::Lit(lit.clone()),
            Argument::NameValue { name, lit } => Argument::NameValue {
                name: match name {
                    Some(name) => Some(name.clone()),
                    None => None,
                },
                lit: lit.clone(),
            },
            Argument::Other => Argument::Other,
        }
    }
}

impl Clone for Args {
    fn clone(&self) -> (copy: Self)
        ensures
            copy == *self,
    {
        Args {
            pattern: self.pattern.clone(),
            is_regex: self.is_regex,
            is_command: self.is_command,
        }
    }
}

/// Whether `name` is the single identifier `key`.
pub open spec fn is_key(name: Option<String>, key: Seq<char>) -> bool {
    name matches Some(n) && n@ == key
}

impl ArgsErrorKind {
    /// The text shown for this error.
    pub open spec fn text(self) -> Seq<char> {
        match self {
            ArgsErrorKind::MultiplePatterns => "multiple patterns specified, expected one."@,
            ArgsErrorKind::PatternExpectsStr => "attribute pattern expects &str."@,
            ArgsErrorKind::IsRegexExpectsBool => "attribute is_regex expects bool."@,
            ArgsErrorKind::IsCommandExpectsBool => "attribute is_command expects bool."@,
            ArgsErrorKind::UnknownAttribute => "unknown attribute."@,
            ArgsErrorKind::PatternExpected => "attribute pattern expected."@,
        }
    }

    pub fn message(&self) -> (s: &'static str)
        ensures
            s@ == self.text(),
    {
        match self {
            ArgsErrorKind::MultiplePatterns => "multiple patterns specified, expected one.",
            ArgsErrorKind::PatternExpectsStr => "attribute pattern expects &str.",
            ArgsErrorKind::IsRegexExpectsBool => "attribute is_regex expects bool.",
            ArgsErrorKind::IsCommandExpectsBool => "attribute is_command expects bool.",
            ArgsErrorKind::UnknownAttribute => "unknown attribute.",
            ArgsErrorKind::PatternExpected => "attribute pattern expected.",
        }
    }
}

impl Argument {
    /// The pattern that this argument gives, if it gives one: a string
    /// standing alone, or `pattern = "<string>"`.
    pub open spec fn pattern(self) -> Option<Seq<char>> {
        match self {
            Argument::Lit(Lit::Str(s)) => Some(s@),
            Argument::NameValue { name, lit: Lit::Str(s) } => if is_key(name, "pattern"@) {
                Some(s@)
            } else {
                None
            },
            _ => None,
        }
    }

    /// The value that this argument gives to the switch `key`, if it gives
    /// one: `key = true` or `key = false`.
    pub open spec fn switch(self, key: Seq<char>) -> Option<bool> {
        match self {
            Argument::NameValue { name, lit: Lit::Bool(b) } => if is_key(name, key) {
                Some(b)
            } else {
                None
            },
            _ => None,
        }
    }
}

/// The value of the switch `key` after all of `args`: a later argument
/// overrides an earlier one.
pub open spec fn last_switch(args: Seq<Argument>, key: Seq<char>) -> Option<bool>
    decreases args.len(),
{
    if args.len() == 0 {
        None
    } else {
        match args.last().switch(key) {
            Some(b) => Some(b),
            None => last_switch(args.drop_last(), key),
        }
    }
}

/// Whether one of the first `n` arguments gives a pattern.
pub open spec fn pattern_before(args: Seq<Argument>, n: int) -> bool {
    exists|j: int| 0 <= j < n && (#[trigger] args[j]).pattern() is Some
}

/// What is wrong with the argument at `i`, given those before it.
///
/// A name other than `pattern`, `is_regex` and `is_command` is let through
/// with whatever value it has.
pub open spec fn fault(args: Seq<Argument>, i: int) -> Option<ArgsErrorKind> {
    match args[i] {
        Argument::Lit(Lit::Str(_)) => if pattern_before(args, i) {
            Some(ArgsErrorKind::MultiplePatterns)
        } else {
            None
        },
        Argument::Lit(_) => Some(ArgsErrorKind::UnknownAttribute),
        Argument::Other => Some(ArgsErrorKind::UnknownAttribute),
        Argument::NameValue { name, lit } => if is_key(name, "pattern"@) {
            if !(lit is Str) {
                Some(ArgsErrorKind::PatternExpectsStr)
            } else if pattern_before(args, i) {
                Some(ArgsErrorKind::MultiplePatterns)
            } else {
                None
            }
        } else if is_key(name, "is_regex"@) {
            if lit is Bool {
                None
            } else {
                Some(ArgsErrorKind::IsRegexExpectsBool)
            }
        } else if is_key(name, "is_command"@) {
            if lit is Bool {
                None
            } else {
                Some(ArgsErrorKind::IsCommandExpectsBool)
            }
        } else {
            None
        },
    }
}

/// Whether none of the first `n` arguments is at fault.
pub open spec fn faultless(args: Seq<Argument>, n: int) -> bool {
    forall|j: int| 0 <= j < n ==> fault(args, j) is None
}

impl Args {
    /// Checks the arguments of a registration from left to right.
    ///
    /// The first argument at fault is reported, with its position. Where
    /// none is, exactly one argument gave the pattern, or the pattern is
    /// reported missing; a switch that no argument sets is off.
    pub fn new(args: Vec<Argument>) -> (result: Result<Args, ArgsError>)
        ensures
            match result {
                Ok(a) => {
                    &&& faultless(args@, args@.len() as int)
                    &&& exists|i: int|
                        0 <= i < args@.len() && (#[trigger] args@[i]).pattern() == Some(
                            a.pattern@,
                        )
                    &&& a.is_regex == (last_switch(args@, "is_regex"@) == Some(true))
                    &&& a.is_command == (last_switch(args@, "is_command"@) == Some(true))
                },
                Err(e) => match e.index {
                    Some(i) => {
                        &&& i < args@.len()
                        &&& faultless(args@, i as int)
                        &&& fault(args@, i as int) == Some(e.kind)
                    },
                    None => {
                        &&& e.kind == ArgsErrorKind::PatternExpected
                        &&& faultless(args@, args@.len() as int)
                        &&& !pattern_before(args@, args@.len() as int)
                    },
                },
            },
    {
        let pattern_key: String = "pattern".to_owned();
        let regex_key: String = "is_regex".to_owned();
        let command_key: String = "is_command".to_owned();
        let mut pattern: Option<String> = None;
        let mut is_regex: Option<bool> = None;
        let mut is_command: Option<bool> = None;
        let mut i: usize = 0;
        while i < args.len()
            invariant
                i <= args@.len(),
                pattern_key@ == "pattern"@,
                regex_key@ == "is_regex"@,
                command_key@ == "is_command"@,
                faultless(args@, i as int),
                pattern is Some <==> pattern_before(args@, i as int),
                pattern matches Some(p) ==> exists|j: int|
                    0 <= j < i && (#[trigger] args@[j]).pattern() == Some(p@),
                is_regex == last_switch(args@.take(i as int), "is_regex"@),
                is_command == last_switch(args@.take(i as int), "is_command"@),
            decreases args@.len() - i,
        {
            let ghost before = args@.take(i as int);
            let ghost upto = args@.take(i + 1);
            proof {
                assert(upto.drop_last() =~= before);
                assert(upto.last() == args@[i as int]);
            }
            proof {
                lemma_keys_differ();
            }
            let mut fault_here: Option<ArgsErrorKind> = None;
            match &args[i] {
                Argument::Lit(Lit::Str(text)) => {
                    if pattern.is_some() {
                        fault_here = Some(ArgsErrorKind::MultiplePatterns);
                    } else {
                        pattern = Some(text.clone());
                    }
                },
                Argument::Lit(_) => {
                    fault_here = Some(ArgsErrorKind::UnknownAttribute);
                },
                Argument::Other => {
                    fault_here = Some(ArgsErrorKind::UnknownAttribute);
                },
                Argument::NameValue { name, lit } => {
                    if key_is(name, &pattern_key) {
                        match lit {
                            Lit::Str(text) => {
                                if pattern.is_some() {
                                    fault_here = Some(ArgsErrorKind::MultiplePatterns);
                                } else {
                                    pattern = Some(text.clone());
                                }
                            },
                            _ => {
                                fault_here = Some(ArgsErrorKind::PatternExpectsStr);
                            },
                        }
                    } else if key_is(name, &regex_key) {
                        match lit {
                            Lit::Bool(value) => {
                                is_regex = Some(*value);
                            },
                            _ => {
                                fault_here = Some(ArgsErrorKind::IsRegexExpectsBool);
                            },
                        }
                    } else if key_is(name, &command_key) {
                        match lit {
                            Lit::Bool(value) => {
                                is_command = Some(*value);
                            },
                            _ => {
                                fault_here = Some(ArgsErrorKind::IsCommandExpectsBool);
                            },
                        }
                    }
                },
            }
            if let Some(kind) = fault_here {
                return Err(ArgsError { kind, index: Some(i) });
            }
            i += 1;
        }
        proof {
            assert(args@.take(args@.len() as int) =~= args@);
        }
        match pattern {
            None => Err(ArgsError { kind: ArgsErrorKind::PatternExpected, index: None }),
            Some(pattern) => Ok(
                Args {
                    pattern,
                    is_regex: matches!(is_regex, Some(true)),
                    is_command: matches!(is_command, Some(true)),
                },
            ),
        }
    }
}

/// The three names that a registration knows are three different names.
proof fn lemma_keys_differ()
    ensures
        "pattern"@ != "is_regex"@,
        "pattern"@ != "is_command"@,
        "is_regex"@ != "is_command"@,
{
    reveal_strlit("pattern");
    reveal_strlit("is_regex");
    reveal_strlit("is_command");
    assert("pattern"@.len() == 7);
    assert("is_regex"@.len() == 8);
    assert("is_command"@.len() == 10);
}

/// Whether `name` is the single identifier that `key` spells.
fn key_is(name: &Option<String>, key: &String) -> (b: bool)
    ensures
        b == is_key(*name, key@),
{
    match name {
        Some(n) => *n == *key,
        None => false,
    }
}

} // verus!
