//! What the metrics macros decide: the names they generate and the
//! arguments they accept.
use vstd::prelude::*;
use vstd::string::*;

pub mod code;
pub mod grammar;

verus! {

/// The upper-case form of a character (one or more characters).
pub uninterp spec fn char_to_upper(c: char) -> Seq<char>;

/// `char::to_uppercase`, collected into a string: named by `char_to_upper`.
#[verifier::external_body]
fn upper_of(c: char) -> (s: String)
    ensures
        s@ == char_to_upper(c),
{
    c.to_uppercase().collect::<String>()
}

/// The name of a module's struct: the module name with its first character
/// in upper case.
pub open spec fn struct_name_spec(module: Seq<char>) -> Seq<char> {
    if module.len() == 0 {
        Seq::empty()
    } else {
        char_to_upper(module[0]) + module.drop_first()
    }
}

/// The name of the states struct of the module `module`, as the module
/// macro generates it.
pub fn struct_name(module: &str) -> (s: String)
    ensures
        s@ == struct_name_spec(module@),
{
    let n = module.unicode_len();
    if n == 0 {
        return String::new();
    }
    let mut s = upper_of(module.get_char(0));
    s.append(module.substring_char(1, n));
    proof {
        assert(module@.subrange(1, n as int) =~= module@.drop_first());
    }
    s
}

/// A package name with each `-` replaced by `_`.
pub open spec fn underscored(name: Seq<char>) -> Seq<char> {
    name.map_values(|c: char| if c == '-' { '_' } else { c })
}

/// Whether the crate `def_crate` is the package being compiled, named
/// `pkg_name`: then the generated code refers to it as `crate`.
pub fn is_own_crate(pkg_name: &str, def_crate: &str) -> (b: bool)
    ensures
        b == (underscored(pkg_name@) == def_crate@),
{
    let n = pkg_name.unicode_len();
    let m = def_crate.unicode_len();
    if n != m {
        proof {
            assert(underscored(pkg_name@).len() != def_crate@.len());
        }
        return false;
    }
    let mut i: usize = 0;
    while i < n
        invariant
            n == pkg_name@.len(),
            n == def_crate@.len(),
            i <= n,
            forall|j: int| 0 <= j < i ==> underscored(pkg_name@)[j] == def_crate@[j],
        decreases n - i,
    {
        let c = pkg_name.get_char(i);
        let d: char = if c == '-' {
            '_'
        } else {
            c
        };
        if d != def_crate.get_char(i) {
            proof {
                assert(underscored(pkg_name@)[i as int] != def_crate@[i as int]);
            }
            return false;
        }
        i = i + 1;
    }
    proof {
        assert(underscored(pkg_name@) =~= def_crate@);
    }
    true
}

/// The crate that the generated metrics code names by default.
pub open spec fn default_hidden_crate() -> Seq<char> {
    "metrics_backends"@
}

/// The crate that generated metrics code refers to: the given one, or the
/// default.
pub fn hidden_crate_name(given: Option<String>) -> (s: String)
    ensures
        s@ == match given {
            Some(g) => g@,
            None => default_hidden_crate(),
        },
{
    match given {
        Some(g) => g,
        None => String::from_str("metrics_backends"),
    }
}

/// Why the arguments of a macro attribute were refused.
#[derive(Debug, Clone, Copy, PartialEq, Eq, Structural)]
pub enum MacroArgError {
    /// No metric name was given.
    NoMetricsName,
    /// The metric name is not a plain word.
    UnexpectedMetricsName,
    /// The backends macro name is not a plain word.
    UnexpectedMacroName,
    /// A module argument is not a plain word.
    UnexpectedArg,
}

impl MacroArgError {
    /// The message that the macro panics with.
    pub fn message(&self) -> (m: &'static str)
        ensures
            m@ == macro_error_message(*self),
    {
        match self {
            MacroArgError::NoMetricsName => "no metrics name",
            MacroArgError::UnexpectedMetricsName => "unexpected metrics name",
            MacroArgError::UnexpectedMacroName => "unexpected macro name",
            MacroArgError::UnexpectedArg => "TODO return error for unexpected arg",
        }
    }
}

/// The message of each refusal.
pub open spec fn macro_error_message(e: MacroArgError) -> Seq<char> {
    match e {
        MacroArgError::NoMetricsName => "no metrics name"@,
        MacroArgError::UnexpectedMetricsName => "unexpected metrics name"@,
        MacroArgError::UnexpectedMacroName => "unexpected macro name"@,
        MacroArgError::UnexpectedArg => "TODO return error for unexpected arg"@,
    }
}

/// The macro that calls the backends when no other is named.
pub open spec fn default_backends_macro() -> Seq<char> {
    "timer_enclose_backends"@
}

/// Arguments of a macro attribute: `Some(word)` for a plain word, `None`
/// for anything else.
pub open spec fn words_view(args: Seq<Option<String>>) -> Seq<Option<Seq<char>>> {
    args.map_values(|a: Option<String>| match a {
        Some(w) => Some(w@),
        None => None,
    })
}

/// What the timer attribute makes of its arguments: the metric name, and
/// the macro that calls the backends (the second argument, or the default).
pub open spec fn timer_enclose_spec(args: Seq<Option<Seq<char>>>) -> Result<(Seq<char>, Seq<char>), MacroArgError> {
    if args.len() == 0 {
        Err(MacroArgError::NoMetricsName)
    } else if args[0] is None {
        Err(MacroArgError::UnexpectedMetricsName)
    } else if args.len() == 1 {
        Ok((args[0]->0, default_backends_macro()))
    } else if args[1] is None {
        Err(MacroArgError::UnexpectedMacroName)
    } else {
        Ok((args[0]->0, args[1]->0))
    }
}

/// The metric name and backends macro of the timer attribute's arguments.
pub fn timer_enclose_names(args: &Vec<Option<String>>) -> (r: Result<(String, String), MacroArgError>)
    ensures
        match timer_enclose_spec(words_view(args@)) {
            Ok((name, mac)) => r matches Ok((n, m)) && n@ == name && m@ == mac,
            Err(e) => r == Err::<(String, String), MacroArgError>(e),
        },
{
    if args.len() == 0 {
        return Err(MacroArgError::NoMetricsName);
    }
    let name = match &args[0] {
        Some(w) => w.clone(),
        None => return Err(MacroArgError::UnexpectedMetricsName),
    };
    if args.len() == 1 {
        return Ok((name, String::from_str("timer_enclose_backends")));
    }
    match &args[1] {
        Some(w) => Ok((name, w.clone())),
        None => Err(MacroArgError::UnexpectedMacroName),
    }
}

/// The modules that the module attribute initiates: all its arguments,
/// which must be plain words.
pub fn module_names(args: &Vec<Option<String>>) -> (r: Result<Vec<String>, MacroArgError>)
    ensures
        (forall|i: int| 0 <= i < args@.len() ==> args@[i] is Some) ==> (r matches Ok(names)
            && names@.len() == args@.len() && forall|i: int|
            0 <= i < args@.len() ==> names@[i]@ == (args@[i]->0)@),
        (exists|i: int| 0 <= i < args@.len() && args@[i] is None) ==> r == Err::<
            Vec<String>,
            MacroArgError,
        >(MacroArgError::UnexpectedArg),
{
    let mut names: Vec<String> = Vec::new();
    let mut i: usize = 0;
    while i < args.len()
        invariant
            i <= args@.len(),
            names@.len() == i,
            forall|j: int| 0 <= j < i ==> args@[j] is Some,
            forall|j: int| 0 <= j < i ==> names@[j]@ == (args@[j]->0)@,
        decreases args@.len() - i,
    {
        match &args[i] {
            Some(w) => names.push(w.clone()),
            None => return Err(MacroArgError::UnexpectedArg),
        }
        i = i + 1;
    }
    Ok(names)
}

} // verus!
