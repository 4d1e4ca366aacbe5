use vstd::prelude::*;
use vstd::std_specs::convert::FromSpecImpl;

verus! {

/// The benchmark environments that the solver can be run on.
#[derive(Clone, Copy, Debug, PartialEq, Eq, Structural)]
pub enum EnvironmentType {
    MountainCar,
    CartPole,
    Pendulum,
}

/// A value read from the command line.
#[derive(Clone, Debug, PartialEq, Eq)]
pub struct CliArg<T> {
    pub inner: T,
}

impl<T> From<T> for CliArg<T> {
    fn from(value: T) -> (r: Self) {
        CliArg { inner: value }
    }
}

impl<T> FromSpecImpl<T> for CliArg<T> {
    open spec fn obeys_from_spec() -> bool {
        true
    }

    open spec fn from_spec(value: T) -> Self {
        CliArg { inner: value }
    }
}

/// What `str::to_lowercase` returns for a string with the given characters.
pub uninterp spec fn lowercase_of(s: Seq<char>) -> Seq<char>;

/// Calls `str::to_lowercase`, which maps every character of `s` to its
/// Unicode lowercase form. The contract only names the result: it is the
/// same for the same characters; what each character maps to is not stated.
#[verifier::external_body]
fn to_lowercase(s: &str) -> (r: String)
    ensures
        r@ == lowercase_of(s@),
{
    s.to_lowercase()
}

/// Whether two strings hold the same characters.
pub fn text_eq(a: &str, b: &str) -> (r: bool)
    ensures
        r == (a@ == b@),
{
    let n = a.unicode_len();
    if n != b.unicode_len() {
        return false;
    }
    let mut i: usize = 0;
    while i < n
        invariant
            n == a@.len(),
            n == b@.len(),
            i <= n,
            forall|j: int| 0 <= j < i ==> a@[j] == b@[j],
        decreases n - i,
    {
        if a.get_char(i) != b.get_char(i) {
            return false;
        }
        i = i + 1;
    }
    assert(a@ =~= b@);
    true
}

/// The environment named by an already lowercased command-line value.
pub open spec fn environment_type_of(lower: Seq<char>) -> Option<EnvironmentType> {
    if lower == "mc"@ || lower == "mountain_car"@ || lower == "mountain-car"@ {
        Some(EnvironmentType::MountainCar)
    } else if lower == "cp"@ || lower == "cartpole"@ || lower == "cart-pole"@ {
        Some(EnvironmentType::CartPole)
    } else if lower == "pen"@ || lower == "pendulum"@ {
        Some(EnvironmentType::Pendulum)
    } else {
        None
    }
}

/// The message with which an unknown environment name is refused.
pub open spec fn unknown_environment_message(s: Seq<char>) -> Seq<char> {
    "'"@ + s + "' is not recognised as an environment."@
}

/// Reads an environment name that has already been lowercased.
pub fn environment_type_from_lowercase(lower: &str) -> (r: Option<EnvironmentType>)
    ensures
        r == environment_type_of(lower@),
{
    if text_eq(lower, "mc") || text_eq(lower, "mountain_car") || text_eq(lower, "mountain-car") {
        Some(EnvironmentType::MountainCar)
    } else if text_eq(lower, "cp") || text_eq(lower, "cartpole") || text_eq(lower, "cart-pole") {
        Some(EnvironmentType::CartPole)
    } else if text_eq(lower, "pen") || text_eq(lower, "pendulum") {
        Some(EnvironmentType::Pendulum)
    } else {
        None
    }
}

/// Reads the `--env` argument, ignoring case.
pub fn parser_environment_type(s: &str) -> (r: Result<CliArg<EnvironmentType>, String>)
    ensures
        match r {
            Ok(arg) => environment_type_of(lowercase_of(s@)) == Some(arg.inner),
            Err(msg) => environment_type_of(lowercase_of(s@)) is None
                && msg@ == unknown_environment_message(s@),
        },
{
    let s_l = to_lowercase(s);
    match environment_type_from_lowercase(s_l.as_str()) {
        Some(t) => Ok(CliArg::from(t)),
        None => {
            let mut msg = String::from_str("'");
            msg.append(s);
            msg.append("' is not recognised as an environment.");
            Err(msg)
        },
    }
}

/// The Boolean that a command-line value stands for, given the value and its
/// lowercased form: "1" or any casing of "true" is true, "0" or any casing
/// of "false" is false.
pub open spec fn bool_parameter_of(s: Seq<char>, lower: Seq<char>) -> Option<bool> {
    if s == "1"@ || lower == "true"@ {
        Some(true)
    } else if s == "0"@ || lower == "false"@ {
        Some(false)
    } else {
        None
    }
}

/// The message with which a value that is not a Boolean is refused.
pub open spec fn invalid_bool_message(s: Seq<char>) -> Seq<char> {
    "'"@ + s + "' is not valid input for a Boolean parameter."@
}

/// Reads a Boolean from a value and its lowercased form.
pub fn bool_parameter_from(s: &str, lower: &str) -> (r: Option<bool>)
    ensures
        r == bool_parameter_of(s@, lower@),
{
    if text_eq(s, "1") || text_eq(lower, "true") {
        Some(true)
    } else if text_eq(s, "0") || text_eq(lower, "false") {
        Some(false)
    } else {
        None
    }
}

/// Reads a Boolean command-line argument.
pub fn parser_bool_parameter(s: &str) -> (r: Result<CliArg<bool>, String>)
    ensures
        match r {
            Ok(arg) => bool_parameter_of(s@, lowercase_of(s@)) == Some(arg.inner),
            Err(msg) => bool_parameter_of(s@, lowercase_of(s@)) is None
                && msg@ == invalid_bool_message(s@),
        },
{
    let s_l = to_lowercase(s);
    match bool_parameter_from(s, s_l.as_str()) {
        Some(b) => Ok(CliArg::from(b)),
        None => {
            let mut msg = String::from_str("'");
            msg.append(s);
            msg.append("' is not valid input for a Boolean parameter.");
            Err(msg)
        },
    }
}

/// Environment names are read without regard to case: two values with the
/// same lowercase form name the same environment, or are both refused.
pub proof fn lemma_environment_names_ignore_case(a: Seq<char>, b: Seq<char>)
    requires
        lowercase_of(a) == lowercase_of(b),
    ensures
        environment_type_of(lowercase_of(a)) == environment_type_of(lowercase_of(b)),
{
}

/// Apart from the digits "1" and "0", Boolean values are read without regard
/// to case.
pub proof fn lemma_bool_values_ignore_case(a: Seq<char>, b: Seq<char>)
    requires
        lowercase_of(a) == lowercase_of(b),
        a != "1"@ && a != "0"@,
        b != "1"@ && b != "0"@,
    ensures
        bool_parameter_of(a, lowercase_of(a)) == bool_parameter_of(b, lowercase_of(b)),
{
}

/// Each environment is named by exactly its aliases: "mc", "mountain_car"
/// and "mountain-car" for the mountain car, "cp", "cartpole" and "cart-pole"
/// for the cart pole, "pen" and "pendulum" for the pendulum; any other
/// lowercased value names none.
pub proof fn lemma_environment_aliases(lower: Seq<char>)
    ensures
        environment_type_of(lower) == Some(EnvironmentType::MountainCar) <==> (lower == "mc"@
            || lower == "mountain_car"@ || lower == "mountain-car"@),
        environment_type_of(lower) == Some(EnvironmentType::CartPole) <==> (!(lower == "mc"@
            || lower == "mountain_car"@ || lower == "mountain-car"@) && (lower == "cp"@ || lower
            == "cartpole"@ || lower == "cart-pole"@)),
        environment_type_of(lower) == Some(EnvironmentType::Pendulum) <==> (!(lower == "mc"@
            || lower == "mountain_car"@ || lower == "mountain-car"@) && !(lower == "cp"@ || lower
            == "cartpole"@ || lower == "cart-pole"@) && (lower == "pen"@ || lower == "pendulum"@)),
        environment_type_of(lower) is None <==> !(lower == "mc"@ || lower == "mountain_car"@
            || lower == "mountain-car"@ || lower == "cp"@ || lower == "cartpole"@ || lower
            == "cart-pole"@ || lower == "pen"@ || lower == "pendulum"@),
{
}

/// "1" and any casing of "true" read as true; otherwise "0" and any casing
/// of "false" read as false; nothing else is a Boolean.
pub proof fn lemma_bool_values(s: Seq<char>, lower: Seq<char>)
    ensures
        bool_parameter_of(s, lower) == Some(true) <==> (s == "1"@ || lower == "true"@),
        bool_parameter_of(s, lower) == Some(false) <==> (!(s == "1"@ || lower == "true"@) && (s
            == "0"@ || lower == "false"@)),
        bool_parameter_of(s, lower) is None <==> !(s == "1"@ || lower == "true"@ || s == "0"@
            || lower == "false"@),
{
}

} // verus!
