//! Values with validity constraints attached: the schema layer generates a
//! validator per constrained type (length bounds and a pattern for strings)
//! and wraps values that passed, or were asserted, valid.

use vstd::prelude::*;
use vstd::string::StringSliceAdditionalSpecFns;

verus! {

/// Whether a pattern compiles as a regular expression; a property of the
/// pattern alone.
pub uninterp spec fn regex_valid(pattern: Seq<char>) -> bool;

/// Whether a regular expression matches anywhere in a value; a function of
/// the pattern and the value alone.
pub uninterp spec fn regex_match(pattern: Seq<char>, value: Seq<char>) -> bool;

/// Relies on regex::Regex::new, which accepts exactly the patterns that
/// compile, and regex::Regex::is_match, which tells whether the compiled
/// pattern matches anywhere in the value.
#[verifier::external_body]
fn regex_is_match(pattern: &str, value: &str) -> (r: Option<bool>)
    ensures
        (r is Some) == regex_valid(pattern@),
        r matches Some(b) ==> b == regex_match(pattern@, value@),
{
    regex::Regex::new(pattern).ok().map(|re| re.is_match(value))
}

/// What a string validator checks: the length bounds that are set, counted
/// in bytes as the wire schemas do, and the pattern when there is one — an
/// invalid pattern accepts nothing.
pub open spec fn spec_string_check(
    value: &str,
    min: Option<usize>,
    max: Option<usize>,
    pattern: Option<Seq<char>>,
) -> bool {
    &&& (match min {
        Some(m) => (value.spec_bytes().len() as usize) >= m,
        None => true,
    })
    &&& (match max {
        Some(m) => (value.spec_bytes().len() as usize) <= m,
        None => true,
    })
    &&& (match pattern {
        Some(p) => regex_valid(p) && regex_match(p, value@),
        None => true,
    })
}

/// Checks a string against length bounds and an optional pattern.
pub fn string_check(
    value: &str,
    min: Option<usize>,
    max: Option<usize>,
    pattern: Option<&str>,
) -> (r: bool)
    ensures
        r == spec_string_check(
            value,
            min,
            max,
            match pattern {
                Some(p) => Some(p@),
                None => None,
            },
        ),
{
    let mut ok = true;
    match min {
        Some(m) => {
            if value.len() < m {
                ok = false;
            }
        },
        None => {},
    }
    match max {
        Some(m) => {
            if value.len() > m {
                ok = false;
            }
        },
        None => {},
    }
    if !ok {
        return false;
    }
    match pattern {
        Some(p) => match regex_is_match(p, value) {
            Some(b) => b,
            None => false,
        },
        None => true,
    }
}

/// Checks that a value is valid for some particular use.
pub trait Validator<T> {
    /// Check if the value is valid.
    fn is_valid(value: &T) -> bool;
}

/// Specialized validator for strings: minimum and maximum lengths, and a
/// pattern.
pub trait StringValidator {
    /// The minimum length (inclusive) for values.
    fn min_length() -> Option<usize>;

    /// The maximum length (inclusive) for values.
    fn max_length() -> Option<usize>;

    /// A regular expression that values must match.
    fn pattern() -> Option<&'static str>;

    /// Whether a value meets the bounds and the pattern.
    fn is_valid(value: &str) -> bool {
        string_check(value, Self::min_length(), Self::max_length(), Self::pattern())
    }
}

/// A value with some validity constraints associated with it.
pub struct Constrained<T, V>(T, core::marker::PhantomData<V>);

impl<T, V: Validator<T>> Constrained<T, V> {
    /// The wrapped value.
    pub closed spec fn value(&self) -> T {
        self.0
    }

    /// Wraps a value without checking its validity; for use when the value
    /// is known valid, or the cost of checking is to be avoided.
    pub fn unchecked(value: T) -> (r: Self)
        ensures
            r.value() == value,
    {
        Constrained(value, core::marker::PhantomData)
    }

    /// The wrapped value, by reference.
    pub fn get(&self) -> (r: &T)
        ensures
            *r == self.value(),
    {
        &self.0
    }

    /// The wrapped value, moved out.
    pub fn into_inner(self) -> (r: T)
        ensures
            r == self.value(),
    {
        self.0
    }
}

/// Makes a value into a constrained wrapper.
pub trait IntoConstrained<V: Validator<Self>>: Sized {
    /// Wraps the value if the validator accepts it; hands it back
    /// otherwise.
    fn try_validate(self) -> (r: Result<Constrained<Self, V>, Self>)
        ensures
            match r {
                Ok(c) => c.value() == self,
                Err(v) => v == self,
            },
    {
        if V::is_valid(&self) {
            Ok(Constrained::unchecked(self))
        } else {
            Err(self)
        }
    }

    /// Wraps the value without checking.
    fn unchecked(self) -> (r: Constrained<Self, V>)
        ensures
            r.value() == self,
    {
        Constrained::unchecked(self)
    }
}

impl<T, V: Validator<T>> IntoConstrained<V> for T {}

/// Turns a constrained borrowed value into a constrained owned one.
pub trait RefConstrained<T, V: Validator<T>> {
    fn to_owned(self) -> Constrained<T, V>;
}

impl<'a, V: Validator<String> + Validator<&'a str>> RefConstrained<
    String,
    V,
> for Constrained<&'a str, V> {
    fn to_owned(self) -> Constrained<String, V> {
        Constrained(self.0.to_owned(), core::marker::PhantomData)
    }
}

} // verus!
