//! The lexical primitives of the assembler: runs of characters of one class
//! and literal tags, recognised by `nom`.

use vstd::prelude::*;

verus! {

/// The error type of `nom`'s parsers; nothing is read from it.
#[verifier::external_type_specification]
#[verifier::external_body]
#[verifier::reject_recursive_types(E)]
pub struct ExNomErr<E>(nom::Err<E>);

/// The default error payload of `nom`'s parsers; nothing is read from it.
#[verifier::external_type_specification]
#[verifier::external_body]
#[verifier::reject_recursive_types(I)]
pub struct ExNomError<I>(nom::error::Error<I>);

/// A class of characters that a run is made of.
#[derive(Clone, Copy, Debug, PartialEq, Eq, Structural)]
pub enum CharClass {
    /// ASCII letters.
    Alpha,
    /// ASCII decimal digits.
    Digit,
    /// Space and tab.
    Space,
    /// Space, tab, carriage return and line feed.
    MultiSpace,
}

impl CharClass {
    /// Whether the class holds the character.
    pub open spec fn contains(self, c: char) -> bool {
        match self {
            CharClass::Alpha => ('a' <= c && c <= 'z') || ('A' <= c && c <= 'Z'),
            CharClass::Digit => '0' <= c && c <= '9',
            CharClass::Space => c == ' ' || c == '\t',
            CharClass::MultiSpace => c == ' ' || c == '\t' || c == '\r' || c == '\n',
        }
    }
}

/// `matched` is the longest run of characters of `class` that `input` starts
/// with, and `rest` is what follows it.
pub open spec fn is_run_split(
    input: Seq<char>,
    class: CharClass,
    matched: Seq<char>,
    rest: Seq<char>,
) -> bool {
    &&& input == matched + rest
    &&& forall|i: int| 0 <= i < matched.len() ==> class.contains(#[trigger] matched[i])
    &&& rest.len() > 0 ==> !class.contains(rest[0])
}

/// `input` does not start with a character of `class`.
pub open spec fn has_no_run(input: Seq<char>, class: CharClass) -> bool {
    input.len() == 0 || !class.contains(input[0])
}

/// `nom::character::complete::alpha1` on a string slice: splits off the
/// longest run of ASCII letters at the start of the input, and fails exactly
/// when there is none.
#[verifier::external_body]
pub(crate) fn alpha1<'a>(input: &'a str) -> (r: Result<
    (&'a str, &'a str),
    nom::Err<nom::error::Error<&'a str>>,
>)
    ensures
        match r {
            Ok((rest, matched)) => matched@.len() > 0 && is_run_split(
                input@,
                CharClass::Alpha,
                matched@,
                rest@,
            ),
            Err(_) => has_no_run(input@, CharClass::Alpha),
        },
{
    nom::character::complete::alpha1(input)
}

/// `nom::character::complete::digit1` on a string slice: splits off the
/// longest run of ASCII decimal digits at the start of the input, and fails
/// exactly when there is none.
#[verifier::external_body]
pub(crate) fn digit1<'a>(input: &'a str) -> (r: Result<
    (&'a str, &'a str),
    nom::Err<nom::error::Error<&'a str>>,
>)
    ensures
        match r {
            Ok((rest, matched)) => matched@.len() > 0 && is_run_split(
                input@,
                CharClass::Digit,
                matched@,
                rest@,
            ),
            Err(_) => has_no_run(input@, CharClass::Digit),
        },
{
    nom::character::complete::digit1(input)
}

/// `nom::character::complete::space1` on a string slice: splits off the
/// longest run of spaces and tabs at the start of the input, and fails
/// exactly when there is none.
#[verifier::external_body]
pub(crate) fn space1<'a>(input: &'a str) -> (r: Result<
    (&'a str, &'a str),
    nom::Err<nom::error::Error<&'a str>>,
>)
    ensures
        match r {
            Ok((rest, matched)) => matched@.len() > 0 && is_run_split(
                input@,
                CharClass::Space,
                matched@,
                rest@,
            ),
            Err(_) => has_no_run(input@, CharClass::Space),
        },
{
    nom::character::complete::space1(input)
}

/// `nom::character::complete::multispace1` on a string slice: splits off the
/// longest run of spaces, tabs, carriage returns and line feeds at the start
/// of the input, and fails exactly when there is none.
#[verifier::external_body]
pub(crate) fn multispace1<'a>(input: &'a str) -> (r: Result<
    (&'a str, &'a str),
    nom::Err<nom::error::Error<&'a str>>,
>)
    ensures
        match r {
            Ok((rest, matched)) => matched@.len() > 0 && is_run_split(
                input@,
                CharClass::MultiSpace,
                matched@,
                rest@,
            ),
            Err(_) => has_no_run(input@, CharClass::MultiSpace),
        },
{
    nom::character::complete::multispace1(input)
}

/// `nom::bytes::complete::tag` on string slices: succeeds exactly when the
/// input starts with the pattern, and then splits the pattern off.
#[verifier::external_body]
pub(crate) fn tag<'a>(pattern: &str, input: &'a str) -> (r: Result<
    (&'a str, &'a str),
    nom::Err<nom::error::Error<&'a str>>,
>)
    ensures
        match r {
            Ok((rest, matched)) => matched@ == pattern@ && input@ == pattern@ + rest@,
            Err(_) => !pattern@.is_prefix_of(input@),
        },
{
    nom::bytes::complete::tag(pattern)(input)
}

/// The length of the longest run of characters of `class` that `s` starts with.
pub open spec fn run_length(s: Seq<char>, class: CharClass) -> nat
    decreases s.len(),
{
    if s.len() > 0 && class.contains(s[0]) {
        1 + run_length(s.drop_first(), class)
    } else {
        0
    }
}

/// A run is no longer than the text it starts.
pub proof fn lemma_run_length_bound(s: Seq<char>, class: CharClass)
    ensures
        run_length(s, class) <= s.len(),
    decreases s.len(),
{
    if s.len() > 0 && class.contains(s[0]) {
        lemma_run_length_bound(s.drop_first(), class);
    }
}

/// A split into the longest run and the rest is the split at the run's length.
pub proof fn lemma_run_split(input: Seq<char>, class: CharClass, matched: Seq<char>, rest: Seq<char>)
    requires
        is_run_split(input, class, matched, rest),
    ensures
        run_length(input, class) == matched.len(),
        matched == input.take(matched.len() as int),
        rest == input.skip(matched.len() as int),
    decreases matched.len(),
{
    assert(matched =~= input.take(matched.len() as int));
    assert(rest =~= input.skip(matched.len() as int));
    if matched.len() > 0 {
        assert(input[0] == matched[0]);
        assert(input.drop_first() =~= matched.drop_first() + rest);
        assert forall|i: int| 0 <= i < matched.drop_first().len() implies class.contains(
            #[trigger] matched.drop_first()[i],
        ) by {
            assert(matched.drop_first()[i] == matched[i + 1]);
        }
        lemma_run_split(input.drop_first(), class, matched.drop_first(), rest);
    } else {
        assert(input =~= rest);
    }
}

/// A text that starts with no character of a class has a run of length zero.
pub proof fn lemma_no_run(input: Seq<char>, class: CharClass)
    ensures
        has_no_run(input, class) <==> run_length(input, class) == 0,
{
}

} // verus!
