//! Hints: advice for the user, attached to an error without changing it.

use vstd::prelude::*;

use crate::giveup::GiveupFormatError;

verus! {

/// How a hint is shown: the hint alone, or the hint followed by the example
/// between backticks.
pub open spec fn hint_text(hint: Seq<char>, example: Option<Seq<char>>) -> Seq<char> {
    match example {
        Some(example) => hint + ": `"@ + example + seq!['`'],
        None => hint,
    }
}

/// Information on events which is meant for users to act on the event
/// correctly.
#[derive(Debug)]
struct Hint<'a> {
    hint: &'a str,
    example: Option<&'a str>,
}

impl<'a> Hint<'a> {
    /// The hint as it is shown to the user, without a newline.
    fn render(&self) -> (text: String)
        ensures
            text@ == hint_text(
                self.hint@,
                match self.example {
                    Some(example) => Some(example@),
                    None => None,
                },
            ),
    {
        let mut text = String::from_str(self.hint);
        match self.example {
            Some(example) => {
                text.append(": `");
                text.append(example);
                text.append("`");
                proof {
                    reveal_strlit("`");
                    assert(text@ =~= self.hint@ + ": `"@ + example@ + seq!['`']);
                }
            },
            None => {},
        }
        text
    }
}

/// Combination of an error with user information.
#[derive(Debug)]
pub struct HintedError<'a, E> {
    /// The wrapped error.
    e: E,
    /// Additional user information about the error.
    hint: Hint<'a>,
}

impl<'a, E> HintedError<'a, E> {
    /// The wrapped error.
    pub closed spec fn wrapped(&self) -> E {
        self.e
    }

    /// The hint that was attached to the error.
    pub closed spec fn hint(&self) -> Seq<char> {
        self.hint.hint@
    }

    /// The example that goes with the hint, if one was attached.
    pub closed spec fn example(&self) -> Option<Seq<char>> {
        match self.hint.example {
            Some(example) => Some(example@),
            None => None,
        }
    }

    /// Whether `self` is the error `e` with the hint `hint` attached and no
    /// example.
    pub open spec fn is_from_hint(&self, e: E, hint: Seq<char>) -> bool {
        &&& self.wrapped() == e
        &&& self.hint() == hint
        &&& self.example() is None
    }

    /// Whether `self` is `before` with its example replaced by `example`:
    /// the same error, the same hint, and `example` as the example.
    pub open spec fn is_with_example(&self, before: Self, example: Seq<char>) -> bool {
        &&& self.wrapped() == before.wrapped()
        &&& self.hint() == before.hint()
        &&& self.example() == Some(example)
    }

    /// The wrapped error.
    pub fn error(&self) -> (e: &E)
        ensures
            *e == self.wrapped(),
    {
        &self.e
    }

    /// The hint, as it was given.
    pub fn hint_message(&self) -> (hint: &'a str)
        ensures
            hint@ == self.hint(),
    {
        self.hint.hint
    }

    /// The example, if one was attached.
    pub fn example_message(&self) -> (example: Option<&'a str>)
        ensures
            match example {
                Some(text) => self.example() == Some(text@),
                None => self.example() is None,
            },
    {
        self.hint.example
    }

    /// Attaches an example to the hint. An example attached earlier is
    /// replaced; the error and the hint stay as they are.
    pub fn with_example(self, example: &'a str) -> (hinted: Self)
        ensures
            hinted.is_with_example(self, example@),
    {
        Self { e: self.e, hint: Hint { hint: self.hint.hint, example: Some(example) } }
    }
}

impl<'a, E> HintedError<'a, E> where E: GiveupFormatError {
    /// Create a new error wrapper which combines the given error with
    /// a hint on how to resolve the error.
    pub fn from_hint(e: E, hint: &'a str) -> (hinted: Self)
        ensures
            hinted.is_from_hint(e, hint@),
    {
        Self { e, hint: Hint { hint, example: None } }
    }
}

/// An error with a hint and no example is rendered as the error alone is,
/// followed by the hint on a line of its own.
pub proof fn hint_is_appended<'a, E: GiveupFormatError>(
    e: E,
    hinted: HintedError<'a, E>,
    hint: Seq<char>,
)
    requires
        hinted.is_from_hint(e, hint),
    ensures
        hinted.rendering() == e.rendering() + hint + seq!['\n'],
        e.rendering().len() > 0 && e.rendering().last() == '\n',
{
    e.rendering_ends_in_newline();
}

/// An error with a hint to which an example was then attached is rendered
/// as the error alone is, followed by a last line that holds the hint, a
/// colon, a space, and the example between backticks.
pub proof fn hint_then_example_is_last_line<'a, E: GiveupFormatError>(
    e: E,
    hinted: HintedError<'a, E>,
    complete: HintedError<'a, E>,
    hint: Seq<char>,
    example: Seq<char>,
)
    requires
        hinted.is_from_hint(e, hint),
        complete.is_with_example(hinted, example),
    ensures
        complete.rendering() == e.rendering() + (hint + ": `"@ + example + seq!['`']) + seq![
            '\n',
        ],
        e.rendering().len() > 0 && e.rendering().last() == '\n',
{
    e.rendering_ends_in_newline();
}

/// Where an example is attached after another, only the later one remains:
/// the outcome is what attaching the later example alone gives, and the
/// earlier example has no part in the rendering.
pub proof fn later_example_replaces_earlier<'a, E: GiveupFormatError>(
    hinted: HintedError<'a, E>,
    earlier: HintedError<'a, E>,
    later: HintedError<'a, E>,
    first: Seq<char>,
    second: Seq<char>,
)
    requires
        earlier.is_with_example(hinted, first),
        later.is_with_example(earlier, second),
    ensures
        later.is_with_example(hinted, second),
        later.example() == Some(second),
        later.rendering() == hinted.wrapped().rendering() + (hinted.hint() + ": `"@ + second
            + seq!['`']) + seq!['\n'],
{
}

/// A hinted error is rendered as the wrapped error is, followed by one more
/// line that holds the hint.
impl<'a, E> GiveupFormatError for HintedError<'a, E> where E: GiveupFormatError {
    open spec fn rendering(&self) -> Seq<char> {
        self.wrapped().rendering() + hint_text(self.hint(), self.example()) + seq!['\n']
    }

    proof fn rendering_ends_in_newline(&self) {
    }

    fn format_err_msg(&self) -> (err_msg: String) {
        let mut err_msg = self.e.format_err_msg();
        let hint = self.hint.render();
        err_msg.append(hint.as_str());
        err_msg.append("\n");
        proof {
            reveal_strlit("\n");
        }
        err_msg
    }
}

/// Add an example message to an object.
pub trait Example<'a> {
    /// Consumes and returns `self` combined with the
    /// given `example` message.
    fn example(self, example: &'a str) -> Self;
}

/// Implementation of `Example` on any `Result`s returned by `hint`.
impl<'a, T, E> Example<'a> for Result<T, HintedError<'a, E>> {
    /// Set the example of the hint to the given string if `self` is an
    /// error. A success passes through untouched.
    fn example(self, example: &'a str) -> (outcome: Self)
        ensures
            match self {
                Ok(value) => outcome == Ok::<T, HintedError<'a, E>>(value),
                Err(hinted) => outcome matches Err(with_example) && with_example.is_with_example(
                    hinted,
                    example@,
                ),
            },
    {
        match self {
            Ok(value) => Ok(value),
            Err(hinted) => Err(hinted.with_example(example)),
        }
    }
}

} // verus!
