//! Giving up on a failed computation: what is shown to the user, and the
//! exit status the program is to end with.

use vstd::prelude::*;

use crate::emphasis::{emphasized, is_emphasized};
use crate::error::{format_err_msg, ErrorValue};
use crate::hint::HintedError;

verus! {

/// Any error which can be rendered for the user of a command-line program.
pub trait GiveupFormatError: Send + Sync {
    /// The text that `format_err_msg` produces, as a sequence of characters.
    spec fn rendering(&self) -> Seq<char>;

    /// Every rendering consists of whole lines: it ends in a newline.
    proof fn rendering_ends_in_newline(&self)
        ensures
            self.rendering().len() > 0,
            self.rendering().last() == '\n',
    ;

    /// Format an error to display its contents to a CLI user.
    fn format_err_msg(&self) -> (err_msg: String)
        ensures
            err_msg@ == self.rendering(),
    ;
}

impl GiveupFormatError for ErrorValue {
    open spec fn rendering(&self) -> Seq<char> {
        self.formatted()
    }

    proof fn rendering_ends_in_newline(&self) {
        self.formatted_ends_in_newline();
    }

    fn format_err_msg(&self) -> (err_msg: String) {
        format_err_msg(self)
    }
}

/// The exit status of a program that gave up.
pub const EXIT_STATUS: i32 = 1;

/// The end of a program that gave up: what it writes to its diagnostic
/// stream, and the status it exits with.
#[derive(Debug, PartialEq, Eq)]
pub struct Termination {
    /// The text for the diagnostic stream, complete with its final newline.
    pub diagnostic: String,
    /// The exit status of the process.
    pub status: i32,
}

/// The diagnostic text: the label, a colon and a space, and the rendering
/// of the error. Nothing follows the rendering.
pub open spec fn diagnostic_text(label: Seq<char>, body: Seq<char>) -> Seq<char> {
    label + seq![':', ' '] + body
}

/// Whether `text` is a diagnostic for the message `msg` and the rendering
/// `body`: the message, emphasized in one of the ways the terminal styling
/// allows, then the colon, the space and the rendering.
pub open spec fn is_diagnostic(text: Seq<char>, msg: Seq<char>, body: Seq<char>) -> bool {
    exists|label: Seq<char>| #[trigger]
        is_emphasized(label, msg) && text == diagnostic_text(label, body)
}

/// Puts a diagnostic together from a label, already styled, and the
/// rendering of an error.
pub fn diagnostic(label: &str, body: &str) -> (text: String)
    ensures
        text@ == diagnostic_text(label@, body@),
{
    let mut text = String::from_str(label);
    text.append(": ");
    text.append(body);
    proof {
        reveal_strlit(": ");
        assert(text@ =~= diagnostic_text(label@, body@));
    }
    text
}

impl Termination {
    /// The end of a program that gives up with the message `msg` on an
    /// error rendered as `err_msg`.
    pub fn new(msg: &str, err_msg: &str) -> (end: Termination)
        ensures
            end.status == EXIT_STATUS,
            is_diagnostic(end.diagnostic@, msg@, err_msg@),
    {
        let label = emphasized(msg);
        let text = diagnostic(label.as_str(), err_msg);
        assert(is_emphasized(label@, msg@));
        Termination { diagnostic: text, status: EXIT_STATUS }
    }
}

/// User-geared program termination.
pub trait Giveup<T, E> where E: GiveupFormatError {
    /// Decide how the program goes on: with the value of a success, or by
    /// ending itself with a user-geared error message.
    fn giveup(self, msg: &str) -> Result<T, Termination>;

    /// Add hints to errors to help users solve the issue which
    /// raised the error.
    ///
    /// `example` can be called on `Result`s returned by this method to
    /// subsidize the hint with an example of the recommended action.
    fn hint<'a>(self, hint: &'a str) -> Result<T, HintedError<'a, E>>;
}

impl<T, E> Giveup<T, E> for Result<T, E> where E: GiveupFormatError {
    /// A success hands its value on. A failure ends the program: the
    /// diagnostic is the emphasized message, a colon and a space, and the
    /// rendering of the error, and the exit status is `EXIT_STATUS`.
    fn giveup(self, msg: &str) -> (outcome: Result<T, Termination>)
        ensures
            match self {
                Ok(value) => outcome == Ok::<T, Termination>(value),
                Err(e) => outcome matches Err(end) && end.status == EXIT_STATUS && is_diagnostic(
                    end.diagnostic@,
                    msg@,
                    e.rendering(),
                ),
            },
    {
        match self {
            Ok(value) => Ok(value),
            Err(e) => {
                let err_msg = e.format_err_msg();
                Err(Termination::new(msg, err_msg.as_str()))
            },
        }
    }

    /// A success passes through with its value. A failure comes back as
    /// the same error with the hint attached and no example; its rendering
    /// is that of the error followed by the hint on a line of its own.
    fn hint<'a>(self, hint: &'a str) -> (outcome: Result<T, HintedError<'a, E>>)
        ensures
            match self {
                Ok(value) => outcome == Ok::<T, HintedError<'a, E>>(value),
                Err(e) => outcome matches Err(hinted) && hinted.is_from_hint(e, hint@)
                    && hinted.rendering() == e.rendering() + hint@ + seq!['\n'],
            },
    {
        match self {
            Ok(value) => Ok(value),
            Err(e) => Err(HintedError::from_hint(e, hint)),
        }
    }
}

} // verus!
