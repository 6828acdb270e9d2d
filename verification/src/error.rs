//! Error values and the rendering of their cause chains.

use vstd::prelude::*;

verus! {

/// An error as this library sees it: a description and, optionally, the
/// error that caused it.
#[derive(Debug, PartialEq, Eq)]
pub struct ErrorValue {
    /// What went wrong, in one line or so.
    pub description: String,
    /// The underlying error, if there is one.
    pub cause: Option<Box<ErrorValue>>,
}

/// The descriptions found by following `link` and then each further
/// cause until none remains, nearest cause first.
pub open spec fn descriptions_from(link: Option<Box<ErrorValue>>) -> Seq<Seq<char>>
    decreases link,
{
    match link {
        None => Seq::empty(),
        Some(cause) => seq![cause.description@] + descriptions_from(cause.cause),
    }
}

/// The first line of a rendering: the description and a newline.
pub open spec fn headline(description: Seq<char>) -> Seq<char> {
    description + seq!['\n']
}

/// The line that reports one cause.
pub open spec fn cause_line(description: Seq<char>) -> Seq<char> {
    "Caused by: "@ + description + seq!['\n']
}

/// The lines of a rendering: the headline, then one line per cause.
pub open spec fn rendered_lines(description: Seq<char>, causes: Seq<Seq<char>>) -> Seq<Seq<char>> {
    seq![headline(description)] + causes.map_values(|d: Seq<char>| cause_line(d))
}

impl ErrorValue {
    /// The descriptions of all causes, nearest first.
    pub open spec fn causes(&self) -> Seq<Seq<char>> {
        descriptions_from(self.cause)
    }

    /// The description of the error followed by those of its causes.
    pub open spec fn chain(&self) -> Seq<Seq<char>> {
        seq![self.description@] + self.causes()
    }

    /// The lines of the rendering, each ending in a newline.
    pub open spec fn lines(&self) -> Seq<Seq<char>> {
        rendered_lines(self.description@, self.causes())
    }

    /// The rendering: all lines, one after the other.
    pub open spec fn formatted(&self) -> Seq<char> {
        self.lines().flatten()
    }

    /// The rendering of an error without a cause is its description and a
    /// newline, nothing else.
    pub proof fn formatted_without_cause(&self)
        requires
            self.cause is None,
        ensures
            self.formatted() == self.description@ + seq!['\n'],
    {
        self.lines().lemma_flatten_one_element();
    }

    /// An error with `n` causes is rendered in `n + 1` lines. Each line ends
    /// in a newline. The first holds the description; the one at `i + 1` is
    /// `Caused by: ` followed by the description of cause `i`. Cause 0 is
    /// the direct cause of the error, and the causes after it are those of
    /// that cause. The rendering is these lines in this order.
    pub proof fn formatted_line_by_line(&self)
        ensures
            self.cause matches Some(nearest) ==> self.causes() == seq![nearest.description@]
                + nearest.causes(),
            self.lines().len() == self.causes().len() + 1,
            self.lines()[0] == self.description@ + seq!['\n'],
            forall|i: int|
                0 <= i < self.causes().len() ==> #[trigger] self.lines()[i + 1] == "Caused by: "@
                    + self.causes()[i] + seq!['\n'],
            forall|i: int|
                0 <= i < self.lines().len() ==> (#[trigger] self.lines()[i]).len() > 0
                    && self.lines()[i].last() == '\n',
            self.formatted() == self.lines().flatten(),
    {
    }

    /// A rendering is never empty and ends in a newline.
    pub proof fn formatted_ends_in_newline(&self)
        ensures
            self.formatted().len() > 0,
            self.formatted().last() == '\n',
    {
        let lines = self.lines();
        lines.lemma_flatten_and_flatten_alt_are_equivalent();
    }
}

impl ErrorValue {
    /// The description of the error itself.
    pub fn describe(&self) -> (description: &str)
        ensures
            description@ == self.description@,
    {
        self.description.as_str()
    }

    /// The error that caused this one, if there is one.
    pub fn source(&self) -> (cause: Option<&ErrorValue>)
        ensures
            match cause {
                Some(cause) => self.cause == Some(Box::new(*cause)),
                None => self.cause is None,
            },
    {
        match &self.cause {
            Some(cause) => Some(&**cause),
            None => None,
        }
    }

    /// An error without a cause.
    pub fn new(description: &str) -> (err: ErrorValue)
        ensures
            err.description@ == description@,
            err.cause is None,
    {
        ErrorValue { description: String::from_str(description), cause: None }
    }

    /// The same error, now caused by `cause`. A cause set earlier is
    /// replaced.
    pub fn caused_by(self, cause: ErrorValue) -> (err: ErrorValue)
        ensures
            err.description == self.description,
            err.cause == Some(Box::new(cause)),
            err.causes() == cause.chain(),
    {
        ErrorValue { description: self.description, cause: Some(Box::new(cause)) }
    }

    /// The error whose chain holds the given descriptions: the first is its
    /// own, each following one is that of the cause of the one before.
    /// There is no such error where no description is given.
    pub fn from_descriptions(descriptions: Vec<String>) -> (err: Option<ErrorValue>)
        ensures
            match err {
                Some(e) => e.chain() == descriptions.deep_view(),
                None => descriptions.len() == 0,
            },
    {
        let mut rest = descriptions;
        let mut link: Option<Box<ErrorValue>> = None;
        loop
            invariant
                rest@ == descriptions@.take(rest.len() as int),
                rest.len() <= descriptions.len(),
                descriptions_from(link) == descriptions.deep_view().skip(rest.len() as int),
                link is None ==> rest.len() == descriptions.len(),
            ensures
                rest.len() == 0,
                descriptions_from(link) == descriptions.deep_view(),
                link is None ==> descriptions.len() == 0,
            decreases rest.len(),
        {
            match rest.pop() {
                None => {
                    break;
                },
                Some(description) => {
                    proof {
                        let all = descriptions.deep_view();
                        let at = rest.len() as int;
                        assert(all.skip(at) =~= seq![description@] + all.skip(at + 1));
                    }
                    link = Some(Box::new(ErrorValue { description, cause: link }));
                },
            }
        }
        match link {
            None => None,
            Some(first) => Some(*first),
        }
    }
}

/// Renders an error with its chain of causes.
pub fn format_err_msg(err: &ErrorValue) -> (err_msg: String)
    ensures
        err_msg@ == err.formatted(),
        err.cause is None ==> err_msg@ == err.description@ + seq!['\n'],
{
    proof {
        if err.cause is None {
            err.formatted_without_cause();
        }
    }
    let mut err_msg = String::from_str(err.description.as_str());
    err_msg.append("\n");
    let mut current: &Option<Box<ErrorValue>> = &err.cause;
    let ghost mut done: int = 0;
    proof {
        reveal_strlit("\n");
        assert(err.lines().take(1) =~= seq![headline(err.description@)]);
        seq![headline(err.description@)].lemma_flatten_one_element();
    }
    loop
        invariant
            0 <= done <= err.causes().len(),
            descriptions_from(*current) == err.causes().skip(done),
            err_msg@ == err.lines().take(done + 1).flatten(),
        ensures
            err_msg@ == err.formatted(),
        decreases err.causes().len() - done,
    {
        match current {
            None => {
                proof {
                    assert(err.lines().take(done + 1) =~= err.lines());
                }
                break;
            },
            Some(cause) => {
                err_msg.append("Caused by: ");
                err_msg.append(cause.description.as_str());
                err_msg.append("\n");
                proof {
                    reveal_strlit("\n");
                    let rest = err.causes().skip(done);
                    let tail = descriptions_from(cause.cause);
                    assert(rest == seq![cause.description@] + tail);
                    assert(err.causes()[done] == rest[0]);
                    assert(rest.skip(1) =~= err.causes().skip(done + 1));
                    let before = err.lines().take(done + 1);
                    assert(err.lines().take(done + 2) =~= before.push(cause_line(cause.description@)));
                    before.lemma_flatten_push(cause_line(cause.description@));
                    done = done + 1;
                }
                current = &cause.cause;
            },
        }
    }
    err_msg
}

} // verus!
