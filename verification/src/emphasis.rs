//! Emphasis for the terminal.

use colored::Colorize;
use vstd::prelude::*;

verus! {

/// `text` between the escape sequences that switch bold on and all styles
/// off again.
pub open spec fn bold(text: Seq<char>) -> Seq<char> {
    seq!['\x1b', '[', '1', 'm'] + text + seq!['\x1b', '[', '0', 'm']
}

/// What may come out when `msg` is emphasized. A message without an escape
/// character comes out as it is, where styling is switched off, or in bold.
/// Of a message that holds escape characters nothing is said.
pub open spec fn is_emphasized(label: Seq<char>, msg: Seq<char>) -> bool {
    !msg.contains('\x1b') ==> label == msg || label == bold(msg)
}

/// Calls `colored::Colorize::bold` on `msg` and renders the outcome with
/// its `Display`.
///
/// Whether styling is applied depends on the environment of the process and
/// on the override in `colored::control`, so the contract covers both
/// outcomes: the message unchanged, or the message between `ESC[1m` and
/// `ESC[0m`. Where the message itself holds reset sequences, `colored`
/// re-applies the style after each of them; the contract claims nothing of
/// a message that holds an escape character.
#[verifier::external_body]
pub(crate) fn emphasized(msg: &str) -> (label: String)
    ensures
        is_emphasized(label@, msg@),
{
    msg.bold().to_string()
}

} // verus!
