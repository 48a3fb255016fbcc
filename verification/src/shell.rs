//! Shell-word splitting of the descriptor's command line, as the start path
//! needs it to pick the program and its arguments.

use vstd::prelude::*;

verus! {

/// The view of a list of strings as a list of character sequences.
pub open spec fn strings_view(v: Seq<String>) -> Seq<Seq<char>> {
    v.map_values(|s: String| s@)
}

/// The token list that shell-word splitting yields for the given command
/// line, or `None` when the line is erroneous (an unclosed quote). The
/// result depends on the characters alone.
pub uninterp spec fn shell_words(s: Seq<char>) -> Option<Seq<Seq<char>>>;

/// Relies on `shlex::split`: splits a command line into shell words,
/// returning `None` on erroneous input; the result is a function of the
/// characters alone.
#[verifier::external_body]
fn split_words(s: &str) -> (r: Option<Vec<String>>)
    ensures
        match r {
            Some(tokens) => shell_words(s@) == Some(strings_view(tokens@)),
            None => shell_words(s@) is None,
        },
{
    shlex::split(s)
}

/// The tokens the supervisor actually runs: the shell words of the command
/// line, or the whole line as a single token when splitting fails.
pub open spec fn effective_tokens(s: Seq<char>) -> Seq<Seq<char>> {
    match shell_words(s) {
        Some(tokens) => tokens,
        None => seq![s],
    }
}

/// Splits the command line into the tokens to run, falling back to the whole
/// line as one token when shell-word splitting rejects it.
pub fn resolve_tokens(command: &String) -> (r: Vec<String>)
    ensures
        strings_view(r@) == effective_tokens(command@),
{
    match split_words(command.as_str()) {
        Some(tokens) => tokens,
        None => {
            let mut whole: Vec<String> = Vec::new();
            whole.push(command.clone());
            proof {
                assert(strings_view(whole@) =~= seq![command@]);
            }
            whole
        },
    }
}

} // verus!
