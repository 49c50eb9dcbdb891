//! The MIME type under which a document is sent.

use vstd::prelude::*;

verus! {

/// The MIME type that the table of `mime_guess` gives first for the extension
/// of a file name, without parameters; nothing where the name has no
/// extension or the table does not know it.
pub uninterp spec fn guessed_mime(name: Seq<char>) -> Option<Seq<char>>;

/// The view of an optional string.
pub open spec fn opt_str_view(s: Option<String>) -> Option<Seq<char>> {
    match s {
        Some(s) => Some(s@),
        None => None,
    }
}

/// The MIME type of a file when nothing better is known.
pub open spec fn fallback_mime() -> Seq<char> {
    "application/octet-stream"@
}

/// The MIME type that a document gets: the one that was chosen for the draft,
/// else the one guessed from the file's name, else the fallback.
pub open spec fn resolved_mime(chosen: Option<Seq<char>>, guessed: Option<Seq<char>>) -> Seq<char> {
    match chosen {
        Some(mime) => mime,
        None => match guessed {
            Some(mime) => mime,
            None => fallback_mime(),
        },
    }
}

/// Calls `mime_guess::from_path` on the name, takes the `first` guess and
/// returns its `essence_str`. Trusted: the result is the one that the crate's
/// fixed table gives for this name, which `guessed_mime` names; the crate
/// reads no file.
#[verifier::external_body]
pub(crate) fn guess_mime(name: &str) -> (r: Option<String>)
    ensures
        opt_str_view(r) == guessed_mime(name@),
{
    match mime_guess::from_path(name).first() {
        Some(mime) => Some(mime.essence_str().to_string()),
        None => None,
    }
}

/// The guessed MIME type, or the fallback where there is none.
pub fn mime_or_fallback(guessed: Option<String>) -> (r: String)
    ensures
        r@ == resolved_mime(None, opt_str_view(guessed)),
{
    match guessed {
        Some(mime) => mime,
        None => "application/octet-stream".to_owned(),
    }
}

/// The MIME type for a file of the given name: the chosen one if there is
/// one, else the guess from the name, else the fallback.
pub fn resolve_mime(chosen: Option<&String>, name: &str) -> (r: String)
    ensures
        r@ == resolved_mime(
            match chosen {
                Some(mime) => Some(mime@),
                None => None,
            },
            guessed_mime(name@),
        ),
{
    match chosen {
        Some(mime) => mime.clone(),
        None => mime_or_fallback(guess_mime(name)),
    }
}

} // verus!
