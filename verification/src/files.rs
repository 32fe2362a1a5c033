use vstd::prelude::*;

use crate::outside::is_file;

verus! {

/// Whether `found` is what the file system may say when `is_file` asks it about
/// `path`. It may say something else when it is asked again.
pub closed spec fn may_answer(path: Seq<char>, found: bool) -> bool {
    exists|text: &str| text@ == path && #[trigger] call_ensures(is_file, (text,), found)
}

/// What is answered about a path was asked about that very path.
pub(crate) proof fn law_answers_are_about_the_path(path: Seq<char>, found: bool)
    ensures
        may_answer(path, found) <==> exists|text: &str|
            text@ == path && #[trigger] call_ensures(is_file, (text,), found),
{
}

fn ask<F: Fn(&str) -> bool>(question: F, path: &str) -> (found: bool)
    requires
        call_requires(question, (path,)),
    ensures
        call_ensures(question, (path,), found),
{
    question(path)
}

/// Asks the file system whether `path` names an existing file.
pub fn probe(path: &str) -> (found: bool)
    ensures
        may_answer(path@, found),
{
    ask(is_file, path)
}

} // verus!
