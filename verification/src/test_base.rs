//! Where the data of a test lies.

use vstd::prelude::*;
use std::path::PathBuf;
use crate::text::replace_all;
use crate::text::replaced;

verus! {

/// `std::path::PathBuf`: a path in the file system.
#[verifier::external_type_specification]
#[verifier::external_body]
pub struct ExPathBuf(std::path::PathBuf);

/// The text of a path that was made from text.
pub uninterp spec fn path_text(path: PathBuf) -> Seq<char>;

/// `PathBuf::from` on text: the path that the text spells.
#[verifier::external_body]
fn path_from_text(text: String) -> (path: PathBuf)
    ensures
        path_text(path) == text@,
{
    PathBuf::from(text)
}

/// The directory of the data of a test, as text: the name of the file of the
/// test with `test_data/` in the place of every `tests/` and with every `.rs`
/// left out.
pub open spec fn test_data_path(test_file_name: Seq<char>) -> Seq<char> {
    replaced(replaced(test_file_name, "tests/"@, "test_data/"@), ".rs"@, ""@)
}

/// The directory of the data of the test in the file `test_file_name`, as
/// text.
pub fn test_data_path_text(test_file_name: &str) -> (path: String)
    ensures
        path@ == test_data_path(test_file_name@),
{
    let moved = replace_all(test_file_name, "tests/", "test_data/");
    replace_all(moved.as_str(), ".rs", "")
}

/// The directory of the data of the test in the file `test_file_name`.
pub fn get_test_data_path(test_file_name: &str) -> (path: PathBuf)
    ensures
        path_text(path) == test_data_path(test_file_name@),
{
    path_from_text(test_data_path_text(test_file_name))
}

} // verus!
