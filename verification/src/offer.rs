//! What is said of a file before any of its bytes move.

use vstd::prelude::*;

verus! {

/// The name and size of the file on offer.
#[derive(Clone, Debug, PartialEq, Eq)]
pub struct TransferOffer {
    pub name: String,
    pub size: u64,
}

/// The last component of a path as `std::path::Path::file_name` gives it:
/// `None` where the path ends in no name, or in one that is not UTF-8. The
/// component is a part of the path, taken as it stands there. Which part it
/// is, and whether there is one, depends on the platform's separators, so
/// nothing more is claimed of the result.
#[verifier::external_body]
fn path_leaf(path: &str) -> (leaf: Option<String>)
    ensures
        leaf matches Some(name) ==> part_of(name@, path@),
{
    let leaf = std::path::Path::new(path).file_name()?;
    leaf.to_str().map(String::from)
}

/// The name to offer a file under, given the last component of its path.
pub fn label_for(leaf: Option<String>) -> (label: String)
    ensures
        label@ == match leaf {
            Some(name) => name@,
            None => default_label(),
        },
{
    match leaf {
        Some(name) => name,
        None => String::from_str("file"),
    }
}

/// The name to offer the file at `path` under: the last component of the
/// path, or `file` where the platform finds none.
pub fn offer_label(path: &str) -> (label: String)
    ensures
        part_of(label@, path@) || label@ == default_label(),
{
    label_for(path_leaf(path))
}

/// The name a file is offered under where its path ends in none.
pub open spec fn default_label() -> Seq<char> {
    "file"@
}

/// `piece` stands in `whole`, unbroken and unchanged.
pub open spec fn part_of(piece: Seq<char>, whole: Seq<char>) -> bool {
    exists|from: int, to: int|
        0 <= from <= to <= whole.len() && piece == #[trigger] whole.subrange(from, to)
}

} // verus!
