//! One directory entry, as plain facts, and the rule that decides whether
//! it takes part in the rename pass.

use vstd::prelude::*;

verus! {

/// What the scan could read of an entry's final path component.
#[derive(Debug, Clone, PartialEq, Eq)]
pub enum RawName {
    /// The entry's path has no final component.
    Missing,
    /// The final component is not valid UTF-8 text.
    NotUtf8,
    /// The final component, as text.
    Text(String),
}

/// One directory entry, as the facts the pass decides on.
#[derive(Debug, Clone, PartialEq, Eq)]
pub struct RawEntry {
    /// Whether the entry is a directory.
    pub is_dir: bool,
    /// The entry's name, as far as it could be read as text.
    pub name: RawName,
    /// Whether the entry's path has a parent directory.
    pub has_parent: bool,
}

/// Why an entry takes no part in the pass.  Each reason skips that entry
/// alone; the pass goes on with the next one.
#[derive(Debug, Clone, Copy, PartialEq, Eq)]
pub enum SkipReason {
    /// Directories are never renamed.
    Directory,
    /// The entry's path has no final component.
    NoName,
    /// The entry's name is not valid UTF-8 text.
    NotUtf8,
    /// The entry's path has no parent directory.
    NoParent,
}

/// An entry takes part in the pass when it is a regular (non-directory)
/// entry whose name is text and whose path has a parent.
pub open spec fn entry_accepted(e: RawEntry) -> bool {
    &&& !e.is_dir
    &&& e.name is Text
    &&& e.has_parent
}

/// The name under which an accepted entry takes part in the pass.
pub open spec fn entry_name(e: RawEntry) -> Seq<char>
    recommends
        e.name is Text,
{
    e.name->Text_0@
}

/// Admit an entry to the pass, or say why it is skipped.  A directory is
/// reported as such before its name is looked at; an unreadable name
/// before the parent.
pub fn classify(e: &RawEntry) -> (r: Result<String, SkipReason>)
    ensures
        r is Ok <==> entry_accepted(*e),
        r matches Ok(n) ==> n@ == entry_name(*e),
        e.is_dir ==> r == Err::<String, SkipReason>(SkipReason::Directory),
        !e.is_dir && e.name is Missing ==> r == Err::<String, SkipReason>(SkipReason::NoName),
        !e.is_dir && e.name is NotUtf8 ==> r == Err::<String, SkipReason>(SkipReason::NotUtf8),
        !e.is_dir && e.name is Text && !e.has_parent ==> r == Err::<String, SkipReason>(
            SkipReason::NoParent,
        ),
{
    if e.is_dir {
        Err(SkipReason::Directory)
    } else {
        match &e.name {
            RawName::Missing => Err(SkipReason::NoName),
            RawName::NotUtf8 => Err(SkipReason::NotUtf8),
            RawName::Text(n) => {
                if e.has_parent {
                    Ok(n.clone())
                } else {
                    Err(SkipReason::NoParent)
                }
            },
        }
    }
}

} // verus!
