//! What is gathered from all parts of a drawing.

use super::dict::Dict;
use vstd::prelude::*;
use vstd::string::StrSliceExecFns;

verus! {

/// The drawing as a whole.
#[derive(Debug)]
pub struct Diagram {
    /// For every relationship part, by its file name: the targets of its
    /// relationships by their identifiers.
    pub rels: Dict<Dict<String>>,
    /// The pages.
    pub pages: Vec<Page>,
    /// For every master, by its number in the part of masters: the
    /// identifier of its relationship.
    pub masters_rel: Dict<String>,
}

/// One page.
#[derive(Debug)]
pub struct Page {
    pub shapes: Vec<Shape>,
}

/// One shape.
#[derive(Debug, Clone, Copy, PartialEq, Eq)]
pub struct Shape {
}

/// One relationship between two parts.
#[derive(Debug)]
pub struct Rel {
    pub id: String,
    pub type_url: String,
    pub target: String,
}

impl Diagram {
    /// A drawing of which nothing is known yet.
    pub fn new() -> (diagram: Self)
        ensures
            diagram.rels@ == Map::<Seq<char>, Map<Seq<char>, Seq<char>>>::empty(),
            diagram.pages@.len() == 0,
            diagram.masters_rel@ == Map::<Seq<char>, Seq<char>>::empty(),
    {
        Diagram { rels: Dict::new(), pages: Vec::new(), masters_rel: Dict::new() }
    }
}

/// Whether `text` ends with `suffix`.
pub open spec fn ends_with(text: Seq<char>, suffix: Seq<char>) -> bool {
    text.len() >= suffix.len() && text.subrange(text.len() - suffix.len(), text.len() as int)
        == suffix
}

/// Whether an entry of the archive with this file name is a part that is
/// read: an XML part or the relationships of one.
pub open spec fn is_part_name(name: Seq<char>) -> bool {
    ends_with(name, ".xml"@) || ends_with(name, ".xml.rels"@)
}

/// Whether a part with this file name holds relationships.
pub open spec fn is_rels_name(name: Seq<char>) -> bool {
    ends_with(name, ".rels"@)
}

/// Whether a part with this file name is the part of masters.
pub open spec fn is_masters_name(name: Seq<char>) -> bool {
    name == "masters.xml"@
}

/// Whether `text` ends with `suffix`.
pub fn has_suffix(text: &str, suffix: &str) -> (found: bool)
    ensures
        found == ends_with(text@, suffix@),
{
    let n: usize = text.unicode_len();
    let m: usize = suffix.unicode_len();
    if n < m {
        return false;
    }
    let start: usize = n - m;
    let mut i: usize = 0;
    while i < m
        invariant
            i <= m,
            n == text@.len(),
            m == suffix@.len(),
            start + m == n,
            forall|k: int| 0 <= k < i ==> text@[start + k] == suffix@[k],
        decreases m - i,
    {
        if text.get_char(start + i) != suffix.get_char(i) {
            assert(text@.subrange(start as int, n as int)[i as int] != suffix@[i as int]);
            return false;
        }
        i += 1;
    }
    assert(text@.subrange(start as int, n as int) =~= suffix@);
    true
}

/// Whether an entry of the archive with this file name is a part that is
/// read.
pub fn is_part_file(fname: &str) -> (part: bool)
    ensures
        part == is_part_name(fname@),
{
    has_suffix(fname, ".xml") || has_suffix(fname, ".xml.rels")
}

/// Whether a part with this file name holds relationships.
pub fn is_rels_file(fname: &str) -> (rels: bool)
    ensures
        rels == is_rels_name(fname@),
{
    has_suffix(fname, ".rels")
}

/// Whether a part with this file name is the part of masters.
pub fn is_masters_file(fname: &str) -> (masters: bool)
    ensures
        masters == is_masters_name(fname@),
{
    let same_end: bool = has_suffix(fname, "masters.xml");
    let same_length: bool = fname.unicode_len() == "masters.xml".unicode_len();
    proof {
        if same_end && same_length {
            assert(fname@.subrange(0, fname@.len() as int) =~= fname@);
        }
        if fname@ == "masters.xml"@ {
            assert(fname@.subrange(0, fname@.len() as int) =~= fname@);
        }
    }
    same_end && same_length
}

} // verus!
