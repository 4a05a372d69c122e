use crate::text::{ends_with, has_suffix};
use vstd::prelude::*;

verus! {

/// The directory that reference documents are read from.
pub const INPUT_DIR: &'static str = "in/";

/// The extension of documents whose text must be extracted from PDF.
pub const PDF_EXTENSION: &'static str = ".pdf";

/// What the operator supplies: the character's name, facts about it and the
/// reference documents to draw on.
pub struct Input {
    pub name: String,
    pub facts: Vec<String>,
    pub files: Vec<String>,
}

/// Where a reference document is read from and how.
pub struct DocumentSource {
    /// The name the document is attached under.
    pub id: String,
    pub path: String,
    /// Whether its text is extracted from PDF rather than read as is.
    pub pdf: bool,
}

/// The texts of `s` joined with line breaks.
pub open spec fn lines_joined(s: Seq<String>) -> Seq<char>
    decreases s.len(),
{
    if s.len() == 0 {
        Seq::empty()
    } else if s.len() == 1 {
        s[0]@
    } else {
        lines_joined(s.drop_last()) + "\n"@ + s.last()@
    }
}

pub open spec fn document_path(file: Seq<char>) -> Seq<char> {
    INPUT_DIR@ + file
}

impl Input {
    /// The facts, one per line.
    pub fn facts_text(&self) -> (r: String)
        ensures
            r@ == lines_joined(self.facts@),
    {
        let mut r = String::new();
        let n = self.facts.len();
        let mut i: usize = 0;
        while i < n
            invariant
                n == self.facts@.len(),
                0 <= i <= n,
                r@ == lines_joined(self.facts@.subrange(0, i as int)),
            decreases n - i,
        {
            let ghost prev = self.facts@.subrange(0, i as int);
            let ghost next = self.facts@.subrange(0, i + 1);
            assert(next.drop_last() =~= prev);
            if i > 0 {
                r.append("\n");
            }
            r.append(self.facts[i].as_str());
            proof {
                if i == 0 {
                    assert(r@ =~= next[0]@);
                }
            }
            i = i + 1;
        }
        assert(self.facts@.subrange(0, n as int) =~= self.facts@);
        r
    }

    /// For each referenced file, in order, where it is read from and
    /// whether it is a PDF.
    pub fn document_sources(&self) -> (r: Vec<DocumentSource>)
        ensures
            r@.len() == self.files@.len(),
            forall|i: int|
                0 <= i < r@.len() ==> {
                    &&& (#[trigger] r@[i]).id@ == self.files@[i]@
                    &&& r@[i].path@ == document_path(self.files@[i]@)
                    &&& r@[i].pdf == has_suffix(r@[i].path@, PDF_EXTENSION@)
                },
    {
        let mut r: Vec<DocumentSource> = Vec::new();
        let n = self.files.len();
        let mut i: usize = 0;
        while i < n
            invariant
                n == self.files@.len(),
                0 <= i <= n,
                r@.len() == i,
                forall|k: int|
                    0 <= k < i ==> {
                        &&& (#[trigger] r@[k]).id@ == self.files@[k]@
                        &&& r@[k].path@ == document_path(self.files@[k]@)
                        &&& r@[k].pdf == has_suffix(r@[k].path@, PDF_EXTENSION@)
                    },
            decreases n - i,
        {
            let file = &self.files[i];
            let mut path = String::from_str(INPUT_DIR);
            path.append(file.as_str());
            let pdf = ends_with(path.as_str(), PDF_EXTENSION);
            r.push(DocumentSource { id: file.clone(), path, pdf });
            i = i + 1;
        }
        r
    }
}

} // verus!
