//! A structure which identifies a particular font by name and properties.

use vstd::prelude::*;

verus! {

/// Index of the first NUL character of `s`, or `s.len()` if there is none.
pub open spec fn nul_index(s: Seq<char>) -> int
    decreases s.len(),
{
    if s.len() == 0 {
        0
    } else if s[0] == '\0' {
        0
    } else {
        1 + nul_index(s.drop_first())
    }
}

/// A font name truncated at its first NUL character.
pub open spec fn truncate_at_nul(s: Seq<char>) -> Seq<char> {
    s.subrange(0, nul_index(s))
}

/// Structure which identifies a particular font by name and properties.
/// Equality and ordering are structural (the derived, field-by-field
/// ones): registry code outside this library keys and sorts fonts by it.
#[derive(Clone, Debug, PartialEq, Eq, PartialOrd, Ord, Hash)]
pub struct FontDescriptor {
    /// The name of the font class this descriptor references.
    pub name: String,

    /// The boldness of the described font.
    pub is_bold: bool,

    /// The italic-ness of the described font.
    pub is_italic: bool,
}

/// `nul_index` stays within `s` and marks the first NUL: every character
/// before it is not NUL, and it either is the end of `s` or points at NUL.
pub proof fn lemma_nul_index(s: Seq<char>)
    ensures
        0 <= nul_index(s) <= s.len(),
        forall|k: int| 0 <= k < nul_index(s) ==> s[k] != '\0',
        nul_index(s) < s.len() ==> s[nul_index(s)] == '\0',
    decreases s.len(),
{
    if s.len() != 0 && s[0] != '\0' {
        lemma_nul_index(s.drop_first());
        assert forall|k: int| 0 <= k < nul_index(s) implies s[k] != '\0' by {
            if k > 0 {
                assert(s.drop_first()[k - 1] != '\0');
            }
        }
    }
}

impl FontDescriptor {
    /// Obtain a font descriptor from a name/bold/italic triplet. The name
    /// is cut off at its first NUL character, if any.
    pub fn from_parts(name: &str, is_bold: bool, is_italic: bool) -> (r: Self)
        ensures
            r.name@ == truncate_at_nul(name@),
            r.is_bold == is_bold,
            r.is_italic == is_italic,
    {
        proof {
            lemma_nul_index(name@);
        }
        let n = name.unicode_len();
        let mut i: usize = 0;
        while i < n && name.get_char(i) != '\0'
            invariant
                0 <= i <= n,
                n == name@.len(),
                forall|k: int| 0 <= k < i ==> name@[k] != '\0',
            decreases n - i,
        {
            i = i + 1;
        }
        proof {
            assert(i == nul_index(name@)) by {
                lemma_nul_index(name@);
            }
        }
        let truncated = name.substring_char(0, i);
        Self { name: truncated.to_owned(), is_bold, is_italic }
    }

    /// Get the name of the font class this descriptor references.
    pub fn class(&self) -> (r: &str)
        ensures
            r@ == self.name@,
    {
        self.name.as_str()
    }

    /// Get the boldness of the described font.
    pub fn bold(&self) -> (r: bool)
        ensures
            r == self.is_bold,
    {
        self.is_bold
    }

    /// Get the italic-ness of the described font.
    pub fn italic(&self) -> (r: bool)
        ensures
            r == self.is_italic,
    {
        self.is_italic
    }
}

} // verus!
