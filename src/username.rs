//! Shape rules for user names.
use unicode_segmentation::UnicodeSegmentation;
use vstd::prelude::*;

verus! {

/// Longest accepted user name, in extended grapheme clusters.
pub const MAX_GRAPHEMES: usize = 256;

/// Number of extended grapheme clusters in a text.
pub uninterp spec fn grapheme_count(s: Seq<char>) -> nat;

/// Characters that a user name may never hold.
pub open spec fn is_forbidden_char(c: char) -> bool {
    ||| c == '/'
    ||| c == '('
    ||| c == ')'
    ||| c == '"'
    ||| c == '<'
    ||| c == '>'
    ||| c == '\\'
    ||| c == '{'
    ||| c == '}'
    ||| c == '#'
    ||| c == '*'
}

/// The characters with the Unicode `White_Space` property.
pub open spec fn is_space_char(c: char) -> bool {
    let u = c as u32;
    ||| 0x09 <= u <= 0x0d
    ||| u == 0x20
    ||| u == 0x85
    ||| u == 0xa0
    ||| u == 0x1680
    ||| 0x2000 <= u <= 0x200a
    ||| u == 0x2028
    ||| u == 0x2029
    ||| u == 0x202f
    ||| u == 0x205f
    ||| u == 0x3000
}

/// A user name is non-empty, at most `MAX_GRAPHEMES` grapheme clusters long
/// (`graphemes` is its cluster count), and holds no whitespace and no
/// forbidden character.
pub open spec fn valid_username(s: Seq<char>, graphemes: nat) -> bool {
    &&& s.len() > 0
    &&& graphemes <= MAX_GRAPHEMES
    &&& forall|i: int| 0 <= i < s.len() ==> !is_forbidden_char(#[trigger] s[i]) && !is_space_char(s[i])
}

/// Relies on `UnicodeSegmentation::graphemes` with the extended rules,
/// counted: the clusters are non-empty pieces that cover the text.
#[verifier::external_body]
pub(crate) fn count_graphemes(s: &str) -> (r: usize)
    ensures
        r as nat == grapheme_count(s@),
        r <= s@.len(),
        s@.len() > 0 ==> r > 0,
{
    s.graphemes(true).count()
}

/// Whether `c` may stand in a user name.
pub fn is_allowed_char(c: char) -> (r: bool)
    ensures
        r == (!is_forbidden_char(c) && !is_space_char(c)),
{
    let u = c as u32;
    let space = (0x09 <= u && u <= 0x0d) || u == 0x20 || u == 0x85 || u == 0xa0 || u == 0x1680
        || (0x2000 <= u && u <= 0x200a) || u == 0x2028 || u == 0x2029 || u == 0x202f
        || u == 0x205f || u == 0x3000;
    let forbidden = c == '/' || c == '(' || c == ')' || c == '"' || c == '<' || c == '>' || c
        == '\\' || c == '{' || c == '}' || c == '#' || c == '*';
    !space && !forbidden
}

/// Decides the shape rules for a name whose grapheme cluster count is
/// `graphemes`.
pub fn username_is_valid(s: &str, graphemes: usize) -> (r: bool)
    ensures
        r == valid_username(s@, graphemes as nat),
{
    let n = s.unicode_len();
    if n == 0 || graphemes > MAX_GRAPHEMES {
        return false;
    }
    let mut i: usize = 0;
    while i < n
        invariant
            n == s@.len(),
            i <= n,
            forall|j: int| 0 <= j < i ==> !is_forbidden_char(#[trigger] s@[j]) && !is_space_char(s@[j]),
        decreases n - i,
    {
        let c = s.get_char(i);
        if !is_allowed_char(c) {
            return false;
        }
        i = i + 1;
    }
    true
}

/// Validates a user name, returning a copy of it when it is well shaped.
pub fn parse(s: &String) -> (r: Result<String, crate::error::AppError>)
    ensures
        r is Ok <==> valid_username(s@, grapheme_count(s@)),
        r matches Ok(t) ==> t@ == s@,
        r matches Err(e) ==> e == crate::error::AppError::ValidationError,
{
    let graphemes = count_graphemes(s.as_str());
    if username_is_valid(s.as_str(), graphemes) {
        Ok(s.clone())
    } else {
        Err(crate::error::AppError::ValidationError)
    }
}

} // verus!
