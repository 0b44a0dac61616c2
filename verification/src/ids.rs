//! Identifier validation: every resource id must be canonical UUID text
//! before any backend call is attempted.

use crate::status::StatusCode;
use vstd::prelude::*;

verus! {

/// A character that may appear in the hexadecimal positions of a UUID.
pub open spec fn is_hex_char(c: char) -> bool {
    ('0' <= c && c <= '9') || ('a' <= c && c <= 'f') || ('A' <= c && c <= 'F')
}

/// Canonical UUID text: 36 characters, hyphens at positions 8, 13, 18 and 23,
/// hexadecimal digits everywhere else.
pub open spec fn is_canonical_uuid(s: Seq<char>) -> bool {
    &&& s.len() == 36
    &&& forall|i: int|
        0 <= i < 36 ==> {
            if i == 8 || i == 13 || i == 18 || i == 23 {
                s[i] == '-'
            } else {
                is_hex_char(s[i])
            }
        }
}

/// Check whether a string is canonical UUID text.
pub fn is_uuid(s: &str) -> (r: bool)
    ensures
        r == is_canonical_uuid(s@),
{
    let n = s.unicode_len();
    if n != 36 {
        return false;
    }
    let mut i: usize = 0;
    while i < 36
        invariant
            s@.len() == 36,
            0 <= i <= 36,
            forall|j: int|
                0 <= j < i ==> {
                    if j == 8 || j == 13 || j == 18 || j == 23 {
                        s@[j] == '-'
                    } else {
                        is_hex_char(s@[j])
                    }
                },
        decreases 36 - i,
    {
        let c = s.get_char(i);
        if i == 8 || i == 13 || i == 18 || i == 23 {
            if c != '-' {
                return false;
            }
        } else {
            if !(('0' <= c && c <= '9') || ('a' <= c && c <= 'f') || ('A' <= c && c <= 'F')) {
                return false;
            }
        }
        i = i + 1;
    }
    true
}

/// An upper-case hexadecimal digit lowered; any other character kept.
pub open spec fn lower_hex_char(c: char) -> char {
    match c {
        'A' => 'a',
        'B' => 'b',
        'C' => 'c',
        'D' => 'd',
        'E' => 'e',
        'F' => 'f',
        _ => c,
    }
}

/// Canonical UUID text with every hexadecimal digit lowered: the one
/// spelling the gateway uses for an id once validated.
pub open spec fn normalize_uuid(s: Seq<char>) -> Seq<char> {
    s.map_values(|c: char| lower_hex_char(c))
}

/// A validated resource identifier: canonical UUID text, hexadecimal
/// digits in lower case.
#[derive(Clone, Debug, PartialEq, Eq, Hash)]
pub struct AssetId {
    text: String,
}

impl View for AssetId {
    type V = Seq<char>;

    /// The identifier's text.
    closed spec fn view(&self) -> Seq<char> {
        self.text@
    }
}

impl DeepView for AssetId {
    type V = Seq<char>;

    open spec fn deep_view(&self) -> Seq<char> {
        self.view()
    }
}

impl AssetId {
    /// What a well-formed identifier looks like.
    pub closed spec fn wf(&self) -> bool {
        is_canonical_uuid(self.text@) && self.text@ == normalize_uuid(self.text@)
    }

    /// Parse an identifier, accepting only canonical UUID text and
    /// lowering its hexadecimal digits.
    pub fn parse(s: &str) -> (r: Option<AssetId>)
        ensures
            r is Some <==> is_canonical_uuid(s@),
            r matches Some(id) ==> id.wf() && id@ == normalize_uuid(s@),
    {
        if !is_uuid(s) {
            return None;
        }
        let text = normalize(s);
        proof {
            lemma_normalize_canonical(s@);
            lemma_normalize_idempotent(s@);
        }
        Some(AssetId { text })
    }

    /// The identifier's text, as a fresh string.
    pub fn to_string(&self) -> (r: String)
        ensures
            r@ == self@,
    {
        self.text.clone()
    }
}

/// Lower the hexadecimal digits of canonical UUID text.
fn normalize(s: &str) -> (r: String)
    requires
        is_canonical_uuid(s@),
    ensures
        r@ == normalize_uuid(s@),
{
    let n = s.unicode_len();
    let mut out = String::new();
    let mut i: usize = 0;
    while i < n
        invariant
            is_canonical_uuid(s@),
            n == s@.len(),
            0 <= i <= n,
            out@ =~= s@.subrange(0, i as int).map_values(|c: char| lower_hex_char(c)),
        decreases n - i,
    {
        let c = s.get_char(i);
        let piece: &str = match c {
            '0' => "0",
            '1' => "1",
            '2' => "2",
            '3' => "3",
            '4' => "4",
            '5' => "5",
            '6' => "6",
            '7' => "7",
            '8' => "8",
            '9' => "9",
            'a' => "a",
            'b' => "b",
            'c' => "c",
            'd' => "d",
            'e' => "e",
            'f' => "f",
            'A' => "a",
            'B' => "b",
            'C' => "c",
            'D' => "d",
            'E' => "e",
            'F' => "f",
            _ => "-",
        };
        proof {
            reveal_strlit("0");
            reveal_strlit("1");
            reveal_strlit("2");
            reveal_strlit("3");
            reveal_strlit("4");
            reveal_strlit("5");
            reveal_strlit("6");
            reveal_strlit("7");
            reveal_strlit("8");
            reveal_strlit("9");
            reveal_strlit("a");
            reveal_strlit("b");
            reveal_strlit("c");
            reveal_strlit("d");
            reveal_strlit("e");
            reveal_strlit("f");
            reveal_strlit("-");
            assert(piece@ =~= seq![lower_hex_char(s@[i as int])]);
        }
        out.append(piece);
        proof {
            assert(out@ =~= s@.subrange(0, i + 1 as int).map_values(
                |ch: char| lower_hex_char(ch),
            ));
        }
        i = i + 1;
    }
    proof {
        assert(s@.subrange(0, n as int) =~= s@);
    }
    out
}

/// Normalizing keeps a canonical UUID canonical.
pub proof fn lemma_normalize_canonical(s: Seq<char>)
    requires
        is_canonical_uuid(s),
    ensures
        is_canonical_uuid(normalize_uuid(s)),
{
}

/// Normalizing twice is normalizing once.
pub proof fn lemma_normalize_idempotent(s: Seq<char>)
    ensures
        normalize_uuid(normalize_uuid(s)) == normalize_uuid(s),
{
    assert(normalize_uuid(normalize_uuid(s)) =~= normalize_uuid(s));
}

/// Validate a path or body identifier before any backend call: only
/// canonical UUID text passes, and the caller gets the normalized
/// spelling to send downstream. Any other input is a client error and
/// the backend is never contacted.
pub fn validate_id(raw: &str) -> (r: Result<String, StatusCode>)
    ensures
        r is Ok <==> is_canonical_uuid(raw@),
        r matches Ok(id) ==> id@ == normalize_uuid(raw@) && is_canonical_uuid(id@),
        !is_canonical_uuid(raw@) ==> r == Err::<String, StatusCode>(StatusCode::BadRequest),
{
    match AssetId::parse(raw) {
        Some(id) => {
            proof {
                lemma_normalize_canonical(raw@);
            }
            Ok(id.to_string())
        },
        None => Err(StatusCode::BadRequest),
    }
}

} // verus!
