use unicode_segmentation::UnicodeSegmentation;
use vstd::prelude::*;

verus! {

/// Longest accepted name, counted in extended grapheme clusters.
pub const MAX_NAME_GRAPHEMES: usize = 256;

/// Number of extended grapheme clusters in `s`.
pub uninterp spec fn extended_grapheme_count(s: Seq<char>) -> nat;

/// Relies on unicode_segmentation's `graphemes(true)`: the number of extended
/// grapheme clusters it yields, which depends on the characters alone.
#[verifier::external_body]
fn count_graphemes(s: &str) -> (r: usize)
    ensures
        r as nat == extended_grapheme_count(s@),
{
    s.graphemes(true).count()
}

/// Characters with the Unicode `White_Space` property.
pub open spec fn is_white_space(c: char) -> bool {
    ||| '\u{9}' <= c <= '\u{d}'
    ||| c == ' '
    ||| c == '\u{85}'
    ||| c == '\u{a0}'
    ||| c == '\u{1680}'
    ||| '\u{2000}' <= c <= '\u{200a}'
    ||| c == '\u{2028}'
    ||| c == '\u{2029}'
    ||| c == '\u{202f}'
    ||| c == '\u{205f}'
    ||| c == '\u{3000}'
}

/// Characters that may not appear in a subscriber's name.
pub open spec fn is_forbidden_name_char(c: char) -> bool {
    ||| c == '<'
    ||| c == '>'
    ||| c == '['
    ||| c == ']'
    ||| c == '('
    ||| c == ')'
    ||| c == '"'
    ||| c == '\''
    ||| c == '/'
    ||| c == '\\'
}

/// Empty, or made of white space only.
pub open spec fn is_blank(s: Seq<char>) -> bool {
    forall|i: int| 0 <= i < s.len() ==> is_white_space(#[trigger] s[i])
}

pub open spec fn has_forbidden_char(s: Seq<char>) -> bool {
    exists|i: int| 0 <= i < s.len() && is_forbidden_name_char(#[trigger] s[i])
}

/// What makes a string acceptable as a subscriber's name.
pub open spec fn is_valid_name(s: Seq<char>) -> bool {
    &&& !is_blank(s)
    &&& extended_grapheme_count(s) <= MAX_NAME_GRAPHEMES
    &&& !has_forbidden_char(s)
}

fn white_space(c: char) -> (r: bool)
    ensures
        r == is_white_space(c),
{
    ('\u{9}' <= c && c <= '\u{d}') || c == ' ' || c == '\u{85}' || c == '\u{a0}' || c
        == '\u{1680}' || ('\u{2000}' <= c && c <= '\u{200a}') || c == '\u{2028}' || c
        == '\u{2029}' || c == '\u{202f}' || c == '\u{205f}' || c == '\u{3000}'
}

fn forbidden_name_char(c: char) -> (r: bool)
    ensures
        r == is_forbidden_name_char(c),
{
    c == '<' || c == '>' || c == '[' || c == ']' || c == '(' || c == ')' || c == '"' || c == '\''
        || c == '/' || c == '\\'
}

/// A subscriber's name, known to satisfy `is_valid_name`.
pub struct SubscriberName(String);

impl View for SubscriberName {
    type V = Seq<char>;

    closed spec fn view(&self) -> Seq<char> {
        self.0@
    }
}

impl SubscriberName {
    pub closed spec fn wf(&self) -> bool {
        is_valid_name(self.0@)
    }

    /// Whether `s`, which holds `graphemes` grapheme clusters, is acceptable:
    /// not blank, at most 256 clusters long, and free of `< > [ ] ( ) " ' / \`.
    pub fn accepts(s: &str, graphemes: usize) -> (r: bool)
        ensures
            r == (!is_blank(s@) && graphemes <= MAX_NAME_GRAPHEMES && !has_forbidden_char(s@)),
    {
        let mut blank = true;
        let mut forbidden = false;
        for c in it: s.chars()
            invariant
                it.seq() == s@,
                blank <==> is_blank(s@.take(it.index() as int)),
                forbidden <==> has_forbidden_char(s@.take(it.index() as int)),
        {
            let ghost seen = s@.take(it.index() as int);
            let ghost next = s@.take(it.index() + 1);
            proof {
                assert(c == s@[it.index() as int]);
                assert(next == seen.push(c));
                assert(next[seen.len() as int] == c);
            }
            if !white_space(c) {
                blank = false;
            }
            if forbidden_name_char(c) {
                forbidden = true;
            }
            proof {
                if is_blank(seen) && is_white_space(c) {
                    assert forall|i: int| 0 <= i < next.len() implies is_white_space(
                        #[trigger] next[i],
                    ) by {
                        if i < seen.len() {
                            assert(next[i] == seen[i]);
                        }
                    }
                }
                if has_forbidden_char(next) && !is_forbidden_name_char(c) {
                    let i = choose|i: int|
                        0 <= i < next.len() && is_forbidden_name_char(#[trigger] next[i]);
                    assert(next[i] == seen[i]);
                }
                if has_forbidden_char(seen) {
                    let i = choose|i: int|
                        0 <= i < seen.len() && is_forbidden_name_char(#[trigger] seen[i]);
                    assert(next[i] == seen[i]);
                }
                if !is_blank(seen) {
                    let i = choose|i: int| 0 <= i < seen.len() && !is_white_space(#[trigger] seen[i]);
                    assert(next[i] == seen[i]);
                }
            }
        }
        proof {
            assert(s@.take(s@.len() as int) == s@);
        }
        !blank && graphemes <= MAX_NAME_GRAPHEMES && !forbidden
    }

    /// Accepts `s` unless it is blank, longer than 256 grapheme clusters, or
    /// holds one of `< > [ ] ( ) " ' / \`.
    pub fn parse(s: &str) -> (r: Result<SubscriberName, String>)
        ensures
            r is Ok <==> is_valid_name(s@),
            r matches Ok(n) ==> n@ == s@ && n.wf(),
    {
        if SubscriberName::accepts(s, count_graphemes(s)) {
            Ok(SubscriberName(s.to_owned()))
        } else {
            let mut msg = String::from_str("`");
            msg.append(s);
            msg.append("` is not a valid subscriber name");
            Err(msg)
        }
    }

    pub fn as_str(&self) -> (r: &str)
        ensures
            r@ == self@,
    {
        self.0.as_str()
    }
}

} // verus!
