//! Validated domain values: a subscriber's name and email address.

pub use crate::email::SubscriberEmail;
use crate::text::chars_of;
use unicode_segmentation::UnicodeSegmentation;
use vstd::prelude::*;
use vstd::string::StringExecFns;

verus! {

/// The largest number of grapheme clusters a subscriber name may have.
pub const MAX_NAME_GRAPHEMES: usize = 256;

/// The number of extended grapheme clusters that the characters `s` form.
pub uninterp spec fn grapheme_count(s: Seq<char>) -> nat;

/// Whether `c` is white space: a character with the Unicode property `White_Space`.
pub open spec fn is_whitespace(c: char) -> bool {
    let n = c as u32;
    ||| 0x09 <= n <= 0x0D
    ||| n == 0x20
    ||| n == 0x85
    ||| n == 0xA0
    ||| n == 0x1680
    ||| 0x2000 <= n <= 0x200A
    ||| n == 0x2028
    ||| n == 0x2029
    ||| n == 0x202F
    ||| n == 0x205F
    ||| n == 0x3000
}

/// Whether nothing is left of `s` once white space is trimmed from both ends.
pub open spec fn is_blank(s: Seq<char>) -> bool {
    forall|i: int| 0 <= i < s.len() ==> is_whitespace(#[trigger] s[i])
}

/// Whether `c` is one of the characters that no subscriber name may hold.
pub open spec fn is_forbidden(c: char) -> bool {
    ||| c == '/'
    ||| c == '('
    ||| c == ')'
    ||| c == '"'
    ||| c == '<'
    ||| c == '>'
    ||| c == '\\'
    ||| c == '{'
    ||| c == '}'
}

/// Whether `s` holds a forbidden character anywhere.
pub open spec fn has_forbidden(s: Seq<char>) -> bool {
    exists|i: int| 0 <= i < s.len() && is_forbidden(#[trigger] s[i])
}

/// The rule for a name of `graphemes` grapheme clusters made of the characters `s`.
pub open spec fn acceptable_name(s: Seq<char>, graphemes: nat) -> bool {
    &&& !is_blank(s)
    &&& graphemes <= MAX_NAME_GRAPHEMES
    &&& !has_forbidden(s)
}

/// Whether `s` is a valid subscriber name.
pub open spec fn valid_name(s: Seq<char>) -> bool {
    acceptable_name(s, grapheme_count(s))
}

/// The message with which the name `s` is turned down.
pub open spec fn name_error(s: Seq<char>) -> Seq<char> {
    s + " is not a valid subscriber name."@
}

/// Counts the extended grapheme clusters of `s` with
/// `UnicodeSegmentation::graphemes(s, true).count()`. The contract claims only
/// that the count depends on the characters of `s` alone, and gives it a name.
#[verifier::external_body]
fn count_graphemes(s: &str) -> (n: usize)
    ensures
        n == grapheme_count(s@),
{
    s.graphemes(true).count()
}

/// Whether `c` is white space.
pub fn whitespace_char(c: char) -> (r: bool)
    ensures
        r == is_whitespace(c),
{
    let n: u32 = c as u32;
    (0x09 <= n && n <= 0x0D) || n == 0x20 || n == 0x85 || n == 0xA0 || n == 0x1680 || (0x2000 <= n
        && n <= 0x200A) || n == 0x2028 || n == 0x2029 || n == 0x202F || n == 0x205F || n == 0x3000
}

/// Whether `c` is a character that no subscriber name may hold.
pub fn forbidden_char(c: char) -> (r: bool)
    ensures
        r == is_forbidden(c),
{
    c == '/' || c == '(' || c == ')' || c == '"' || c == '<' || c == '>' || c == '\\' || c == '{'
        || c == '}'
}

/// Decides whether the text `s`, which forms `graphemes` grapheme clusters, may be a
/// subscriber name.
pub fn name_is_acceptable(s: &str, graphemes: usize) -> (r: bool)
    ensures
        r == acceptable_name(s@, graphemes as nat),
{
    let chars = chars_of(s);
    let mut blank = true;
    let mut forbidden = false;
    let mut i: usize = 0;
    while i < chars.len()
        invariant
            i <= chars.len(),
            chars@ == s@,
            blank == is_blank(chars@.take(i as int)),
            forbidden == has_forbidden(chars@.take(i as int)),
        decreases chars.len() - i,
    {
        let c = chars[i];
        proof {
            let before = chars@.take(i as int);
            let after = chars@.take(i + 1);
            assert(after[i as int] == c);
            assert(forall|j: int| 0 <= j < i ==> before[j] == after[j]);
            if is_blank(after) {
                assert forall|j: int| 0 <= j < before.len() implies is_whitespace(
                    #[trigger] before[j],
                ) by {
                    assert(before[j] == after[j]);
                }
            }
            if has_forbidden(before) {
                let j = choose|j: int| 0 <= j < before.len() && is_forbidden(#[trigger] before[j]);
                assert(is_forbidden(after[j]));
            }
            if has_forbidden(after) && !is_forbidden(c) {
                let j = choose|j: int| 0 <= j < after.len() && is_forbidden(#[trigger] after[j]);
                assert(is_forbidden(before[j]));
            }
        }
        if !whitespace_char(c) {
            blank = false;
        }
        if forbidden_char(c) {
            forbidden = true;
        }
        i += 1;
    }
    proof {
        assert(chars@.take(i as int) =~= s@);
    }
    !blank && graphemes <= MAX_NAME_GRAPHEMES && !forbidden
}

/// A subscriber whose form passed validation: the one shape that is stored.
pub struct NewSubscriber {
    pub email: SubscriberEmail,
    pub name: SubscriberName,
}

/// A subscriber's name: text that is not blank, has at most 256 grapheme clusters and
/// holds no forbidden character. Only `parse` makes one, and nothing changes it.
#[derive(Debug)]
pub struct SubscriberName(String);

impl View for SubscriberName {
    type V = Seq<char>;

    closed spec fn view(&self) -> Seq<char> {
        self.0@
    }
}

impl SubscriberName {
    #[verifier::type_invariant]
    closed spec fn well_formed(&self) -> bool {
        valid_name(self.0@)
    }

    /// Accepts `s` unchanged if it is a valid name, and turns it down with a message
    /// that quotes it otherwise.
    pub fn parse(s: String) -> (r: Result<SubscriberName, String>)
        ensures
            match r {
                Ok(name) => valid_name(s@) && name@ == s@,
                Err(e) => !valid_name(s@) && e@ == name_error(s@),
            },
    {
        let graphemes = count_graphemes(s.as_str());
        if name_is_acceptable(s.as_str(), graphemes) {
            Ok(SubscriberName(s))
        } else {
            Err(s.concat(" is not a valid subscriber name."))
        }
    }

    /// The name's text, borrowed.
    pub fn inner_ref(&self) -> (r: &str)
        ensures
            r@ == self@,
            valid_name(r@),
    {
        proof {
            use_type_invariant(self);
        }
        self.0.as_str()
    }

    /// The name's text, taken out of the wrapper.
    pub fn inner(self) -> (r: String)
        ensures
            r@ == self@,
            valid_name(r@),
    {
        proof {
            use_type_invariant(&self);
        }
        self.0
    }
}

} // verus!
