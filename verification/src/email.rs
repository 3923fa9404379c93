//! Email addresses: the grammar `local-part "@" label *( "." label )`, in which the
//! local part is made of letters, digits and a fixed set of signs, and each label
//! of letters, digits and inner hyphens, 63 characters at most.

use crate::text::chars_of;
use vstd::prelude::*;
use vstd::string::StringExecFns;

verus! {

/// The largest number of characters one label of a domain may have.
pub const MAX_LABEL_LEN: usize = 63;

/// Whether `c` is an ASCII letter or digit.
pub open spec fn is_alnum(c: char) -> bool {
    let n = c as u32;
    ||| 0x30 <= n <= 0x39
    ||| 0x41 <= n <= 0x5A
    ||| 0x61 <= n <= 0x7A
}

/// Whether `c` may stand in the part of an address before the `@`.
pub open spec fn is_local_char(c: char) -> bool {
    ||| is_alnum(c)
    ||| c == '.'
    ||| c == '!'
    ||| c == '#'
    ||| c == '$'
    ||| c == '%'
    ||| c == '&'
    ||| c == '\''
    ||| c == '*'
    ||| c == '+'
    ||| c == '/'
    ||| c == '='
    ||| c == '?'
    ||| c == '^'
    ||| c == '_'
    ||| c == '`'
    ||| c == '{'
    ||| c == '|'
    ||| c == '}'
    ||| c == '~'
    ||| c == '-'
}

/// Whether the character at `i` may stand where it does in the domain `d`: a dot
/// only between two letters or digits, a hyphen neither first nor last, and nothing
/// else but letters and digits.
pub open spec fn well_placed(d: Seq<char>, i: int) -> bool {
    if d[i] == '.' {
        0 < i < d.len() - 1 && is_alnum(d[i - 1]) && is_alnum(d[i + 1])
    } else if d[i] == '-' {
        0 < i < d.len() - 1
    } else {
        is_alnum(d[i])
    }
}

/// Whether a dot stands among the 64 characters of `d` that begin at `i`.
pub open spec fn dot_within(d: Seq<char>, i: int) -> bool {
    exists|j: int| i <= j < i + MAX_LABEL_LEN + 1 && #[trigger] d[j] == '.'
}

/// Whether `d` is a domain: one or more labels joined by dots, each label made of
/// letters, digits and hyphens, beginning and ending with a letter or digit, and no
/// longer than 63 characters.
pub open spec fn valid_domain(d: Seq<char>) -> bool {
    &&& d.len() >= 1
    &&& forall|i: int| 0 <= i < d.len() ==> #[trigger] well_placed(d, i)
    &&& forall|i: int| 0 <= i && i + MAX_LABEL_LEN + 1 <= d.len() ==> #[trigger] dot_within(d, i)
}

/// Whether `s` is an address whose `@` stands at `at`.
pub open spec fn splits_at(s: Seq<char>, at: int) -> bool {
    &&& 0 < at < s.len()
    &&& s[at] == '@'
    &&& forall|i: int| 0 <= i < at ==> is_local_char(#[trigger] s[i])
    &&& valid_domain(s.subrange(at + 1, s.len() as int))
}

/// Whether `s` is a valid email address.
pub open spec fn valid_email(s: Seq<char>) -> bool {
    exists|at: int| #[trigger] splits_at(s, at)
}

/// The message with which the address `s` is turned down.
pub open spec fn email_error(s: Seq<char>) -> Seq<char> {
    s + " is not a valid subscriber email."@
}

/// Whether `c` is an ASCII letter or digit.
pub fn alnum_char(c: char) -> (r: bool)
    ensures
        r == is_alnum(c),
{
    let n: u32 = c as u32;
    (0x30 <= n && n <= 0x39) || (0x41 <= n && n <= 0x5A) || (0x61 <= n && n <= 0x7A)
}

/// Whether `c` may stand before the `@`.
pub fn local_char(c: char) -> (r: bool)
    ensures
        r == is_local_char(c),
{
    alnum_char(c) || c == '.' || c == '!' || c == '#' || c == '$' || c == '%' || c == '&' || c
        == '\'' || c == '*' || c == '+' || c == '/' || c == '=' || c == '?' || c == '^' || c == '_'
        || c == '`' || c == '{' || c == '|' || c == '}' || c == '~' || c == '-'
}

/// Whether the characters of `chars` from `start` on form a domain.
pub fn domain_is_valid(chars: &Vec<char>, start: usize) -> (r: bool)
    requires
        start <= chars.len(),
    ensures
        r == valid_domain(chars@.subrange(start as int, chars@.len() as int)),
{
    let ghost d = chars@.subrange(start as int, chars@.len() as int);
    let len: usize = chars.len() - start;
    if len == 0 {
        return false;
    }
    let mut i: usize = 0;
    let mut run: usize = 0;
    while i < len
        invariant
            i <= len,
            len == chars.len() - start,
            d == chars@.subrange(start as int, chars@.len() as int),
            run <= MAX_LABEL_LEN,
            run <= i,
            forall|j: int| 0 <= j < i ==> #[trigger] well_placed(d, j),
            forall|j: int| i - run <= j < i ==> #[trigger] d[j] != '.',
            run < i ==> d[i - run - 1] == '.',
            forall|j: int| 0 <= j && j + MAX_LABEL_LEN + 1 <= i ==> #[trigger] dot_within(d, j),
        decreases len - i,
    {
        let c = chars[start + i];
        assert(d[i as int] == c);
        if c == '.' {
            if i == 0 || i + 1 == len || !alnum_char(chars[start + i - 1]) || !alnum_char(
                chars[start + i + 1],
            ) {
                assert(!well_placed(d, i as int));
                return false;
            }
            run = 0;
        } else {
            if c == '-' {
                if i == 0 || i + 1 == len {
                    assert(!well_placed(d, i as int));
                    return false;
                }
            } else if !alnum_char(c) {
                assert(!well_placed(d, i as int));
                return false;
            }
            if run == MAX_LABEL_LEN {
                assert(!dot_within(d, i - run));
                return false;
            }
            run += 1;
        }
        i += 1;
        proof {
            assert forall|j: int| 0 <= j && j + MAX_LABEL_LEN + 1 <= i implies #[trigger] dot_within(
                d,
                j,
            ) by {
                if j + MAX_LABEL_LEN + 1 == i {
                    assert(d[i - run - 1] == '.');
                }
            }
        }
    }
    true
}

/// Whether `s` is a valid email address.
pub fn email_is_valid(s: &str) -> (r: bool)
    ensures
        r == valid_email(s@),
{
    let chars = chars_of(s);
    let n = chars.len();
    let mut at: usize = 0;
    while at < n && local_char(chars[at])
        invariant
            at <= n,
            n == chars.len(),
            forall|i: int| 0 <= i < at ==> is_local_char(#[trigger] chars@[i]),
        decreases n - at,
    {
        at += 1;
    }
    proof {
        assert forall|k: int| k != at implies !splits_at(s@, k) by {
            if splits_at(s@, k) {
                if k < at {
                    assert(is_local_char(s@[k]));
                } else {
                    assert(is_local_char(s@[at as int]));
                }
            }
        }
    }
    if at == 0 || at == n || chars[at] != '@' {
        assert(!splits_at(s@, at as int));
        return false;
    }
    let ok = domain_is_valid(&chars, at + 1);
    proof {
        assert(ok == splits_at(s@, at as int));
    }
    ok
}

/// A subscriber's email address: text that follows the address grammar. Only `parse`
/// makes one, and nothing changes it.
#[derive(Debug)]
pub struct SubscriberEmail(String);

impl View for SubscriberEmail {
    type V = Seq<char>;

    closed spec fn view(&self) -> Seq<char> {
        self.0@
    }
}

impl SubscriberEmail {
    #[verifier::type_invariant]
    closed spec fn well_formed(&self) -> bool {
        valid_email(self.0@)
    }

    /// Accepts `s` unchanged if it is a valid address, and turns it down with a
    /// message that quotes it otherwise.
    pub fn parse(s: String) -> (r: Result<SubscriberEmail, String>)
        ensures
            match r {
                Ok(email) => valid_email(s@) && email@ == s@,
                Err(e) => !valid_email(s@) && e@ == email_error(s@),
            },
    {
        if email_is_valid(s.as_str()) {
            Ok(SubscriberEmail(s))
        } else {
            Err(s.concat(" is not a valid subscriber email."))
        }
    }

    /// The address, borrowed.
    pub fn as_str(&self) -> (r: &str)
        ensures
            r@ == self@,
            valid_email(r@),
    {
        proof {
            use_type_invariant(self);
        }
        self.0.as_str()
    }
}

} // verus!
