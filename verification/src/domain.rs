//! Validated identity: subscriber names and email addresses are value types
//! that can only be built by running raw input through a validator.

use vstd::prelude::*;

use unicode_segmentation::UnicodeSegmentation;

verus! {

/// Characters that may never appear in a subscriber name.
pub open spec fn is_forbidden_char(c: char) -> bool {
    ||| c == '/'
    ||| c == '('
    ||| c == ')'
    ||| c == '"'
    ||| c == '<'
    ||| c == '>'
    ||| c == '\\'
    ||| c == '{'
    ||| c == '}'
}

/// The Unicode White_Space set; a name made only of these counts as
/// empty after trimming.
pub open spec fn is_space_char(c: char) -> bool {
    ||| ('\u{0009}' <= c && c <= '\u{000D}')
    ||| c == ' '
    ||| c == '\u{0085}'
    ||| c == '\u{00A0}'
    ||| c == '\u{1680}'
    ||| ('\u{2000}' <= c && c <= '\u{200A}')
    ||| c == '\u{2028}'
    ||| c == '\u{2029}'
    ||| c == '\u{202F}'
    ||| c == '\u{205F}'
    ||| c == '\u{3000}'
}

/// Longest accepted subscriber name, counted in extended grapheme
/// clusters.
pub const MAX_NAME_LEN: usize = 256;

/// How many extended grapheme clusters a text has: a function of the
/// characters alone, computed by the segmentation library.
pub uninterp spec fn grapheme_count(s: Seq<char>) -> nat;

/// A name is valid when it has some non-whitespace character, is at most
/// `MAX_NAME_LEN` grapheme clusters long, and contains no forbidden
/// character.
pub open spec fn is_valid_name(s: Seq<char>) -> bool {
    &&& exists|i: int| 0 <= i < s.len() && !is_space_char(s[i])
    &&& grapheme_count(s) <= MAX_NAME_LEN
    &&& forall|i: int| 0 <= i < s.len() ==> !is_forbidden_char(s[i])
}

/// The split of an email address at position `a`: `a` holds the only `@`,
/// the local part before it is non-empty, the domain after it contains a
/// dot with at least one character on each side, and no character of the
/// address is whitespace.
pub open spec fn is_email_split(s: Seq<char>, a: int) -> bool {
    &&& 0 < a < s.len() - 1
    &&& s[a] == '@'
    &&& forall|j: int| 0 <= j < s.len() && j != a ==> s[j] != '@'
    &&& exists|d: int| a + 1 < d < s.len() - 1 && s[d] == '.'
    &&& forall|j: int| 0 <= j < s.len() ==> !is_space_char(s[j])
}

/// An email address is valid when some position splits it as
/// `local-part@domain` with a dotted domain.
pub open spec fn is_valid_email(s: Seq<char>) -> bool {
    exists|a: int| is_email_split(s, a)
}

/// Why a raw submission was turned away.
#[derive(Clone, Copy, Debug, PartialEq, Eq, Structural)]
pub enum ValidationError {
    InvalidName,
    InvalidEmail,
}

/// Whether `c` is on the forbidden list for names.
pub fn forbidden_char(c: char) -> (b: bool)
    ensures
        b == is_forbidden_char(c),
{
    c == '/' || c == '(' || c == ')' || c == '"' || c == '<' || c == '>' || c == '\\' || c == '{'
        || c == '}'
}

/// Whether `c` is Unicode whitespace.
pub fn space_char(c: char) -> (b: bool)
    ensures
        b == is_space_char(c),
{
    ('\u{0009}' <= c && c <= '\u{000D}') || c == ' ' || c == '\u{0085}' || c == '\u{00A0}' || c
        == '\u{1680}' || ('\u{2000}' <= c && c <= '\u{200A}') || c == '\u{2028}' || c == '\u{2029}'
        || c == '\u{202F}' || c == '\u{205F}' || c == '\u{3000}'
}

/// Relies on unicode-segmentation's graphemes (extended): the number of
/// grapheme clusters depends on the characters alone.
#[verifier::external_body]
fn count_graphemes(s: &str) -> (n: usize)
    ensures
        n == grapheme_count(s@),
{
    s.graphemes(true).count()
}

/// A subscriber name that passed validation; it cannot be built any other way.
pub struct SubscriberName {
    text: String,
}

impl View for SubscriberName {
    type V = Seq<char>;

    closed spec fn view(&self) -> Seq<char> {
        self.text@
    }
}

impl SubscriberName {
    /// Every value of this type satisfies the name grammar.
    pub open spec fn wf(&self) -> bool {
        is_valid_name(self@)
    }

    /// Validate a raw name; succeeds exactly on valid names and keeps the
    /// text unchanged.
    pub fn parse(raw: String) -> (r: Result<SubscriberName, ValidationError>)
        ensures
            match r {
                Ok(name) => is_valid_name(raw@) && name@ == raw@ && name.wf(),
                Err(e) => !is_valid_name(raw@) && e == ValidationError::InvalidName,
            },
    {
        let s = raw.as_str();
        if count_graphemes(s) > MAX_NAME_LEN {
            return Err(ValidationError::InvalidName);
        }
        let len = s.unicode_len();
        let mut has_content = false;
        let mut i: usize = 0;
        while i < len
            invariant
                i <= len,
                len == raw@.len(),
                s@ == raw@,
                forall|j: int| 0 <= j < i ==> !is_forbidden_char(raw@[j]),
                has_content == exists|j: int| 0 <= j < i && !is_space_char(raw@[j]),
            decreases len - i,
        {
            let c = s.get_char(i);
            if forbidden_char(c) {
                return Err(ValidationError::InvalidName);
            }
            if !space_char(c) {
                has_content = true;
            }
            i += 1;
        }
        if has_content {
            Ok(SubscriberName { text: raw })
        } else {
            Err(ValidationError::InvalidName)
        }
    }

    /// The validated text.
    pub fn as_str(&self) -> (r: &str)
        ensures
            r@ == self@,
    {
        self.text.as_str()
    }

    /// An owned copy of the validated text.
    pub fn to_text(&self) -> (r: String)
        ensures
            r@ == self@,
    {
        self.text.clone()
    }
}

/// An email address that passed validation; it cannot be built any other way.
pub struct SubscriberEmail {
    text: String,
}

impl View for SubscriberEmail {
    type V = Seq<char>;

    closed spec fn view(&self) -> Seq<char> {
        self.text@
    }
}

impl SubscriberEmail {
    /// Every value of this type satisfies the email grammar.
    pub open spec fn wf(&self) -> bool {
        is_valid_email(self@)
    }

    /// Validate a raw address; succeeds exactly on valid addresses and keeps
    /// the text unchanged.
    pub fn parse(raw: String) -> (r: Result<SubscriberEmail, ValidationError>)
        ensures
            match r {
                Ok(email) => is_valid_email(raw@) && email@ == raw@ && email.wf(),
                Err(e) => !is_valid_email(raw@) && e == ValidationError::InvalidEmail,
            },
    {
        let s = raw.as_str();
        let len = s.unicode_len();
        let mut at_count: usize = 0;
        let mut first_at: usize = 0;
        let mut second_at: usize = 0;
        let mut i: usize = 0;
        while i < len
            invariant
                i <= len,
                len == raw@.len(),
                s@ == raw@,
                at_count <= i,
                forall|j: int| 0 <= j < i ==> !is_space_char(raw@[j]),
                at_count == 0 ==> forall|j: int| 0 <= j < i ==> raw@[j] != '@',
                at_count >= 1 ==> first_at < i && raw@[first_at as int] == '@',
                at_count == 1 ==> forall|j: int|
                    0 <= j < i && j != first_at ==> raw@[j] != '@',
                at_count >= 2 ==> second_at < i && first_at < second_at && raw@[second_at as int]
                    == '@',
            decreases len - i,
        {
            let c = s.get_char(i);
            if space_char(c) {
                proof {
                    assert(forall|a: int| !is_email_split(raw@, a)) by {
                        assert forall|a: int| !is_email_split(raw@, a) by {
                            assert(is_space_char(raw@[i as int]));
                        }
                    }
                }
                return Err(ValidationError::InvalidEmail);
            }
            if c == '@' {
                if at_count == 0 {
                    first_at = i;
                } else if at_count == 1 {
                    second_at = i;
                }
                at_count += 1;
            }
            i += 1;
        }
        if at_count == 0 {
            proof {
                assert forall|a: int| !is_email_split(raw@, a) by {
                    if 0 <= a < raw@.len() {
                        assert(raw@[a] != '@');
                    }
                }
            }
            return Err(ValidationError::InvalidEmail);
        }
        if at_count >= 2 {
            proof {
                assert forall|a: int| !is_email_split(raw@, a) by {
                    if is_email_split(raw@, a) {
                        assert(raw@[first_at as int] == '@');
                        assert(raw@[second_at as int] == '@');
                    }
                }
            }
            return Err(ValidationError::InvalidEmail);
        }
        let a = first_at;
        if a == 0 || a + 1 >= len {
            proof {
                assert forall|p: int| !is_email_split(raw@, p) by {
                    if is_email_split(raw@, p) {
                        assert(raw@[p] == '@');
                        assert(p == a as int);
                    }
                }
            }
            return Err(ValidationError::InvalidEmail);
        }
        // Look for a dot strictly inside the domain.
        let mut d: usize = a + 2;
        while d < len - 1
            invariant
                a + 2 <= d,
                d <= len,
                len == raw@.len(),
                s@ == raw@,
                0 < a,
                a + 1 < len,
                raw@[a as int] == '@',
                forall|j: int| 0 <= j < len && j != a ==> raw@[j] != '@',
                forall|j: int| 0 <= j < len ==> !is_space_char(raw@[j]),
                forall|j: int| a + 1 < j < d ==> raw@[j] != '.',
            decreases len - d,
        {
            if s.get_char(d) == '.' {
                proof {
                    assert(is_email_split(raw@, a as int));
                }
                return Ok(SubscriberEmail { text: raw });
            }
            d += 1;
        }
        proof {
            assert forall|p: int| !is_email_split(raw@, p) by {
                if is_email_split(raw@, p) {
                    assert(raw@[p] == '@');
                    assert(p == a as int);
                    let dot = choose|dd: int|
                        p + 1 < dd < raw@.len() - 1 && raw@[dd] == '.';
                    assert(raw@[dot] == '.');
                }
            }
        }
        Err(ValidationError::InvalidEmail)
    }

    /// The validated text.
    pub fn as_str(&self) -> (r: &str)
        ensures
            r@ == self@,
    {
        self.text.as_str()
    }

    /// An owned copy of the validated text.
    pub fn to_text(&self) -> (r: String)
        ensures
            r@ == self@,
    {
        self.text.clone()
    }
}

/// A fully validated submission: both halves passed their grammars.
pub struct NewSubscriber {
    pub name: SubscriberName,
    pub email: SubscriberEmail,
}

impl NewSubscriber {
    /// Both halves are well formed.
    pub open spec fn wf(&self) -> bool {
        self.name.wf() && self.email.wf()
    }
}

/// Validate a raw `(name, email)` pair, name first, stopping at the first
/// failure. Succeeds exactly when both halves are valid, and then carries
/// the raw text through unchanged.
pub fn parse_new_subscriber(raw_name: String, raw_email: String) -> (r: Result<
    NewSubscriber,
    ValidationError,
>)
    ensures
        match r {
            Ok(ns) => {
                &&& is_valid_name(raw_name@)
                &&& is_valid_email(raw_email@)
                &&& ns.name@ == raw_name@
                &&& ns.email@ == raw_email@
                &&& ns.wf()
            },
            Err(ValidationError::InvalidName) => !is_valid_name(raw_name@),
            Err(ValidationError::InvalidEmail) => is_valid_name(raw_name@) && !is_valid_email(
                raw_email@,
            ),
        },
{
    let name = match SubscriberName::parse(raw_name) {
        Ok(n) => n,
        Err(e) => { return Err(e); },
    };
    let email = match SubscriberEmail::parse(raw_email) {
        Ok(m) => m,
        Err(e) => { return Err(e); },
    };
    Ok(NewSubscriber { name, email })
}

} // verus!
