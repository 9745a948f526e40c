//! Domain value objects: subscriber email addresses and display names.
//!
//! `SubscriberEmail::parse` and `SubscriberName::parse` are the only ways to
//! produce their types, so a value of either type is valid by construction.
use crate::form::FormData;
use vstd::prelude::*;
use vstd::string::StrSliceExecFns;

verus! {

/// Largest number of characters a subscriber name may have.
pub const NAME_MAX_LEN: usize = 256;

/// A Unicode control character (the C0 and C1 ranges, including newline,
/// tab and null).
pub open spec fn is_control_char(c: char) -> bool {
    (c as u32) < 0x20 || (0x7f <= c as u32 && c as u32 <= 0x9f)
}

/// A character with the Unicode `White_Space` property, as `str::trim`
/// removes at either end of a string.
pub open spec fn is_space_char(c: char) -> bool {
    ||| c == ' '
    ||| c == '\t'
    ||| c == '\n'
    ||| c == '\r'
    ||| c == '\u{0B}'
    ||| c == '\u{0C}'
    ||| c == '\u{85}'
    ||| c == '\u{A0}'
    ||| c == '\u{1680}'
    ||| ('\u{2000}' <= c && c <= '\u{200A}')
    ||| c == '\u{2028}'
    ||| c == '\u{2029}'
    ||| c == '\u{202F}'
    ||| c == '\u{205F}'
    ||| c == '\u{3000}'
}

/// A character never allowed in a subscriber name, over and above the
/// control characters.
pub open spec fn is_forbidden_name_char(c: char) -> bool {
    ||| c == '/'
    ||| c == '('
    ||| c == ')'
    ||| c == '"'
    ||| c == '<'
    ||| c == '>'
    ||| c == '\\'
    ||| c == '{'
    ||| c == '}'
}

/// A valid subscriber name: not blank once trimmed, at most `NAME_MAX_LEN`
/// characters, and free of control characters and of the forbidden set.
pub open spec fn valid_name(s: Seq<char>) -> bool {
    &&& s.len() <= NAME_MAX_LEN
    &&& exists|i: int| 0 <= i < s.len() && !is_space_char(#[trigger] s[i])
    &&& forall|i: int|
        0 <= i < s.len() ==> !is_control_char(#[trigger] s[i]) && !is_forbidden_name_char(s[i])
}

/// A character that may not appear anywhere in an email address: whitespace
/// or a control character.
pub open spec fn is_email_unsafe_char(c: char) -> bool {
    is_space_char(c) || is_control_char(c)
}

/// Index `i` splits `s` into a non-empty local part and a non-empty domain
/// part around the only `@` of `s`.
pub open spec fn email_split_at(s: Seq<char>, i: int) -> bool {
    &&& 1 <= i && i + 2 <= s.len()
    &&& s[i] == '@'
    &&& forall|j: int| 0 <= j < s.len() && j != i ==> #[trigger] s[j] != '@'
}

/// The email syntax accepted here: exactly one `@`, with non-empty text on
/// both sides, and no whitespace or control character anywhere. Such a string
/// is usable as-is in outbound mail headers and in persistence.
pub open spec fn valid_email(s: Seq<char>) -> bool {
    &&& forall|i: int| 0 <= i < s.len() ==> !is_email_unsafe_char(#[trigger] s[i])
    &&& exists|i: int| email_split_at(s, i)
}

/// Why a raw email or name was rejected.
#[derive(Clone, Copy, Debug, PartialEq, Eq, Structural)]
pub enum ValidationError {
    InvalidEmail,
    InvalidName,
}

/// A validated email address. `parse` is the only constructor.
#[derive(Debug)]
pub struct SubscriberEmail {
    email: String,
}

impl View for SubscriberEmail {
    type V = Seq<char>;

    closed spec fn view(&self) -> Seq<char> {
        self.email@
    }
}

impl Clone for SubscriberEmail {
    fn clone(&self) -> (r: Self)
        ensures
            r@ == self@,
    {
        proof {
            use_type_invariant(self);
        }
        SubscriberEmail { email: self.email.clone() }
    }
}

impl SubscriberEmail {
    #[verifier::type_invariant]
    pub(crate) closed spec fn wf(self) -> bool {
        valid_email(self.email@)
    }

    /// Validate `s` as an email address; the returned value carries `s`
    /// unchanged.
    pub fn parse(s: String) -> (r: Result<SubscriberEmail, ValidationError>)
        ensures
            r is Ok <==> valid_email(s@),
            r is Ok ==> r.unwrap()@ == s@,
            r is Err ==> r.unwrap_err() == ValidationError::InvalidEmail,
    {
        let n = s.as_str().unicode_len();
        let mut i: usize = 0;
        let mut seen_at = false;
        let mut at_idx: usize = 0;
        while i < n
            invariant
                i <= n,
                n == s@.len(),
                forall|j: int| 0 <= j < i ==> !is_email_unsafe_char(#[trigger] s@[j]),
                seen_at ==> at_idx < i && s@[at_idx as int] == '@',
                forall|j: int| 0 <= j < i && (!seen_at || j != at_idx) ==> #[trigger] s@[j] != '@',
            decreases n - i,
        {
            let c = s.as_str().get_char(i);
            if is_email_unsafe_char_exec(c) {
                proof {
                    lemma_unsafe_char_invalid(s@, i as int);
                }
                return Err(ValidationError::InvalidEmail);
            }
            if c == '@' {
                if seen_at {
                    proof {
                        lemma_two_ats_invalid(s@, at_idx as int, i as int);
                    }
                    return Err(ValidationError::InvalidEmail);
                }
                seen_at = true;
                at_idx = i;
            }
            i = i + 1;
        }
        if seen_at && 1 <= at_idx && n >= 2 && at_idx <= n - 2 {
            assert(email_split_at(s@, at_idx as int));
            Ok(SubscriberEmail { email: s })
        } else {
            proof {
                if valid_email(s@) {
                    let k = choose|k: int| email_split_at(s@, k);
                    assert(s@[k] == '@');
                }
            }
            Err(ValidationError::InvalidEmail)
        }
    }

    /// The validated address, as stored.
    pub fn as_str(&self) -> (r: &str)
        ensures
            r@ == self@,
    {
        self.email.as_str()
    }

    /// A well-formed value's text passed the email check.
    pub(crate) proof fn lemma_wf_implies_valid(&self)
        requires
            self.wf(),
        ensures
            valid_email(self@),
    {
    }
}

/// Exec mirror of `is_email_unsafe_char`.
fn is_email_unsafe_char_exec(c: char) -> (r: bool)
    ensures
        r == is_email_unsafe_char(c),
{
    is_space_char_exec(c) || is_control_char_exec(c)
}

/// Exec mirror of `is_space_char`.
fn is_space_char_exec(c: char) -> (r: bool)
    ensures
        r == is_space_char(c),
{
    c == ' ' || c == '\t' || c == '\n' || c == '\r' || c == '\u{0B}' || c == '\u{0C}'
        || c == '\u{85}' || c == '\u{A0}' || c == '\u{1680}'
        || ('\u{2000}' <= c && c <= '\u{200A}') || c == '\u{2028}' || c == '\u{2029}'
        || c == '\u{202F}' || c == '\u{205F}' || c == '\u{3000}'
}

/// Exec mirror of `is_control_char`.
fn is_control_char_exec(c: char) -> (r: bool)
    ensures
        r == is_control_char(c),
{
    (c as u32) < 0x20 || (0x7f <= c as u32 && c as u32 <= 0x9f)
}

/// Exec mirror of `is_forbidden_name_char`.
fn is_forbidden_name_char_exec(c: char) -> (r: bool)
    ensures
        r == is_forbidden_name_char(c),
{
    c == '/' || c == '(' || c == ')' || c == '"' || c == '<' || c == '>' || c == '\\'
        || c == '{' || c == '}'
}

/// A string with an unsafe character at `i` fails the email check.
proof fn lemma_unsafe_char_invalid(s: Seq<char>, i: int)
    requires
        0 <= i < s.len(),
        is_email_unsafe_char(s[i]),
    ensures
        !valid_email(s),
{
}

/// A string with `@` at two distinct positions fails the email check.
proof fn lemma_two_ats_invalid(s: Seq<char>, a: int, b: int)
    requires
        0 <= a < s.len(),
        0 <= b < s.len(),
        a != b,
        s[a] == '@',
        s[b] == '@',
    ensures
        !valid_email(s),
{
    if valid_email(s) {
        let k = choose|k: int| email_split_at(s, k);
        assert(a == k && b == k);
    }
}

/// A validated display name. `parse` is the only constructor.
#[derive(Debug)]
pub struct SubscriberName {
    name: String,
}

impl View for SubscriberName {
    type V = Seq<char>;

    closed spec fn view(&self) -> Seq<char> {
        self.name@
    }
}

impl Clone for SubscriberName {
    fn clone(&self) -> (r: Self)
        ensures
            r@ == self@,
    {
        proof {
            use_type_invariant(self);
        }
        SubscriberName { name: self.name.clone() }
    }
}

impl SubscriberName {
    #[verifier::type_invariant]
    pub(crate) closed spec fn wf(self) -> bool {
        valid_name(self.name@)
    }

    /// Validate `s` as a display name; the returned value carries `s`
    /// unchanged.
    pub fn parse(s: String) -> (r: Result<SubscriberName, ValidationError>)
        ensures
            r is Ok <==> valid_name(s@),
            r is Ok ==> r.unwrap()@ == s@,
            r is Err ==> r.unwrap_err() == ValidationError::InvalidName,
    {
        let n = s.as_str().unicode_len();
        if n > NAME_MAX_LEN {
            return Err(ValidationError::InvalidName);
        }
        let mut i: usize = 0;
        let mut seen_ink = false;
        while i < n
            invariant
                i <= n,
                n == s@.len(),
                seen_ink <==> exists|j: int| 0 <= j < i && !is_space_char(#[trigger] s@[j]),
                forall|j: int|
                    0 <= j < i ==> !is_control_char(#[trigger] s@[j]) && !is_forbidden_name_char(
                        s@[j],
                    ),
            decreases n - i,
        {
            let c = s.as_str().get_char(i);
            if is_control_char_exec(c) || is_forbidden_name_char_exec(c) {
                return Err(ValidationError::InvalidName);
            }
            if !is_space_char_exec(c) {
                seen_ink = true;
            }
            i = i + 1;
        }
        if seen_ink {
            Ok(SubscriberName { name: s })
        } else {
            Err(ValidationError::InvalidName)
        }
    }

    /// The validated name, as stored.
    pub fn as_str(&self) -> (r: &str)
        ensures
            r@ == self@,
    {
        self.name.as_str()
    }

    /// A well-formed value's text passed the name check.
    pub(crate) proof fn lemma_wf_implies_valid(&self)
        requires
            self.wf(),
        ensures
            valid_name(self@),
    {
    }
}

/// A subscription request whose email and name both passed validation.
#[derive(Debug)]
pub struct NewSubscriber {
    pub email: SubscriberEmail,
    pub name: SubscriberName,
}

impl NewSubscriber {
    /// Validate both fields of a submitted form. The name is checked first,
    /// so a form that fails on both counts reports the name.
    pub fn parse(form: FormData) -> (r: Result<NewSubscriber, ValidationError>)
        ensures
            r is Ok <==> valid_name(form.name@) && valid_email(form.email@),
            r is Ok ==> r.unwrap().email@ == form.email@ && r.unwrap().name@ == form.name@,
            !valid_name(form.name@) ==> r === Err(ValidationError::InvalidName),
            valid_name(form.name@) && !valid_email(form.email@) ==> r === Err(
                ValidationError::InvalidEmail,
            ),
    {
        let name = match SubscriberName::parse(form.name) {
            Ok(n) => n,
            Err(e) => {
                return Err(e);
            },
        };
        let email = match SubscriberEmail::parse(form.email) {
            Ok(e) => e,
            Err(e) => {
                return Err(e);
            },
        };
        Ok(NewSubscriber { email, name })
    }
}

} // verus!
