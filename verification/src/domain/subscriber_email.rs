use validator::ValidateEmail;
use vstd::prelude::*;
use vstd::string::*;

verus! {

/// Position of the last `'@'` in `s`, or `-1` when `s` holds none.
pub open spec fn last_at(s: Seq<char>) -> int
    decreases s.len(),
{
    if s.len() == 0 {
        -1
    } else if s.last() == '@' {
        s.len() - 1
    } else {
        last_at(s.drop_last())
    }
}

/// What stands before the last `'@'` of an address.
pub open spec fn local_part(s: Seq<char>) -> Seq<char> {
    s.subrange(0, last_at(s))
}

/// What stands after the last `'@'` of an address.
pub open spec fn domain_part(s: Seq<char>) -> Seq<char> {
    s.subrange(last_at(s) + 1, s.len() as int)
}

/// The characters that the local part of an address may hold.
pub open spec fn is_local_part_char(c: char) -> bool {
    ||| ('a' <= c && c <= 'z')
    ||| ('A' <= c && c <= 'Z')
    ||| ('0' <= c && c <= '9')
    ||| c == '.' || c == '!' || c == '#' || c == '$' || c == '%' || c == '&'
    ||| c == '\'' || c == '*' || c == '+' || c == '/' || c == '=' || c == '?'
    ||| c == '^' || c == '_' || c == '`' || c == '{' || c == '|' || c == '}'
    ||| c == '~' || c == '-'
}

/// The shape that every address the validator accepts has: an `'@'`, a
/// local part of 1 to 64 permitted characters before the last one, and 1 to
/// 255 characters after it.
pub open spec fn has_email_shape(s: Seq<char>) -> bool {
    &&& last_at(s) >= 0
    &&& 0 < local_part(s).len() <= 64
    &&& forall|i: int| 0 <= i < local_part(s).len() ==> is_local_part_char(#[trigger] local_part(s)[i])
    &&& 0 < domain_part(s).len() <= 255
}

/// An ASCII letter of either case or a digit.
pub open spec fn is_alphanumeric(c: char) -> bool {
    ||| ('a' <= c && c <= 'z')
    ||| ('A' <= c && c <= 'Z')
    ||| ('0' <= c && c <= '9')
}

/// A host name: labels of letters, digits and hyphens separated by single
/// dots, each label 1 to 63 characters long and beginning and ending with
/// a letter or digit.
pub open spec fn is_host_name(d: Seq<char>) -> bool {
    &&& d.len() > 0
    &&& is_alphanumeric(d[0])
    &&& is_alphanumeric(d[d.len() - 1])
    &&& forall|i: int| 0 <= i < d.len() ==> is_alphanumeric(#[trigger] d[i]) || d[i] == '-' || d[i] == '.'
    &&& forall|i: int| 0 < i < d.len() - 1 && #[trigger] d[i] == '.' ==> is_alphanumeric(d[i - 1])
        && is_alphanumeric(d[i + 1])
    &&& forall|i: int, j: int| 0 <= i <= j <= d.len() && !d.subrange(i, j).contains('.') ==> #[trigger] d.subrange(i, j).len() <= 63
}

/// An ordinary address: an `'@'`, before the last one a local part of 1 to
/// 64 permitted characters (letters of either case, digits and
/// ``.!#$%&'*+/=?^_`{|}~-``), after it a host name of at most 255
/// characters.
pub open spec fn is_ordinary_address(s: Seq<char>) -> bool {
    &&& last_at(s) >= 0
    &&& 0 < local_part(s).len() <= 64
    &&& forall|i: int| 0 <= i < local_part(s).len() ==> is_local_part_char(#[trigger] local_part(s)[i])
    &&& domain_part(s).len() <= 255
    &&& is_host_name(domain_part(s))
}

/// Whether the `validator` crate's e-mail check accepts `s`.
pub uninterp spec fn email_is_valid(s: Seq<char>) -> bool;

/// The error text for a rejected address.
pub open spec fn rejection_message(s: Seq<char>) -> Seq<char> {
    s + " is not a valid subscriber email."@
}

/// Calls `validator::ValidateEmail::validate_email` on `s`.
/// Trusted: the result is `email_is_valid(s@)`, and, as the crate's source
/// shows (it rejects an address without `'@'`, measures both parts and
/// matches the local part against a character class with `+`, and no
/// pattern or IDNA result matches an empty domain), an accepted address has
/// the shape `has_email_shape`; and, as the source's domain pattern
/// (labels `[a-zA-Z0-9](?:[a-zA-Z0-9-]{0,61}[a-zA-Z0-9])?` joined by dots)
/// accepts every host name, every ordinary address is accepted.  Which
/// other domains pass (address literals, IDNA) is left to the name.
#[verifier::external_body]
fn validate_email(s: &str) -> (valid: bool)
    ensures
        valid == email_is_valid(s@),
        valid ==> has_email_shape(s@),
        is_ordinary_address(s@) ==> valid,
{
    s.validate_email()
}

/// A subscriber's e-mail address that the validator accepted.
#[derive(Debug)]
pub struct SubscriberEmail(String);

impl View for SubscriberEmail {
    type V = Seq<char>;

    closed spec fn view(&self) -> Seq<char> {
        self.0@
    }
}

/// The decision of `SubscriberEmail::parse` once the validator's verdict
/// on `s` is known: the text itself when accepted, the rejection message
/// otherwise.
pub fn check_email(s: String, valid: bool) -> (res: Result<String, String>)
    ensures
        res is Ok <==> valid,
        res matches Ok(a) ==> a@ == s@,
        res matches Err(m) ==> m@ == rejection_message(s@),
{
    if valid {
        Ok(s)
    } else {
        let mut message = s;
        message.append(" is not a valid subscriber email.");
        Err(message)
    }
}

impl SubscriberEmail {
    /// Every subscriber address is one the validator accepts.
    #[verifier::type_invariant]
    spec fn is_accepted(self) -> bool {
        email_is_valid(self.0@)
    }

    /// Accepts `s` exactly when the e-mail validator does; otherwise the
    /// error says which text was rejected.
    pub fn parse(s: String) -> (res: Result<SubscriberEmail, String>)
        ensures
            res is Ok <==> email_is_valid(s@),
            res is Ok ==> has_email_shape(s@),
            is_ordinary_address(s@) ==> res is Ok,
            res matches Ok(e) ==> e@ == s@,
            res matches Err(m) ==> m@ == rejection_message(s@),
    {
        let valid = validate_email(s.as_str());
        match check_email(s, valid) {
            Ok(accepted) => Ok(SubscriberEmail(accepted)),
            Err(message) => Err(message),
        }
    }
}

impl AsRef<str> for SubscriberEmail {
    fn as_ref(&self) -> (r: &str)
        ensures
            r@ == self@,
            email_is_valid(r@),
    {
        proof {
            use_type_invariant(self);
        }
        self.0.as_str()
    }
}

} // verus!
