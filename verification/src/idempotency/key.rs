use vstd::prelude::*;
use vstd::string::*;

verus! {

/// The longest idempotency key, in bytes, is one shorter than this.
pub const MAX_KEY_LENGTH: usize = 50;

/// Why a text was refused as an idempotency key.
pub open spec fn key_rejection(s: Seq<char>) -> Option<Seq<char>> {
    if s.len() == 0 {
        Some("The idempotency key cannot be empty"@)
    } else if vstd::utf8::encode_utf8(s).len() as usize >= MAX_KEY_LENGTH {
        Some("The idempotency key must be shorter than 50 characters"@)
    } else {
        None
    }
}

/// The key under which a client marks repeated submissions of one request:
/// non-empty and shorter than `MAX_KEY_LENGTH` bytes.
#[derive(Debug)]
pub struct IdempotencyKey(String);

impl View for IdempotencyKey {
    type V = Seq<char>;

    closed spec fn view(&self) -> Seq<char> {
        self.0@
    }
}

impl IdempotencyKey {
    /// Accepts `s` unless it is empty or `MAX_KEY_LENGTH` bytes long or longer.
    pub fn parse(s: String) -> (res: Result<IdempotencyKey, String>)
        ensures
            res is Ok <==> key_rejection(s@) is None,
            res matches Ok(k) ==> k@ == s@,
            res matches Err(m) ==> key_rejection(s@) == Some(m@),
    {
        if s.as_str().is_empty() {
            Err(String::from_str("The idempotency key cannot be empty"))
        } else if s.as_str().len() >= MAX_KEY_LENGTH {
            Err(String::from_str("The idempotency key must be shorter than 50 characters"))
        } else {
            Ok(IdempotencyKey(s))
        }
    }

    /// The key's text.
    pub fn as_str(&self) -> (r: &str)
        ensures
            r@ == self@,
    {
        self.0.as_str()
    }

    /// A copy of the key.
    pub fn duplicate(&self) -> (k: IdempotencyKey)
        ensures
            k@ == self@,
    {
        IdempotencyKey(self.0.clone())
    }
}

impl AsRef<str> for IdempotencyKey {
    fn as_ref(&self) -> (r: &str)
        ensures
            r@ == self@,
    {
        self.0.as_str()
    }
}

} // verus!
