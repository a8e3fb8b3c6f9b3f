//! Confirmation tokens: fixed-length random strings of letters and digits.

use vstd::prelude::*;

verus! {

/// The number of characters of every issued token.
pub const TOKEN_LENGTH: usize = 25;

/// The ASCII letters of either case and the ASCII digits.
pub open spec fn is_alphanumeric_char(c: char) -> bool {
    let n = c as u32;
    (0x30 <= n <= 0x39) || (0x41 <= n <= 0x5A) || (0x61 <= n <= 0x7A)
}

/// The shape of an issued token.
pub open spec fn token_is_well_formed(text: Seq<char>) -> bool {
    &&& text.len() == TOKEN_LENGTH
    &&& forall|i: int| 0 <= i < text.len() ==> is_alphanumeric_char(#[trigger] text[i])
}

/// Samples `rand::distributions::Alphanumeric` with `rand::thread_rng`,
/// the thread-local generator, which is cryptographically secure. The
/// contract claims what holds of every sample: the byte is an ASCII letter
/// or digit.
#[verifier::external_body]
fn random_alphanumeric() -> (b: u8)
    ensures
        is_alphanumeric_char(b as char),
{
    rand::Rng::sample(&mut rand::thread_rng(), rand::distributions::Alphanumeric)
}

/// `String::push`: appends one character to the end of the string.
#[verifier::external_body]
fn push_char(s: &mut String, c: char)
    ensures
        final(s)@ == old(s)@.push(c),
{
    s.push(c)
}

pub fn is_alphanumeric(c: char) -> (b: bool)
    ensures
        b == is_alphanumeric_char(c),
{
    let n: u32 = c as u32;
    (0x30 <= n && n <= 0x39) || (0x41 <= n && n <= 0x5A) || (0x61 <= n && n <= 0x7A)
}

/// Whether `s` has the shape of an issued token.
pub fn is_well_formed_token(s: &str) -> (ok: bool)
    ensures
        ok == token_is_well_formed(s@),
{
    let mut count: usize = 0;
    let mut clean = true;
    for c in it: s.chars()
        invariant
            it.seq() == s@,
            count <= TOKEN_LENGTH + 1,
            count == if it.index() <= TOKEN_LENGTH { it.index() } else { TOKEN_LENGTH + 1 },
            clean == (forall|i: int| 0 <= i < it.index() ==> is_alphanumeric_char(#[trigger] s@[i])),
    {
        if count <= TOKEN_LENGTH {
            count = count + 1;
        }
        if !is_alphanumeric(c) {
            clean = false;
        }
    }
    count == TOKEN_LENGTH && clean
}

/// A single-use credential that proves control of an email address.
#[derive(Debug)]
pub struct ConfirmationToken {
    value: String,
}

impl View for ConfirmationToken {
    type V = Seq<char>;

    closed spec fn view(&self) -> Seq<char> {
        self.value@
    }
}

impl ConfirmationToken {
    #[verifier::type_invariant]
    spec fn holds_well_formed_token(self) -> bool {
        token_is_well_formed(self.value@)
    }

    /// Accepts a text as a token if it has the shape of one.
    pub fn parse(s: String) -> (res: Option<ConfirmationToken>)
        ensures
            res is Some <==> token_is_well_formed(s@),
            res matches Some(token) ==> token@ == s@,
    {
        if is_well_formed_token(s.as_str()) {
            Some(ConfirmationToken { value: s })
        } else {
            None
        }
    }

    pub fn as_str(&self) -> (s: &str)
        ensures
            s@ == self@,
            token_is_well_formed(s@),
    {
        proof {
            use_type_invariant(self);
        }
        self.value.as_str()
    }

    /// Whether this token is the text `text`.
    pub fn matches(&self, text: &String) -> (same: bool)
        ensures
            same == (self@ == text@),
    {
        self.value == *text
    }
}

impl Clone for ConfirmationToken {
    fn clone(&self) -> (copy: Self)
        ensures
            copy@ == self@,
    {
        proof {
            use_type_invariant(self);
        }
        ConfirmationToken { value: self.value.clone() }
    }
}

/// Issues a fresh token: `TOKEN_LENGTH` characters, each drawn from the
/// letters and digits by a cryptographically secure generator. The token
/// knows nothing of the subscriber it will be bound to.
pub fn issue_token() -> (token: ConfirmationToken)
    ensures
        token_is_well_formed(token@),
{
    let mut value = String::new();
    let mut i: usize = 0;
    while i < TOKEN_LENGTH
        invariant
            i <= TOKEN_LENGTH,
            value@.len() == i,
            forall|j: int| 0 <= j < i ==> is_alphanumeric_char(#[trigger] value@[j]),
        decreases TOKEN_LENGTH - i,
    {
        let b = random_alphanumeric();
        push_char(&mut value, b as char);
        i = i + 1;
    }
    ConfirmationToken { value }
}

} // verus!
