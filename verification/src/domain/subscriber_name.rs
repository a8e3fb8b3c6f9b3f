//! The display name of a subscriber.

use unicode_segmentation::UnicodeSegmentation;
use vstd::prelude::*;
use vstd::string::StringExecFns;

verus! {

/// The largest number of grapheme clusters a name may have.
pub const MAX_NAME_GRAPHEMES: usize = 256;

/// The number of extended grapheme clusters (user-perceived characters) of a
/// text, as the crate `unicode_segmentation` counts them.
pub uninterp spec fn grapheme_count(text: Seq<char>) -> nat;

/// The characters that may not occur anywhere in a name.
pub open spec fn is_forbidden_char(c: char) -> bool {
    c == '/' || c == '(' || c == ')' || c == '"' || c == '<' || c == '>' || c == '\\' || c == '{'
        || c == '}'
}

/// The code points that Unicode classes as `White_Space`.
pub open spec fn is_whitespace_char(c: char) -> bool {
    let n = c as u32;
    (0x09 <= n <= 0x0D) || n == 0x20 || n == 0x85 || n == 0xA0 || n == 0x1680 || (0x2000 <= n
        <= 0x200A) || n == 0x2028 || n == 0x2029 || n == 0x202F || n == 0x205F || n == 0x3000
}

/// A text is blank when nothing but white space is in it: trimming it leaves
/// the empty text.
pub open spec fn is_blank(text: Seq<char>) -> bool {
    forall|i: int| 0 <= i < text.len() ==> is_whitespace_char(#[trigger] text[i])
}

pub open spec fn has_forbidden_char(text: Seq<char>) -> bool {
    exists|i: int| 0 <= i < text.len() && is_forbidden_char(#[trigger] text[i])
}

/// The rule for names, given the number of grapheme clusters of the text.
pub open spec fn name_is_valid(text: Seq<char>, graphemes: nat) -> bool {
    &&& !is_blank(text)
    &&& graphemes <= MAX_NAME_GRAPHEMES
    &&& !has_forbidden_char(text)
}

/// What `SubscriberName::parse` answers for a text it rejects.
pub open spec fn name_rejection(text: Seq<char>) -> Seq<char> {
    text + ", is not a valid subscriber name."@
}

/// Counts grapheme clusters with `UnicodeSegmentation::graphemes(s, true)`,
/// the extended clusters of UAX #29. The contract only names the count.
#[verifier::external_body]
fn count_graphemes(s: &str) -> (n: usize)
    ensures
        n == grapheme_count(s@),
{
    s.graphemes(true).count()
}

pub fn is_forbidden(c: char) -> (b: bool)
    ensures
        b == is_forbidden_char(c),
{
    c == '/' || c == '(' || c == ')' || c == '"' || c == '<' || c == '>' || c == '\\' || c == '{'
        || c == '}'
}

pub fn is_whitespace(c: char) -> (b: bool)
    ensures
        b == is_whitespace_char(c),
{
    let n: u32 = c as u32;
    (0x09 <= n && n <= 0x0D) || n == 0x20 || n == 0x85 || n == 0xA0 || n == 0x1680 || (0x2000 <= n
        && n <= 0x200A) || n == 0x2028 || n == 0x2029 || n == 0x202F || n == 0x205F || n
        == 0x3000
}

/// Decides whether `s` may be a name, given its number of grapheme clusters.
pub fn is_valid_name(s: &str, graphemes: usize) -> (ok: bool)
    ensures
        ok == name_is_valid(s@, graphemes as nat),
{
    let mut blank = true;
    let mut forbidden = false;
    for c in it: s.chars()
        invariant
            it.seq() == s@,
            blank == is_blank(s@.take(it.index() as int)),
            forbidden == has_forbidden_char(s@.take(it.index() as int)),
    {
        let ghost k = it.index() as int;
        assert(s@.take(k + 1)[k] == c);
        if !is_whitespace(c) {
            blank = false;
        }
        if is_forbidden(c) {
            forbidden = true;
        }
    }
    assert(s@.take(s@.len() as int) == s@);
    !blank && graphemes <= MAX_NAME_GRAPHEMES && !forbidden
}

/// A display name that passed the rule for names.
#[derive(Debug)]
pub struct SubscriberName {
    value: String,
}

impl View for SubscriberName {
    type V = Seq<char>;

    closed spec fn view(&self) -> Seq<char> {
        self.value@
    }
}

impl SubscriberName {
    #[verifier::type_invariant]
    spec fn holds_valid_name(self) -> bool {
        name_is_valid(self.value@, grapheme_count(self.value@))
    }

    /// Accepts `s` as a name exactly when it is not blank, has at most 256
    /// grapheme clusters and holds no forbidden character; a rejected text
    /// comes back inside the message.
    pub fn parse(s: String) -> (res: Result<SubscriberName, String>)
        ensures
            res is Ok <==> name_is_valid(s@, grapheme_count(s@)),
            is_blank(s@) ==> res is Err,
            grapheme_count(s@) > MAX_NAME_GRAPHEMES ==> res is Err,
            has_forbidden_char(s@) ==> res is Err,
            res matches Ok(name) ==> name@ == s@,
            res matches Err(message) ==> message@ == name_rejection(s@),
    {
        let graphemes = count_graphemes(s.as_str());
        if is_valid_name(s.as_str(), graphemes) {
            Ok(SubscriberName { value: s })
        } else {
            Err(s.concat(", is not a valid subscriber name."))
        }
    }

    pub fn as_ref(&self) -> (s: &str)
        ensures
            s@ == self@,
            name_is_valid(self@, grapheme_count(self@)),
    {
        proof {
            use_type_invariant(self);
        }
        self.value.as_str()
    }
}

impl Clone for SubscriberName {
    fn clone(&self) -> (copy: Self)
        ensures
            copy@ == self@,
    {
        proof {
            use_type_invariant(self);
        }
        SubscriberName { value: self.value.clone() }
    }
}

} // verus!
