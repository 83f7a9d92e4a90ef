//! Subscriber names and the rules a name has to satisfy.

use vstd::prelude::*;
use vstd::string::StringExecFns;

verus! {

/// The greatest number of grapheme clusters a subscriber name may have.
pub const MAX_NAME_GRAPHEMES: usize = 256;

/// Whether `c` carries the Unicode `White_Space` property.
pub open spec fn is_whitespace(c: char) -> bool {
    let u = c as u32;
    ||| 0x09 <= u <= 0x0D
    ||| u == 0x20
    ||| u == 0x85
    ||| u == 0xA0
    ||| u == 0x1680
    ||| 0x2000 <= u <= 0x200A
    ||| u == 0x2028
    ||| u == 0x2029
    ||| u == 0x202F
    ||| u == 0x205F
    ||| u == 0x3000
}

/// Whether nothing is left of `s` once whitespace is trimmed away.
pub open spec fn is_blank(s: Seq<char>) -> bool {
    forall|i: int| 0 <= i < s.len() ==> is_whitespace(#[trigger] s[i])
}

/// Whether `c` is one of the characters no name may contain.
pub open spec fn is_forbidden_character(c: char) -> bool {
    ||| c == '/'
    ||| c == '('
    ||| c == ')'
    ||| c == '"'
    ||| c == '<'
    ||| c == '>'
    ||| c == '\\'
    ||| c == '{'
    ||| c == '}'
}

/// Whether some character of `s` is forbidden in names.
pub open spec fn has_forbidden_character(s: Seq<char>) -> bool {
    exists|i: int| 0 <= i < s.len() && is_forbidden_character(#[trigger] s[i])
}

/// The number of extended grapheme clusters of `s`, as the
/// `unicode-segmentation` crate counts them.
pub uninterp spec fn grapheme_count(s: Seq<char>) -> nat;

/// The rules for a name `s` that consists of `graphemes` grapheme clusters.
pub open spec fn name_rules_hold(s: Seq<char>, graphemes: nat) -> bool {
    &&& !is_blank(s)
    &&& graphemes <= MAX_NAME_GRAPHEMES
    &&& !has_forbidden_character(s)
}

/// Whether `s` is acceptable as a subscriber name.
pub open spec fn is_valid_name(s: Seq<char>) -> bool {
    name_rules_hold(s, grapheme_count(s))
}

/// The message that rejects `s` as a name.
pub open spec fn name_rejection(s: Seq<char>) -> Seq<char> {
    s + " is not a valid subscriber name."@
}

/// A name that is not blank, has at most `MAX_NAME_GRAPHEMES` grapheme
/// clusters and no forbidden character is valid: `parse` accepts it and
/// keeps it unchanged.
pub proof fn names_within_the_rules_are_valid(s: Seq<char>)
    requires
        grapheme_count(s) <= MAX_NAME_GRAPHEMES,
        !is_blank(s),
        !has_forbidden_character(s),
    ensures
        is_valid_name(s),
{
}

/// A name of more than `MAX_NAME_GRAPHEMES` grapheme clusters is not valid.
pub proof fn names_over_the_limit_are_invalid(s: Seq<char>)
    requires
        grapheme_count(s) > MAX_NAME_GRAPHEMES,
    ensures
        !is_valid_name(s),
{
}

/// A name that holds a forbidden character anywhere is not valid.
pub proof fn names_with_a_forbidden_character_are_invalid(s: Seq<char>, i: int)
    requires
        0 <= i < s.len(),
        is_forbidden_character(s[i]),
    ensures
        !is_valid_name(s),
{
}

/// A forbidden character alone is not a valid name.
pub proof fn a_forbidden_character_is_no_name(c: char)
    requires
        is_forbidden_character(c),
    ensures
        !is_valid_name(seq![c]),
{
    names_with_a_forbidden_character_are_invalid(seq![c], 0);
}

/// A name of whitespace only is not valid, and neither is the empty name.
pub proof fn blank_names_are_invalid(s: Seq<char>)
    ensures
        is_blank(s) ==> !is_valid_name(s),
        s.len() == 0 ==> !is_valid_name(s),
{
}

/// Counts the extended grapheme clusters of `s` with
/// `unicode_segmentation::UnicodeSegmentation::graphemes(s, true)`.
///
/// Trusted: the count is a function of the characters of `s` alone, and
/// `grapheme_count` is the name of that function. Nothing is claimed about
/// its value.
#[verifier::external_body]
fn count_graphemes(s: &str) -> (n: usize)
    ensures
        n == grapheme_count(s@),
{
    unicode_segmentation::UnicodeSegmentation::graphemes(s, true).count()
}

/// Decides whether `c` is whitespace.
pub fn is_whitespace_char(c: char) -> (b: bool)
    ensures
        b == is_whitespace(c),
{
    let u: u32 = c as u32;
    (0x09 <= u && u <= 0x0D) || u == 0x20 || u == 0x85 || u == 0xA0 || u == 0x1680 || (0x2000 <= u
        && u <= 0x200A) || u == 0x2028 || u == 0x2029 || u == 0x202F || u == 0x205F || u == 0x3000
}

/// Decides whether `c` is forbidden in names.
pub fn is_forbidden_char(c: char) -> (b: bool)
    ensures
        b == is_forbidden_character(c),
{
    c == '/' || c == '(' || c == ')' || c == '"' || c == '<' || c == '>' || c == '\\' || c == '{'
        || c == '}'
}

/// Decides whether `s` is empty or made of whitespace only.
pub fn is_blank_str(s: &str) -> (b: bool)
    ensures
        b == is_blank(s@),
{
    broadcast use vstd::string::group_string_axioms;

    let mut blank = true;
    for c in it: s.chars()
        invariant
            it.seq() == s@,
            blank == forall|i: int| 0 <= i < it.index() ==> is_whitespace(#[trigger] s@[i]),
    {
        if !is_whitespace_char(c) {
            blank = false;
        }
    }
    blank
}

/// Decides whether `s` contains a forbidden character.
pub fn contains_forbidden_character(s: &str) -> (b: bool)
    ensures
        b == has_forbidden_character(s@),
{
    broadcast use vstd::string::group_string_axioms;

    let mut found = false;
    for c in it: s.chars()
        invariant
            it.seq() == s@,
            found == exists|i: int|
                0 <= i < it.index() && is_forbidden_character(#[trigger] s@[i]),
    {
        if is_forbidden_char(c) {
            found = true;
        }
    }
    found
}

/// A subscriber name that has passed validation.
///
/// The wrapped string is never empty or blank, has at most
/// `MAX_NAME_GRAPHEMES` grapheme clusters and no forbidden character.
/// `parse` is the only way to obtain one.
#[derive(Debug)]
pub struct SubscriberName(String);

impl View for SubscriberName {
    type V = Seq<char>;

    closed spec fn view(&self) -> Seq<char> {
        self.0@
    }
}

impl Clone for SubscriberName {
    fn clone(&self) -> (copy: Self)
        ensures
            copy@ == self@,
    {
        proof {
            use_type_invariant(self);
        }
        SubscriberName(self.0.clone())
    }
}

impl SubscriberName {
    #[verifier::type_invariant]
    spec fn well_formed(self) -> bool {
        is_valid_name(self.0@)
    }

    /// Applies the rules for names to `s`, given the number of grapheme
    /// clusters that `s` consists of.
    pub fn satisfies_rules(s: &str, graphemes: usize) -> (ok: bool)
        ensures
            ok == name_rules_hold(s@, graphemes as nat),
    {
        !is_blank_str(s) && graphemes <= MAX_NAME_GRAPHEMES && !contains_forbidden_character(s)
    }

    /// Validates `s` as a subscriber name and keeps it as it is, untrimmed.
    pub fn parse(s: String) -> (parsed: Result<SubscriberName, String>)
        ensures
            parsed is Ok <==> is_valid_name(s@),
            parsed matches Ok(name) ==> name@ == s@,
            parsed matches Err(reason) ==> reason@ == name_rejection(s@),
    {
        let graphemes = count_graphemes(s.as_str());
        if Self::satisfies_rules(s.as_str(), graphemes) {
            Ok(SubscriberName(s))
        } else {
            Err(s.concat(" is not a valid subscriber name."))
        }
    }

    /// The name as it was submitted.
    pub fn as_ref(&self) -> (s: &str)
        ensures
            s@ == self@,
            is_valid_name(self@),
    {
        proof {
            use_type_invariant(self);
        }
        self.0.as_str()
    }
}

} // verus!
