//! Subscriber email addresses and the grammar an address has to match.

use vstd::prelude::*;
use vstd::string::StringExecFns;

verus! {

/// Whether `s` is an email address by the HTML5 grammar, as the `validator`
/// crate decides it.
pub uninterp spec fn email_grammar_accepts(s: Seq<char>) -> bool;

/// Whether the `@` at index `at` is the only one in `s`, has a local part
/// before it and a `.` somewhere in the domain after it.
pub open spec fn splits_email_at(s: Seq<char>, at: int) -> bool {
    &&& 0 < at < s.len()
    &&& s[at] == '@'
    &&& forall|i: int| 0 <= i < s.len() && i != at ==> #[trigger] s[i] != '@'
    &&& exists|dot: int| at < dot < s.len() && #[trigger] s[dot] == '.'
}

/// Whether `s` has the outline `local@domain.tld`: exactly one `@`, which is
/// not the first character, followed by a domain with at least one `.`.
pub open spec fn has_email_shape(s: Seq<char>) -> bool {
    exists|at: int| splits_email_at(s, at)
}

/// The rules for an address `s` on which the grammar check returned
/// `conforms`.
pub open spec fn email_rules_hold(s: Seq<char>, conforms: bool) -> bool {
    has_email_shape(s) && conforms
}

/// Whether `s` is acceptable as a subscriber email address.
pub open spec fn is_valid_email(s: Seq<char>) -> bool {
    email_rules_hold(s, email_grammar_accepts(s))
}

/// The message that rejects `s` as an email address.
pub open spec fn email_rejection(s: Seq<char>) -> Seq<char> {
    s + " is not a valid subscriber email."@
}

/// An address of the outline `local@domain.tld` that the grammar accepts is
/// valid: `parse` accepts it.
pub proof fn addresses_within_the_rules_are_valid(s: Seq<char>)
    requires
        has_email_shape(s),
        email_grammar_accepts(s),
    ensures
        is_valid_email(s),
{
}

/// An address without `@` is not valid.
pub proof fn addresses_without_at_sign_are_invalid(s: Seq<char>)
    requires
        !s.contains('@'),
    ensures
        !is_valid_email(s),
{
    assert forall|at: int| !splits_email_at(s, at) by {}
}

/// An address that begins with `@`, and so has no local part, is not valid.
pub proof fn addresses_without_local_part_are_invalid(s: Seq<char>)
    requires
        s.len() > 0,
        s[0] == '@',
    ensures
        !is_valid_email(s),
{
    assert forall|at: int| !splits_email_at(s, at) by {}
}

/// The empty address is not valid.
pub proof fn the_empty_address_is_invalid()
    ensures
        !is_valid_email(Seq::<char>::empty()),
{
}

/// Checks `s` against the HTML5 email grammar with
/// `validator::validate_email`.
///
/// Trusted: the verdict is a function of the characters of `s` alone, and
/// `email_grammar_accepts` is the name of that function. Nothing is claimed
/// about which strings it accepts.
#[verifier::external_body]
fn conforms_to_email_grammar(s: &str) -> (conforms: bool)
    ensures
        conforms == email_grammar_accepts(s@),
{
    validator::validate_email(s)
}

/// Decides whether `s` has the outline `local@domain.tld`.
pub fn check_email_shape(s: &str) -> (b: bool)
    ensures
        b == has_email_shape(s@),
{
    broadcast use vstd::string::group_string_axioms;

    let mut seen_any = false;
    let mut at_signs: u8 = 0;
    let mut leading_at = false;
    let mut dot_in_domain = false;
    let ghost mut at: int = 0;
    let ghost mut other: int = 0;
    for c in it: s.chars()
        invariant
            it.seq() == s@,
            seen_any == (it.index() > 0),
            at_signs <= 2,
            at_signs == 0 ==> forall|i: int| 0 <= i < it.index() ==> #[trigger] s@[i] != '@',
            at_signs >= 1 ==> 0 <= at < it.index() && s@[at] == '@',
            at_signs == 1 ==> forall|i: int|
                0 <= i < it.index() && i != at ==> #[trigger] s@[i] != '@',
            at_signs == 1 ==> leading_at == (at == 0),
            at_signs == 1 ==> dot_in_domain == exists|dot: int|
                at < dot < it.index() && #[trigger] s@[dot] == '.',
            at_signs == 2 ==> 0 <= other < it.index() && other != at && s@[other] == '@',
    {
        if c == '@' {
            if at_signs == 0 {
                at_signs = 1;
                leading_at = !seen_any;
                dot_in_domain = false;
                proof {
                    at = it.index();
                }
            } else {
                at_signs = 2;
                proof {
                    other = it.index();
                }
            }
        } else if c == '.' && at_signs == 1 {
            dot_in_domain = true;
        }
        seen_any = true;
    }
    let shaped = at_signs == 1 && !leading_at && dot_in_domain;
    proof {
        if shaped {
            assert(splits_email_at(s@, at));
        } else {
            assert forall|k: int| !splits_email_at(s@, k) by {}
        }
    }
    shaped
}

/// A subscriber email address that has passed validation.
///
/// `parse` is the only way to obtain one.
#[derive(Debug)]
pub struct SubscriberEmail(String);

impl View for SubscriberEmail {
    type V = Seq<char>;

    closed spec fn view(&self) -> Seq<char> {
        self.0@
    }
}

impl Clone for SubscriberEmail {
    fn clone(&self) -> (copy: Self)
        ensures
            copy@ == self@,
    {
        proof {
            use_type_invariant(self);
        }
        SubscriberEmail(self.0.clone())
    }
}

impl SubscriberEmail {
    #[verifier::type_invariant]
    spec fn well_formed(self) -> bool {
        is_valid_email(self.0@)
    }

    /// Applies the rules for addresses to `s`, given the verdict of the
    /// grammar check on `s`.
    pub fn satisfies_rules(s: &str, conforms: bool) -> (ok: bool)
        ensures
            ok == email_rules_hold(s@, conforms),
    {
        conforms && check_email_shape(s)
    }

    /// Validates `s` as an email address and keeps it as it is.
    pub fn parse(s: String) -> (parsed: Result<SubscriberEmail, String>)
        ensures
            parsed is Ok <==> is_valid_email(s@),
            parsed matches Ok(email) ==> email@ == s@,
            parsed matches Err(reason) ==> reason@ == email_rejection(s@),
    {
        let conforms = conforms_to_email_grammar(s.as_str());
        if Self::satisfies_rules(s.as_str(), conforms) {
            Ok(SubscriberEmail(s))
        } else {
            Err(s.concat(" is not a valid subscriber email."))
        }
    }

    /// The address as it was submitted.
    pub fn as_ref(&self) -> (s: &str)
        ensures
            s@ == self@,
            is_valid_email(self@),
    {
        proof {
            use_type_invariant(self);
        }
        self.0.as_str()
    }

    /// Whether `other` is the same address, character for character.
    pub fn same_address(&self, other: &SubscriberEmail) -> (same: bool)
        ensures
            same == (self@ == other@),
    {
        self.0 == other.0
    }

    /// The address as an owned string.
    pub fn to_string(&self) -> (s: String)
        ensures
            s@ == self@,
    {
        self.0.clone()
    }
}

} // verus!
