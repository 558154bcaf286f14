//! Validated subscriber data: a subscriber's name and email address, each
//! accepted only when it passes its validation rule.

use vstd::prelude::*;

verus! {

/// Unicode `White_Space` characters (the set `char::is_whitespace` uses).
pub open spec fn is_whitespace_char(c: char) -> bool {
    let u = c as u32;
    ||| 0x09 <= u <= 0x0D
    ||| u == 0x20
    ||| u == 0x85
    ||| u == 0xA0
    ||| u == 0x1680
    ||| 0x2000 <= u <= 0x200A
    ||| u == 0x2028
    ||| u == 0x2029
    ||| u == 0x202F
    ||| u == 0x205F
    ||| u == 0x3000
}

/// A subscriber name is valid when it is not blank: some character of it
/// is not whitespace.
pub open spec fn is_valid_name(s: Seq<char>) -> bool {
    exists|i: int| 0 <= i < s.len() && !is_whitespace_char(#[trigger] s[i])
}

/// An email address is valid when it holds exactly one `@`, with at
/// least one character before it and at least one after it.
pub open spec fn is_valid_email(s: Seq<char>) -> bool {
    exists|i: int|
        #![trigger s[i]]
        0 < i < s.len() - 1 && s[i] == '@' && forall|j: int|
            0 <= j < s.len() && j != i ==> #[trigger] s[j] != '@'
}

/// The error text for a rejected subscriber name.
pub open spec fn invalid_name_message(s: Seq<char>) -> Seq<char> {
    s + " is not a valid subscriber name."@
}

/// The error text for a rejected email address.
pub open spec fn invalid_email_message(s: Seq<char>) -> Seq<char> {
    s + " is not a valid subscriber email."@
}

/// Tells whether `c` is a Unicode whitespace character.
pub fn is_whitespace(c: char) -> (b: bool)
    ensures
        b == is_whitespace_char(c),
{
    let u = c as u32;
    (0x09 <= u && u <= 0x0D) || u == 0x20 || u == 0x85 || u == 0xA0 || u == 0x1680
        || (0x2000 <= u && u <= 0x200A) || u == 0x2028 || u == 0x2029 || u == 0x202F
        || u == 0x205F || u == 0x3000
}

/// The name of a subscriber; never blank.
pub struct SubscriberName(String);

impl SubscriberName {
    #[verifier::type_invariant]
    closed spec fn well_formed(self) -> bool {
        is_valid_name(self.0@)
    }

    /// The characters of the name.
    pub closed spec fn view(&self) -> Seq<char> {
        self.0@
    }

    /// Accepts `s` as a subscriber name when it is not blank; otherwise
    /// returns the error text naming `s`.
    pub fn parse(s: String) -> (r: Result<SubscriberName, String>)
        ensures
            is_valid_name(s@) <==> r is Ok,
            r matches Ok(n) ==> n.view() == s@,
            r matches Err(e) ==> e@ == invalid_name_message(s@),
    {
        let mut blank = true;
        for c in it: s.as_str().chars()
            invariant
                it.seq() == s@,
                blank <==> forall|j: int| 0 <= j < it.index() ==> is_whitespace_char(#[trigger] s@[j]),
        {
            if !is_whitespace(c) {
                blank = false;
            }
        }
        if blank {
            let mut e = s;
            e.append(" is not a valid subscriber name.");
            proof { reveal_strlit(" is not a valid subscriber name."); }
            Err(e)
        } else {
            Ok(SubscriberName(s))
        }
    }

    /// The name as text; it is never blank.
    pub fn as_str(&self) -> (r: &str)
        ensures
            r@ == self.view(),
            is_valid_name(r@),
    {
        proof { use_type_invariant(self); }
        self.0.as_str()
    }
}

/// The email address of a subscriber; always holds exactly one `@`
/// between a non-empty local part and a non-empty domain.
pub struct SubscriberEmail(String);

impl SubscriberEmail {
    #[verifier::type_invariant]
    closed spec fn well_formed(self) -> bool {
        is_valid_email(self.0@)
    }

    /// The characters of the address.
    pub closed spec fn view(&self) -> Seq<char> {
        self.0@
    }

    /// Accepts `s` as an email address when it passes the email rule;
    /// otherwise returns the error text naming `s`.
    pub fn parse(s: String) -> (r: Result<SubscriberEmail, String>)
        ensures
            is_valid_email(s@) <==> r is Ok,
            r matches Ok(m) ==> m.view() == s@,
            r matches Err(e) ==> e@ == invalid_email_message(s@),
    {
        let n = s.as_str().unicode_len();
        let mut ats: usize = 0;
        let mut at: usize = 0;
        let mut idx: usize = 0;
        for c in it: s.as_str().chars()
            invariant
                it.seq() == s@,
                idx == it.index(),
                n == s@.len(),
                ats <= it.index(),
                ats == 0 ==> forall|j: int| 0 <= j < it.index() ==> #[trigger] s@[j] != '@',
                ats >= 1 ==> at < it.index() && s@[at as int] == '@',
                ats == 1 ==> forall|j: int| 0 <= j < it.index() && j != at ==> #[trigger] s@[j] != '@',
                ats >= 2 ==> exists|j: int| 0 <= j < it.index() && j != at && #[trigger] s@[j] == '@',
        {
            if c == '@' {
                if ats == 0 {
                    at = idx;
                }
                if ats < 2 {
                    ats = ats + 1;
                }
            }
            idx = idx + 1;
        }
        if ats == 1 && 0 < at && at + 1 < n {
            Ok(SubscriberEmail(s))
        } else {
            let mut e = s;
            e.append(" is not a valid subscriber email.");
            proof { reveal_strlit(" is not a valid subscriber email."); }
            Err(e)
        }
    }

    /// The address as text; it always passes the email rule.
    pub fn as_str(&self) -> (r: &str)
        ensures
            r@ == self.view(),
            is_valid_email(r@),
    {
        proof { use_type_invariant(self); }
        self.0.as_str()
    }
}

/// A subscriber whose name and address have both been validated.
pub struct NewSubscriber {
    pub email: SubscriberEmail,
    pub name: SubscriberName,
}

/// A name is accepted exactly when some character of it lies outside the
/// Unicode `White_Space` set: tab to carriage return (U+0009..U+000D),
/// space, U+0085, U+00A0, U+1680, U+2000..U+200A, U+2028, U+2029, U+202F,
/// U+205F and U+3000. Every other character, letters, digits,
/// punctuation and apostrophes among them, makes a name acceptable.
pub proof fn law_name_rule(s: Seq<char>)
    ensures
        is_valid_name(s) <==> exists|i: int|
            0 <= i < s.len() && !({
                let u = #[trigger] s[i] as u32;
                ||| 9 <= u <= 13
                ||| u == 32
                ||| u == 0x85
                ||| u == 0xA0
                ||| u == 0x1680
                ||| 0x2000 <= u <= 0x200A
                ||| u == 0x2028
                ||| u == 0x2029
                ||| u == 0x202F
                ||| u == 0x205F
                ||| u == 0x3000
            }),
{
}

/// An address is accepted exactly when it splits at an `@` into a
/// non-empty part before it and a non-empty part after it, neither of
/// which holds another `@`. Nothing else about the two parts matters.
pub proof fn law_email_rule(s: Seq<char>)
    ensures
        is_valid_email(s) <==> exists|i: int|
            0 < i < s.len() - 1 && #[trigger] s[i] == '@' && !s.take(i).contains('@') && !s.skip(
                i + 1,
            ).contains('@'),
{
    if is_valid_email(s) {
        let i = choose|i: int|
            #![trigger s[i]]
            0 < i < s.len() - 1 && s[i] == '@' && forall|j: int|
                0 <= j < s.len() && j != i ==> #[trigger] s[j] != '@';
        assert(!s.take(i).contains('@')) by {
            assert forall|k: int| 0 <= k < s.take(i).len() implies #[trigger] s.take(i)[k] != '@' by {
                assert(s.take(i)[k] == s[k]);
            }
        }
        assert(!s.skip(i + 1).contains('@')) by {
            assert forall|k: int| 0 <= k < s.skip(i + 1).len() implies #[trigger] s.skip(i + 1)[k] != '@' by {
                assert(s.skip(i + 1)[k] == s[i + 1 + k]);
            }
        }
    }
    if exists|i: int|
        0 < i < s.len() - 1 && #[trigger] s[i] == '@' && !s.take(i).contains('@') && !s.skip(
            i + 1,
        ).contains('@') {
        let i = choose|i: int|
            0 < i < s.len() - 1 && #[trigger] s[i] == '@' && !s.take(i).contains('@') && !s.skip(
                i + 1,
            ).contains('@');
        assert forall|j: int| 0 <= j < s.len() && j != i implies #[trigger] s[j] != '@' by {
            if j < i {
                assert(s.take(i)[j] == s[j]);
            } else {
                assert(s.skip(i + 1)[j - i - 1] == s[j]);
            }
        }
        assert(is_valid_email(s));
    }
}

/// The rules at work: a name with an apostrophe and an address with dots
/// before the `@` are both accepted, while an address with two `@` or
/// none is not.
pub proof fn law_rules_accept_ordinary_text()
    ensures
        is_valid_name("O'Brien"@),
        is_valid_email("ursula.le.guin@gmail.com"@),
        !is_valid_email("a@b@c"@),
        !is_valid_email("definitely-not-an-email"@),
{
    reveal_strlit("O'Brien");
    reveal_strlit("ursula.le.guin@gmail.com");
    reveal_strlit("a@b@c");
    reveal_strlit("definitely-not-an-email");
    let n = "O'Brien"@;
    assert(!is_whitespace_char(n[0]));
    let e = "ursula.le.guin@gmail.com"@;
    assert(e[14] == '@');
    assert forall|j: int| 0 <= j < e.len() && j != 14 implies #[trigger] e[j] != '@' by {}
    let b = "a@b@c"@;
    assert(b[1] == '@' && b[3] == '@');
    let d = "definitely-not-an-email"@;
    assert forall|j: int| 0 <= j < d.len() implies #[trigger] d[j] != '@' by {}
}

} // verus!
