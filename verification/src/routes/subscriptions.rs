//! Subscription requests: the submitted form, its validation, the
//! subscription token, the confirmation email and error reports.

use vstd::prelude::*;
use rand::Rng;
use crate::domain::{
    is_valid_email, is_valid_name, invalid_email_message, invalid_name_message, NewSubscriber,
    SubscriberEmail, SubscriberName,
};

verus! {

/// The subscription form as submitted: an email address and a name,
/// neither of them checked yet.
pub struct FormData {
    email: String,
    name: String,
}

impl FormData {
    /// The submitted email address.
    pub closed spec fn email_chars(&self) -> Seq<char> {
        self.email@
    }

    /// The submitted name.
    pub closed spec fn name_chars(&self) -> Seq<char> {
        self.name@
    }

    /// A form holding `email` and `name` as submitted.
    pub fn new(email: String, name: String) -> (f: FormData)
        ensures
            f.email_chars() == email@,
            f.name_chars() == name@,
    {
        FormData { email, name }
    }

    /// The submitted email address.
    pub fn email(&self) -> (r: &str)
        ensures
            r@ == self.email_chars(),
    {
        self.email.as_str()
    }

    /// The submitted name.
    pub fn name(&self) -> (r: &str)
        ensures
            r@ == self.name_chars(),
    {
        self.name.as_str()
    }
}

/// What validating a form gives: the validated name and address, or the
/// error text of the first field that fails (the name is checked first).
pub open spec fn form_outcome(name: Seq<char>, email: Seq<char>) -> Result<(Seq<char>, Seq<char>), Seq<char>> {
    if !is_valid_name(name) {
        Err(invalid_name_message(name))
    } else if !is_valid_email(email) {
        Err(invalid_email_message(email))
    } else {
        Ok((name, email))
    }
}

impl NewSubscriber {
    /// Validates the name, then the email address, of a submitted form.
    pub fn try_from(value: FormData) -> (r: Result<NewSubscriber, String>)
        ensures
            r is Ok <==> form_outcome(value.name_chars(), value.email_chars()) is Ok,
            r matches Ok(s) ==> s.name.view() == value.name_chars() && s.email.view()
                == value.email_chars(),
            r matches Err(e) ==> form_outcome(value.name_chars(), value.email_chars()) == Err::<
                (Seq<char>, Seq<char>),
                Seq<char>,
            >(e@),
    {
        let name = SubscriberName::parse(value.name)?;
        let email = SubscriberEmail::parse(value.email)?;
        Ok(NewSubscriber { email, name })
    }
}

/// A database failure met while storing a subscription token; it holds
/// the text of the database error that caused it.
pub struct StoreTokenError(pub String);

/// What a `StoreTokenError` says of itself.
pub open spec fn store_token_error_message() -> Seq<char> {
    "A database error was encountered while trying to stiore a subscription token."@
}

impl StoreTokenError {
    /// The text that describes this error.
    pub fn message(&self) -> (m: String)
        ensures
            m@ == store_token_error_message(),
    {
        String::from_str("A database error was encountered while trying to stiore a subscription token.")
    }

    /// The text of the database error that caused this one.
    pub fn source(&self) -> (s: &str)
        ensures
            s@ == self.0@,
    {
        self.0.as_str()
    }
}

/// The number of characters in a subscription token.
pub const SUBSCRIPTION_TOKEN_LENGTH: usize = 25;

/// An ASCII letter or digit.
pub open spec fn is_alphanumeric_code(u: u32) -> bool {
    ||| 0x41 <= u <= 0x5A
    ||| 0x61 <= u <= 0x7A
    ||| 0x30 <= u <= 0x39
}

/// A subscription token: exactly 25 characters, each an ASCII letter or
/// digit.
pub open spec fn is_subscription_token(t: Seq<char>) -> bool {
    &&& t.len() == SUBSCRIPTION_TOKEN_LENGTH
    &&& forall|i: int| 0 <= i < t.len() ==> is_alphanumeric_code(#[trigger] t[i] as u32)
}

#[verifier::external_type_specification]
#[verifier::external_body]
pub struct ExThreadRng(rand::rngs::ThreadRng);

/// Calls `rand::thread_rng`, the handle to this thread's random number
/// generator. Nothing is claimed of the handle. (It panics only when the
/// operating system's randomness source cannot be read.)
#[verifier::external_body]
fn thread_rng() -> rand::rngs::ThreadRng {
    rand::thread_rng()
}

/// Calls `Rng::sample` with `rand::distributions::Alphanumeric`, which
/// returns one byte drawn from `A-Z`, `a-z` and `0-9`. Which byte comes
/// is chance; the contract claims only that it is an ASCII letter or digit.
/// (The generator may reseed itself from the operating system and panics
/// if that source cannot be read; that depends on the machine, not on the
/// argument.)
#[verifier::external_body]
fn sample_alphanumeric(rng: &mut rand::rngs::ThreadRng) -> (b: u8)
    ensures
        is_alphanumeric_code(b as u32),
{
    rng.sample(rand::distributions::Alphanumeric)
}

/// The characters whose codes are `bytes`, in order.
pub open spec fn chars_of_bytes(bytes: Seq<u8>) -> Seq<char> {
    bytes.map_values(|b: u8| b as char)
}

/// Reads each byte of `bytes` as the character with that code.
pub fn token_from_bytes(bytes: &Vec<u8>) -> (token: String)
    ensures
        token@ == chars_of_bytes(bytes@),
{
    let mut token = String::new();
    let mut i: usize = 0;
    while i < bytes.len()
        invariant
            i <= bytes.len(),
            token@ == chars_of_bytes(bytes@.take(i as int)),
        decreases bytes.len() - i,
    {
        let c = bytes[i] as char;
        token.push(c);
        proof {
            assert(chars_of_bytes(bytes@.take(i + 1)) =~= chars_of_bytes(bytes@.take(i as int)).push(c));
        }
        i = i + 1;
    }
    proof {
        assert(bytes@.take(bytes.len() as int) =~= bytes@);
    }
    token
}

/// Draws a fresh subscription token from this thread's random number
/// generator: 25 alphanumeric bytes, read as characters.
pub fn generate_subscription_token() -> (token: String)
    ensures
        is_subscription_token(token@),
{
    let mut rng = thread_rng();
    let mut bytes: Vec<u8> = Vec::new();
    let mut i: usize = 0;
    while i < SUBSCRIPTION_TOKEN_LENGTH
        invariant
            i <= SUBSCRIPTION_TOKEN_LENGTH,
            bytes@.len() == i,
            forall|j: int| 0 <= j < i ==> is_alphanumeric_code(#[trigger] bytes@[j] as u32),
        decreases SUBSCRIPTION_TOKEN_LENGTH - i,
    {
        let b = sample_alphanumeric(&mut rng);
        bytes.push(b);
        i = i + 1;
    }
    let token = token_from_bytes(&bytes);
    proof {
        assert forall|j: int| 0 <= j < token@.len() implies is_alphanumeric_code(#[trigger] token@[j] as u32) by {
            assert(token@[j] == bytes@[j] as char);
            assert(is_alphanumeric_code(bytes@[j] as u32));
        }
    }
    token
}

/// The link that confirms the subscription owning `token`.
pub open spec fn confirmation_link(base_url: Seq<char>, token: Seq<char>) -> Seq<char> {
    "http://"@ + base_url + "/subscriptions/confirm?subscription_token="@ + token
}

/// The plain-text body of the confirmation email.
pub open spec fn plain_text_body(link: Seq<char>) -> Seq<char> {
    "Welcome to our newsletter!\nVisit "@ + link + " to confirm your subscription."@
}

/// The HTML body of the confirmation email.
pub open spec fn html_body(link: Seq<char>) -> Seq<char> {
    "Welcome to our newsletter!<br />Click <a href=\""@ + link
        + "\">here</a> to confirm your subscription."@
}

/// The subject of the confirmation email.
pub open spec fn confirmation_subject() -> Seq<char> {
    "Welcome!"@
}

/// An email to be sent: recipient, subject and both bodies.
pub struct ConfirmationEmail {
    pub recipient: String,
    pub subject: String,
    pub html_body: String,
    pub plain_body: String,
}

/// Builds the confirmation link for `token` under `base_url`.
pub fn build_confirmation_link(base_url: &str, token: &str) -> (link: String)
    ensures
        link@ == confirmation_link(base_url@, token@),
{
    let mut link = String::from_str("http://");
    link.append(base_url);
    link.append("/subscriptions/confirm?subscription_token=");
    link.append(token);
    proof {
        reveal_strlit("http://");
        reveal_strlit("/subscriptions/confirm?subscription_token=");
    }
    link
}

/// The confirmation email for a new subscriber: sent to the subscriber's
/// address, it carries the link that confirms `token`.
pub fn confirmation_email(new_subscriber: &NewSubscriber, base_url: &str, token: &str) -> (mail: ConfirmationEmail)
    ensures
        mail.recipient@ == new_subscriber.email.view(),
        mail.subject@ == confirmation_subject(),
        mail.plain_body@ == plain_text_body(confirmation_link(base_url@, token@)),
        mail.html_body@ == html_body(confirmation_link(base_url@, token@)),
{
    let link = build_confirmation_link(base_url, token);
    let mut plain_body = String::from_str("Welcome to our newsletter!\nVisit ");
    plain_body.append(link.as_str());
    plain_body.append(" to confirm your subscription.");
    let mut html = String::from_str("Welcome to our newsletter!<br />Click <a href=\"");
    html.append(link.as_str());
    html.append("\">here</a> to confirm your subscription.");
    let recipient = String::from_str(new_subscriber.email.as_str());
    let subject = String::from_str("Welcome!");
    ConfirmationEmail { recipient, subject, html_body: html, plain_body }
}

/// The text of the "Caused by" blocks, one per cause, in order.
pub open spec fn causes_text(causes: Seq<Seq<char>>) -> Seq<char>
    decreases causes.len(),
{
    if causes.len() == 0 {
        Seq::empty()
    } else {
        causes_text(causes.drop_last()) + "Caused by:\n\t"@ + causes.last() + "\n"@
    }
}

/// The report of an error and its chain of causes: the error's own text
/// followed by a blank line, then one "Caused by" block for each cause,
/// from the nearest to the root.
pub open spec fn error_chain_text(message: Seq<char>, causes: Seq<Seq<char>>) -> Seq<char> {
    message + "\n\n"@ + causes_text(causes)
}

/// Writes the report of an error whose text is `message` and whose chain
/// of sources has the texts `causes`, nearest first.
pub fn error_chain_fmt(message: &str, causes: &Vec<String>) -> (report: String)
    ensures
        report@ == error_chain_text(message@, causes@.map_values(|c: String| c@)),
{
    let ghost views = causes@.map_values(|c: String| c@);
    let mut report = String::from_str(message);
    report.append("\n\n");
    proof { reveal_strlit("\n\n"); }
    let mut i: usize = 0;
    while i < causes.len()
        invariant
            i <= causes.len(),
            views == causes@.map_values(|c: String| c@),
            report@ == message@ + "\n\n"@ + causes_text(views.take(i as int)),
        decreases causes.len() - i,
    {
        report.append("Caused by:\n\t");
        report.append(causes[i].as_str());
        report.append("\n");
        proof {
            assert(views.take(i + 1).drop_last() =~= views.take(i as int));
        }
        i = i + 1;
    }
    proof {
        assert(views.take(causes.len() as int) =~= views);
    }
    report
}

/// A form is accepted exactly when its name passes the name rule and its
/// address passes the email rule, and then it is kept unchanged. A
/// rejected form is answered with the name's error text when the name
/// fails, and with the address's error text when only the address fails.
pub proof fn law_form_accepted_exactly_when_fields_valid(name: Seq<char>, email: Seq<char>)
    ensures
        form_outcome(name, email) is Ok <==> is_valid_name(name) && is_valid_email(email),
        is_valid_name(name) && is_valid_email(email) ==> form_outcome(name, email) == Ok::<
            (Seq<char>, Seq<char>),
            Seq<char>,
        >((name, email)),
        !is_valid_name(name) ==> form_outcome(name, email) == Err::<(Seq<char>, Seq<char>), Seq<char>>(
            name + " is not a valid subscriber name."@,
        ),
        is_valid_name(name) && !is_valid_email(email) ==> form_outcome(name, email) == Err::<
            (Seq<char>, Seq<char>),
            Seq<char>,
        >(email + " is not a valid subscriber email."@),
{
}

/// The confirmation link is `http://`, the base URL, the confirmation
/// path and the token; the HTML body wraps the link in a clickable
/// anchor, and the plain-text body gives the bare link.
pub proof fn law_confirmation_texts(base_url: Seq<char>, token: Seq<char>)
    ensures
        confirmation_link(base_url, token) == "http://"@ + base_url
            + "/subscriptions/confirm?subscription_token="@ + token,
        html_body(confirmation_link(base_url, token)) == "Welcome to our newsletter!<br />Click <a href=\""@
            + ("http://"@ + base_url + "/subscriptions/confirm?subscription_token="@ + token)
            + "\">here</a> to confirm your subscription."@,
        plain_text_body(confirmation_link(base_url, token)) == "Welcome to our newsletter!\nVisit "@
            + ("http://"@ + base_url + "/subscriptions/confirm?subscription_token="@ + token)
            + " to confirm your subscription."@,
        confirmation_subject() == "Welcome!"@,
{
}

/// The error report starts with the error's text and a blank line; each
/// further cause adds exactly one block, `Caused by:`, a new line, a tab,
/// the cause's text and a new line, after the blocks of the causes before
/// it.
pub proof fn law_error_chain_blocks(message: Seq<char>, causes: Seq<Seq<char>>, cause: Seq<char>)
    ensures
        error_chain_text(message, Seq::empty()) == message + "\n\n"@,
        error_chain_text(message, causes.push(cause)) == error_chain_text(message, causes)
            + "Caused by:\n\t"@ + cause + "\n"@,
        store_token_error_message()
            == "A database error was encountered while trying to stiore a subscription token."@,
{
    assert(causes.push(cause).drop_last() =~= causes);
}

/// A subscription token is exactly 25 characters, each an upper-case
/// letter `A`..`Z` (codes 65..90), a lower-case letter `a`..`z` (codes
/// 97..122) or a digit `0`..`9` (codes 48..57).
pub proof fn law_token_characters(t: Seq<char>)
    ensures
        is_subscription_token(t) <==> t.len() == 25 && forall|i: int|
            0 <= i < t.len() ==> {
                let u = #[trigger] t[i] as u32;
                ||| 65 <= u <= 90
                ||| 97 <= u <= 122
                ||| 48 <= u <= 57
            },
{
}

/// Reading bytes as characters keeps their number and order, and each
/// character has the code of its byte.
pub proof fn law_chars_of_bytes(bytes: Seq<u8>)
    ensures
        chars_of_bytes(bytes).len() == bytes.len(),
        forall|i: int| 0 <= i < bytes.len() ==> #[trigger] chars_of_bytes(bytes)[i] as u32 == bytes[i] as u32,
{
}

} // verus!
