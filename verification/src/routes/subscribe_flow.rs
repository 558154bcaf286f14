//! The decisions taken while a subscription request is served.
//!
//! Serving a request alternates database and email work with decisions.
//! The decisions live here as a machine: `subscribe` reads the form and
//! names the first piece of outside work; `SubscribeFlow::step` takes the
//! outcome of that work and names the next one, until the machine names
//! the HTTP status to answer with.

use vstd::prelude::*;
use crate::domain::NewSubscriber;
use crate::routes::subscriptions::{
    confirmation_email, confirmation_link, confirmation_subject, form_outcome,
    generate_subscription_token, html_body, is_subscription_token, plain_text_body,
    ConfirmationEmail, FormData,
};

verus! {

/// HTTP status of an accepted subscription.
pub const STATUS_OK: u16 = 200;

/// HTTP status of a request whose form does not validate.
pub const STATUS_BAD_REQUEST: u16 = 400;

/// HTTP status of a request that failed on the server's side.
pub const STATUS_INTERNAL_SERVER_ERROR: u16 = 500;

/// The outside work to perform next, or the answer to give.
pub enum SubscribeAction {
    /// Open a database transaction.
    BeginTransaction,
    /// Insert a subscriber with this address and name, in this status.
    InsertSubscriber { email: String, name: String, status: String },
    /// Store this token for the subscriber with this id.
    StoreToken { subscriber_id: u128, token: String },
    /// Commit the transaction.
    CommitTransaction,
    /// Send this email.
    SendConfirmationEmail(ConfirmationEmail),
    /// Answer the request with this HTTP status; nothing more is done.
    Respond(u16),
}

/// How the last piece of outside work ended.
pub enum SubscribeEvent {
    /// The work was done.
    Succeeded,
    /// The subscriber was inserted under this id.
    SubscriberInserted(u128),
    /// The work failed.
    Failed,
}

/// An action as the contracts see it.
pub enum ActionView {
    Begin,
    Insert { email: Seq<char>, name: Seq<char>, status: Seq<char> },
    Store { subscriber_id: u128, token: Seq<char> },
    Commit,
    Send { recipient: Seq<char>, subject: Seq<char>, html: Seq<char>, plain: Seq<char> },
    Respond(u16),
}

impl SubscribeAction {
    pub open spec fn view(&self) -> ActionView {
        match self {
            SubscribeAction::BeginTransaction => ActionView::Begin,
            SubscribeAction::InsertSubscriber { email, name, status } => ActionView::Insert {
                email: email@,
                name: name@,
                status: status@,
            },
            SubscribeAction::StoreToken { subscriber_id, token } => ActionView::Store {
                subscriber_id: *subscriber_id,
                token: token@,
            },
            SubscribeAction::CommitTransaction => ActionView::Commit,
            SubscribeAction::SendConfirmationEmail(mail) => ActionView::Send {
                recipient: mail.recipient@,
                subject: mail.subject@,
                html: mail.html_body@,
                plain: mail.plain_body@,
            },
            SubscribeAction::Respond(status) => ActionView::Respond(*status),
        }
    }
}

/// Where a request stands, as the contracts see it.
pub enum FlowView {
    /// Waiting for the transaction to open; the form is not read yet.
    Begin { name: Seq<char>, email: Seq<char>, base_url: Seq<char> },
    /// Waiting for the subscriber to be inserted.
    Insert { name: Seq<char>, email: Seq<char>, base_url: Seq<char> },
    /// Waiting for the token to be stored.
    Store { name: Seq<char>, email: Seq<char>, base_url: Seq<char>, token: Seq<char> },
    /// Waiting for the commit.
    Commit { name: Seq<char>, email: Seq<char>, base_url: Seq<char>, token: Seq<char> },
    /// Waiting for the confirmation email to be sent.
    Email,
    /// The answer has been given.
    Done,
}

/// Where a request stands.
pub enum SubscribeFlow {
    BeginningTransaction { form: FormData, base_url: String },
    InsertingSubscriber { subscriber: NewSubscriber, base_url: String },
    StoringToken { subscriber: NewSubscriber, base_url: String, token: String },
    Committing { subscriber: NewSubscriber, base_url: String, token: String },
    SendingEmail,
    Finished,
}

impl SubscribeFlow {
    pub open spec fn view(&self) -> FlowView {
        match self {
            SubscribeFlow::BeginningTransaction { form, base_url } => FlowView::Begin {
                name: form.name_chars(),
                email: form.email_chars(),
                base_url: base_url@,
            },
            SubscribeFlow::InsertingSubscriber { subscriber, base_url } => FlowView::Insert {
                name: subscriber.name.view(),
                email: subscriber.email.view(),
                base_url: base_url@,
            },
            SubscribeFlow::StoringToken { subscriber, base_url, token } => FlowView::Store {
                name: subscriber.name.view(),
                email: subscriber.email.view(),
                base_url: base_url@,
                token: token@,
            },
            SubscribeFlow::Committing { subscriber, base_url, token } => FlowView::Commit {
                name: subscriber.name.view(),
                email: subscriber.email.view(),
                base_url: base_url@,
                token: token@,
            },
            SubscribeFlow::SendingEmail => FlowView::Email,
            SubscribeFlow::Finished => FlowView::Done,
        }
    }
}

/// The status a new subscriber is saved in: waiting for the
/// confirmation link to be followed.
pub open spec fn pending_confirmation() -> Seq<char> {
    "pending_confirmation"@
}

/// The confirmation email for the subscriber `email`, carrying the link
/// of `token` under `base_url`.
pub open spec fn send_view(email: Seq<char>, base_url: Seq<char>, token: Seq<char>) -> ActionView {
    ActionView::Send {
        recipient: email,
        subject: confirmation_subject(),
        html: html_body(confirmation_link(base_url, token)),
        plain: plain_text_body(confirmation_link(base_url, token)),
    }
}

/// The decision taken when the work named in state `v` ends with `e`:
/// the next state and the next action. `fresh` is the token drawn when
/// the subscriber has just been inserted.
pub open spec fn next(v: FlowView, e: SubscribeEvent, fresh: Seq<char>) -> (FlowView, ActionView) {
    match v {
        FlowView::Begin { name, email, base_url } => {
            if e is Failed {
                (FlowView::Done, ActionView::Respond(500))
            } else {
                match form_outcome(name, email) {
                    Ok(_) => (
                        FlowView::Insert { name, email, base_url },
                        ActionView::Insert { email, name, status: pending_confirmation() },
                    ),
                    Err(_) => (FlowView::Done, ActionView::Respond(400)),
                }
            }
        },
        FlowView::Insert { name, email, base_url } => {
            match e {
                SubscribeEvent::SubscriberInserted(id) => (
                    FlowView::Store { name, email, base_url, token: fresh },
                    ActionView::Store { subscriber_id: id, token: fresh },
                ),
                _ => (FlowView::Done, ActionView::Respond(500)),
            }
        },
        FlowView::Store { name, email, base_url, token } => {
            if e is Failed {
                (FlowView::Done, ActionView::Respond(500))
            } else {
                (FlowView::Commit { name, email, base_url, token }, ActionView::Commit)
            }
        },
        FlowView::Commit { name, email, base_url, token } => {
            if e is Failed {
                (FlowView::Done, ActionView::Respond(500))
            } else {
                (FlowView::Email, send_view(email, base_url, token))
            }
        },
        FlowView::Email => {
            if e is Failed {
                (FlowView::Done, ActionView::Respond(500))
            } else {
                (FlowView::Done, ActionView::Respond(200))
            }
        },
        FlowView::Done => (FlowView::Done, ActionView::Respond(500)),
    }
}

/// The token that an action carries, if it stores one.
pub open spec fn drawn_token(a: ActionView) -> Seq<char> {
    match a {
        ActionView::Store { token, .. } => token,
        _ => Seq::empty(),
    }
}

/// Starts serving a subscription request for `form`: the first thing to
/// do is to open a database transaction.
pub fn subscribe(form: FormData, base_url: &str) -> (r: (SubscribeFlow, SubscribeAction))
    ensures
        r.0.view() == (FlowView::Begin {
            name: form.name_chars(),
            email: form.email_chars(),
            base_url: base_url@,
        }),
        r.1.view() == ActionView::Begin,
{
    (
        SubscribeFlow::BeginningTransaction { form, base_url: String::from_str(base_url) },
        SubscribeAction::BeginTransaction,
    )
}

impl SubscribeFlow {
    /// Takes the outcome of the work last named and decides what comes
    /// next; a token is drawn when the subscriber has just been inserted.
    pub fn step(self, event: SubscribeEvent) -> (r: (SubscribeFlow, SubscribeAction))
        ensures
            (r.0.view(), r.1.view()) == next(self.view(), event, drawn_token(r.1.view())),
            r.1.view() is Store ==> is_subscription_token(drawn_token(r.1.view())),
    {
        match self {
            SubscribeFlow::BeginningTransaction { form, base_url } => {
                if let SubscribeEvent::Failed = event {
                    (SubscribeFlow::Finished, SubscribeAction::Respond(STATUS_INTERNAL_SERVER_ERROR))
                } else {
                    match NewSubscriber::try_from(form) {
                        Ok(subscriber) => {
                            let email = String::from_str(subscriber.email.as_str());
                            let name = String::from_str(subscriber.name.as_str());
                            let status = String::from_str("pending_confirmation");
                            proof { reveal_strlit("pending_confirmation"); }
                            (
                                SubscribeFlow::InsertingSubscriber { subscriber, base_url },
                                SubscribeAction::InsertSubscriber { email, name, status },
                            )
                        },
                        Err(_) => (
                            SubscribeFlow::Finished,
                            SubscribeAction::Respond(STATUS_BAD_REQUEST),
                        ),
                    }
                }
            },
            SubscribeFlow::InsertingSubscriber { subscriber, base_url } => {
                if let SubscribeEvent::SubscriberInserted(subscriber_id) = event {
                    let token = generate_subscription_token();
                    let stored = String::from_str(token.as_str());
                    (
                        SubscribeFlow::StoringToken { subscriber, base_url, token },
                        SubscribeAction::StoreToken { subscriber_id, token: stored },
                    )
                } else {
                    (SubscribeFlow::Finished, SubscribeAction::Respond(STATUS_INTERNAL_SERVER_ERROR))
                }
            },
            SubscribeFlow::StoringToken { subscriber, base_url, token } => {
                if let SubscribeEvent::Failed = event {
                    (SubscribeFlow::Finished, SubscribeAction::Respond(STATUS_INTERNAL_SERVER_ERROR))
                } else {
                    (
                        SubscribeFlow::Committing { subscriber, base_url, token },
                        SubscribeAction::CommitTransaction,
                    )
                }
            },
            SubscribeFlow::Committing { subscriber, base_url, token } => {
                if let SubscribeEvent::Failed = event {
                    (SubscribeFlow::Finished, SubscribeAction::Respond(STATUS_INTERNAL_SERVER_ERROR))
                } else {
                    let mail = confirmation_email(&subscriber, base_url.as_str(), token.as_str());
                    (SubscribeFlow::SendingEmail, SubscribeAction::SendConfirmationEmail(mail))
                }
            },
            SubscribeFlow::SendingEmail => {
                if let SubscribeEvent::Failed = event {
                    (SubscribeFlow::Finished, SubscribeAction::Respond(STATUS_INTERNAL_SERVER_ERROR))
                } else {
                    (SubscribeFlow::Finished, SubscribeAction::Respond(STATUS_OK))
                }
            },
            SubscribeFlow::Finished => {
                (SubscribeFlow::Finished, SubscribeAction::Respond(STATUS_INTERNAL_SERVER_ERROR))
            },
        }
    }
}

/// The event that reports how the work named by `a` ended: `ok` tells
/// whether it succeeded, `id` is the id that an insertion gives.
pub open spec fn outcome_event(a: ActionView, ok: bool, id: u128) -> SubscribeEvent {
    if !ok {
        SubscribeEvent::Failed
    } else if a is Insert {
        SubscribeEvent::SubscriberInserted(id)
    } else {
        SubscribeEvent::Succeeded
    }
}

/// The actions named, in order, from state `v` and action `a` on, when
/// the pieces of work end in turn as `outcomes` says; the machine is
/// stepped as `SubscribeFlow::step` does, with `token` as the token drawn.
pub open spec fn run(v: FlowView, a: ActionView, outcomes: Seq<bool>, id: u128, token: Seq<char>) -> Seq<ActionView>
    decreases outcomes.len(),
{
    if a is Respond || outcomes.len() == 0 {
        seq![a]
    } else {
        let (v2, a2) = next(v, outcome_event(a, outcomes[0], id), token);
        seq![a] + run(v2, a2, outcomes.drop_first(), id, token)
    }
}

/// The state in which `subscribe` leaves a new request.
pub open spec fn start_view(name: Seq<char>, email: Seq<char>, base_url: Seq<char>) -> FlowView {
    FlowView::Begin { name, email, base_url }
}

/// The actions of a whole request for the form (`name`, `email`) when
/// opening the transaction, inserting the subscriber (under `id`), storing
/// the token, committing and sending the email succeed or fail as the
/// flags say.
pub open spec fn request_actions(
    name: Seq<char>,
    email: Seq<char>,
    base_url: Seq<char>,
    begun: bool,
    inserted: bool,
    stored: bool,
    committed: bool,
    sent: bool,
    id: u128,
    token: Seq<char>,
) -> Seq<ActionView> {
    let insert = ActionView::Insert { email, name, status: pending_confirmation() };
    let store = ActionView::Store { subscriber_id: id, token };
    let send = send_view(email, base_url, token);
    if !begun {
        seq![ActionView::Begin, ActionView::Respond(500)]
    } else if form_outcome(name, email) is Err {
        seq![ActionView::Begin, ActionView::Respond(400)]
    } else if !inserted {
        seq![ActionView::Begin, insert, ActionView::Respond(500)]
    } else if !stored {
        seq![ActionView::Begin, insert, store, ActionView::Respond(500)]
    } else if !committed {
        seq![ActionView::Begin, insert, store, ActionView::Commit, ActionView::Respond(500)]
    } else if !sent {
        seq![ActionView::Begin, insert, store, ActionView::Commit, send, ActionView::Respond(500)]
    } else {
        seq![ActionView::Begin, insert, store, ActionView::Commit, send, ActionView::Respond(200)]
    }
}

/// A subscription request runs as follows: open a transaction (if that
/// fails, answer 500); validate the form (if it is invalid, answer 400);
/// insert the subscriber with the submitted address and name; store a
/// fresh token for the id the insertion gave; commit; send the
/// confirmation email carrying the link of that token; answer 200. The
/// first piece of work that fails ends the request with 500.
pub proof fn law_subscribe_actions(
    name: Seq<char>,
    email: Seq<char>,
    base_url: Seq<char>,
    begun: bool,
    inserted: bool,
    stored: bool,
    committed: bool,
    sent: bool,
    id: u128,
    token: Seq<char>,
)
    ensures
        run(
            start_view(name, email, base_url),
            ActionView::Begin,
            seq![begun, inserted, stored, committed, sent],
            id,
            token,
        ) == request_actions(name, email, base_url, begun, inserted, stored, committed, sent, id, token),
{
    reveal_with_fuel(run, 7);
    let outcomes = seq![begun, inserted, stored, committed, sent];
    assert(outcomes.drop_first() =~= seq![inserted, stored, committed, sent]);
    assert(outcomes.drop_first().drop_first() =~= seq![stored, committed, sent]);
    assert(outcomes.drop_first().drop_first().drop_first() =~= seq![committed, sent]);
    assert(outcomes.drop_first().drop_first().drop_first().drop_first() =~= seq![sent]);
    assert(outcomes.drop_first().drop_first().drop_first().drop_first().drop_first() =~= Seq::<bool>::empty());
    assert(run(
        start_view(name, email, base_url),
        ActionView::Begin,
        outcomes,
        id,
        token,
    ) =~= request_actions(name, email, base_url, begun, inserted, stored, committed, sent, id, token));
}

/// The actions of a request driven by the five outcomes, as in
/// `law_subscribe_actions`.
pub open spec fn driven(
    name: Seq<char>,
    email: Seq<char>,
    base_url: Seq<char>,
    begun: bool,
    inserted: bool,
    stored: bool,
    committed: bool,
    sent: bool,
    id: u128,
    token: Seq<char>,
) -> Seq<ActionView> {
    run(
        start_view(name, email, base_url),
        ActionView::Begin,
        seq![begun, inserted, stored, committed, sent],
        id,
        token,
    )
}

/// Every request is answered, and with 200 exactly when the form is valid
/// and every piece of work succeeded; with 400 exactly when the
/// transaction opened and the form is invalid; with 500 in every other
/// case.
pub proof fn law_subscribe_answer(
    name: Seq<char>,
    email: Seq<char>,
    base_url: Seq<char>,
    begun: bool,
    inserted: bool,
    stored: bool,
    committed: bool,
    sent: bool,
    id: u128,
    token: Seq<char>,
)
    ensures
        ({
            let t = driven(name, email, base_url, begun, inserted, stored, committed, sent, id, token);
            let valid = form_outcome(name, email) is Ok;
            &&& t.len() > 0
            &&& t.last() is Respond
            &&& (t.last() == ActionView::Respond(200) <==> begun && valid && inserted && stored
                && committed && sent)
            &&& (t.last() == ActionView::Respond(400) <==> begun && !valid)
            &&& (t.last() == ActionView::Respond(500) <==> !(begun && valid && inserted && stored
                && committed && sent) && !(begun && !valid))
        }),
{
    law_subscribe_actions(name, email, base_url, begun, inserted, stored, committed, sent, id, token);
}

/// A request whose form is invalid changes nothing: no subscriber is
/// inserted, no token stored, nothing committed and no email sent.
pub proof fn law_invalid_form_changes_nothing(
    name: Seq<char>,
    email: Seq<char>,
    base_url: Seq<char>,
    begun: bool,
    inserted: bool,
    stored: bool,
    committed: bool,
    sent: bool,
    id: u128,
    token: Seq<char>,
)
    requires
        form_outcome(name, email) is Err,
    ensures
        ({
            let t = driven(name, email, base_url, begun, inserted, stored, committed, sent, id, token);
            forall|i: int|
                0 <= i < t.len() ==> !(#[trigger] t[i] is Insert) && !(t[i] is Store) && !(t[i] is Commit)
                    && !(t[i] is Send)
        }),
{
    law_subscribe_actions(name, email, base_url, begun, inserted, stored, committed, sent, id, token);
}

/// The subscriber is inserted with the address and the name exactly as
/// submitted, in the status `pending_confirmation`, and the token is stored for the id that the insertion gave.
pub proof fn law_subscriber_saved_as_submitted(
    name: Seq<char>,
    email: Seq<char>,
    base_url: Seq<char>,
    begun: bool,
    inserted: bool,
    stored: bool,
    committed: bool,
    sent: bool,
    id: u128,
    token: Seq<char>,
)
    ensures
        ({
            let t = driven(name, email, base_url, begun, inserted, stored, committed, sent, id, token);
            &&& forall|i: int|
                0 <= i < t.len() && #[trigger] t[i] is Insert ==> t[i] == (ActionView::Insert {
                    email,
                    name,
                    status: "pending_confirmation"@,
                })
            &&& forall|i: int|
                0 <= i < t.len() && #[trigger] t[i] is Store ==> t[i]->Store_subscriber_id == id
        }),
{
    law_subscribe_actions(name, email, base_url, begun, inserted, stored, committed, sent, id, token);
    reveal_strlit("pending_confirmation");
}

/// The confirmation email goes to the submitted address, and its link
/// carries the very token that was stored before it; it is sent only
/// after the transaction was committed.
pub proof fn law_email_confirms_stored_token(
    name: Seq<char>,
    email: Seq<char>,
    base_url: Seq<char>,
    begun: bool,
    inserted: bool,
    stored: bool,
    committed: bool,
    sent: bool,
    id: u128,
    token: Seq<char>,
)
    ensures
        ({
            let t = driven(name, email, base_url, begun, inserted, stored, committed, sent, id, token);
            &&& forall|i: int, j: int|
                0 <= i < t.len() && 0 <= j < t.len() && #[trigger] t[i] is Store && #[trigger] t[j] is Send
                    ==> i < j && t[j] == send_view(email, base_url, t[i]->Store_token)
            &&& forall|j: int|
                0 <= j < t.len() && #[trigger] t[j] is Send ==> 0 < j && t[j - 1] is Commit && committed
        }),
{
    law_subscribe_actions(name, email, base_url, begun, inserted, stored, committed, sent, id, token);
}

/// Once the commit succeeds, the next action sends the confirmation
/// email: to the submitted address, with subject `Welcome!`, an HTML body
/// whose anchor points at the link of the stored token, and a plain-text
/// body that gives the same link bare.
pub proof fn law_commit_sends_confirmation(
    name: Seq<char>,
    email: Seq<char>,
    base_url: Seq<char>,
    token: Seq<char>,
    e: SubscribeEvent,
    fresh: Seq<char>,
)
    requires
        !(e is Failed),
    ensures
        ({
            let link = "http://"@ + base_url + "/subscriptions/confirm?subscription_token="@ + token;
            next(FlowView::Commit { name, email, base_url, token }, e, fresh) == (
                FlowView::Email,
                ActionView::Send {
                    recipient: email,
                    subject: "Welcome!"@,
                    html: "Welcome to our newsletter!<br />Click <a href=\""@ + link
                        + "\">here</a> to confirm your subscription."@,
                    plain: "Welcome to our newsletter!\nVisit "@ + link + " to confirm your subscription."@,
                },
            )
        }),
{
}

} // verus!
