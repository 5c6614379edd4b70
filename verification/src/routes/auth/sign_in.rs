//! The order of a sign-in once Hytale has redirected back: check the
//! redirect, exchange the code, store the user and their Hytale account,
//! open a session, and send the browser on. Each outside step (HTTP,
//! database) is performed at the edge, which reports its outcome here and is
//! told what to do next.

use vstd::prelude::*;

use super::callback::{
    callback_accepted, callback_verdict, check_callback, display_username, post_login_redirect,
    CallbackQuery,
};
use super::oauth_state::OauthState;
use crate::error::ApiError;
use crate::hytale::client::ExchangedIdentity;

verus! {

/// What the edge does next.
pub enum SignInAction {
    /// Exchange the authorization code at Hytale's token endpoint, then
    /// report `Exchanged`.
    Exchange { code: String, verifier: String, nonce: String },
    /// Create or update the user, then report `UserStored`.
    StoreUser { sub: String, username: String },
    /// Record the Hytale account of `user_id`, then report `AccountStored`.
    StoreAccount {
        user_id: uuid::Uuid,
        sub: String,
        access_token: String,
        scope: Option<String>,
    },
    /// Open a session for `user_id` and issue its tokens, then report
    /// `SessionOpened`.
    OpenSession { user_id: uuid::Uuid },
    /// Done: send the browser here with the issued tokens.
    Finish { redirect_to: String },
    /// Stop and answer with this error.
    Fail(ApiError),
}

/// What the edge reports back about the action it was given.
pub enum SignInEvent {
    /// The code exchange: the verified identity, or why it failed.
    Exchanged(Result<ExchangedIdentity, String>),
    /// The user write: the user's id, or the error.
    UserStored(Result<uuid::Uuid, ApiError>),
    /// The account write.
    AccountStored(Result<(), ApiError>),
    /// The session and its tokens.
    SessionOpened(Result<(), ApiError>),
}

/// Which outside step a sign-in is waiting for.
pub enum SignInStage {
    Exchanging,
    StoringUser { identity: ExchangedIdentity },
    StoringAccount { user_id: uuid::Uuid },
    OpeningSession { user_id: uuid::Uuid },
}

/// The event that answers the step a stage waits for.
pub open spec fn stage_awaits(stage: SignInStage, event: SignInEvent) -> bool {
    match stage {
        SignInStage::Exchanging => event is Exchanged,
        SignInStage::StoringUser { .. } => event is UserStored,
        SignInStage::StoringAccount { .. } => event is AccountStored,
        SignInStage::OpeningSession { .. } => event is SessionOpened,
    }
}

/// A sign-in in progress. It exists only for a redirect that the check
/// accepted, and remembers which one.
pub struct SignIn {
    stage: SignInStage,
    redirect_to: String,
    saved: Ghost<OauthState>,
    query: Ghost<CallbackQuery>,
}

impl SignIn {
    #[verifier::type_invariant]
    spec fn came_from_accepted_redirect(self) -> bool {
        callback_accepted(self.saved@, self.query@)
    }

    pub closed spec fn spec_stage(&self) -> SignInStage {
        self.stage
    }

    /// Where the browser goes once the sign-in is done.
    pub closed spec fn spec_redirect_to(&self) -> Seq<char> {
        self.redirect_to@
    }

    /// The sign-in state saved at login.
    pub closed spec fn spec_saved(&self) -> OauthState {
        self.saved@
    }

    /// Hytale's redirect that started this sign-in.
    pub closed spec fn spec_query(&self) -> CallbackQuery {
        self.query@
    }

    /// Whether `event` answers the step this sign-in waits for.
    pub fn awaits(&self, event: &SignInEvent) -> (b: bool)
        ensures
            b == stage_awaits(self.spec_stage(), *event),
    {
        match (&self.stage, event) {
            (SignInStage::Exchanging, SignInEvent::Exchanged(_)) => true,
            (SignInStage::StoringUser { .. }, SignInEvent::UserStored(_)) => true,
            (SignInStage::StoringAccount { .. }, SignInEvent::AccountStored(_)) => true,
            (SignInStage::OpeningSession { .. }, SignInEvent::SessionOpened(_)) => true,
            _ => false,
        }
    }
}

/// The first step: check Hytale's redirect against the saved sign-in. Only
/// an accepted redirect starts a sign-in, whose first action is the code
/// exchange with the saved PKCE verifier and nonce; any other redirect is
/// answered with the check's error and nothing else happens.
pub fn begin_sign_in(saved: OauthState, query: CallbackQuery, frontend_url: &str) -> (r: (
    Option<SignIn>,
    SignInAction,
))
    ensures
        match r.1 {
            SignInAction::Exchange { code, verifier, nonce } => {
                &&& callback_verdict(saved, query, Ok(code))
                &&& verifier@ == saved.verifier@
                &&& nonce@ == saved.nonce@
                &&& r.0 matches Some(s) && s.spec_stage() is Exchanging && s.spec_saved() == saved
                    && s.spec_query() == query && s.spec_redirect_to() == frontend_url@
                    + saved.redirect_path@
            },
            SignInAction::Fail(e) => callback_verdict(saved, query, Err(e)) && r.0 is None,
            _ => false,
        },
        r.1 is Exchange <==> callback_accepted(saved, query),
{
    let ghost q = query;
    match check_callback(&saved, query) {
        Ok(code) => {
            let redirect_to = post_login_redirect(frontend_url, saved.redirect_path.as_str());
            let sign_in = SignIn {
                stage: SignInStage::Exchanging,
                redirect_to,
                saved: Ghost(saved),
                query: Ghost(q),
            };
            (Some(sign_in), SignInAction::Exchange { code, verifier: saved.verifier, nonce: saved.nonce })
        },
        Err(e) => (None, SignInAction::Fail(e)),
    }
}

/// One step of a sign-in: given the outcome of the step it waited for, the
/// next action. A failed step ends the sign-in with its error (a failed
/// exchange as a Hytale sign-in error); a successful one leads to the next
/// step, in the fixed order exchange, user, account, session, finish.
pub fn sign_in_step(sign_in: SignIn, event: SignInEvent) -> (r: (Option<SignIn>, SignInAction))
    requires
        stage_awaits(sign_in.spec_stage(), event),
    ensures
        callback_accepted(sign_in.spec_saved(), sign_in.spec_query()),
        r.0 matches Some(next) ==> next.spec_saved() == sign_in.spec_saved() && next.spec_query()
            == sign_in.spec_query() && next.spec_redirect_to() == sign_in.spec_redirect_to(),
        match event {
            SignInEvent::Exchanged(Err(m)) => {
                &&& r.0 is None
                &&& r.1 matches SignInAction::Fail(ApiError::HytaleAuth(m2)) && m2 == m
            },
            SignInEvent::Exchanged(Ok(identity)) => {
                &&& r.1 matches SignInAction::StoreUser { sub, username } && sub@ == identity.sub@
                    && username@ == match identity.profile {
                    Some(p) => p.username@,
                    None => identity.sub@,
                }
                &&& r.0 matches Some(next) && next.spec_stage() == (SignInStage::StoringUser {
                    identity,
                })
            },
            SignInEvent::UserStored(Err(e)) => r.0 is None && r.1 == SignInAction::Fail(e),
            SignInEvent::UserStored(Ok(user_id)) => {
                &&& sign_in.spec_stage() matches SignInStage::StoringUser { identity }
                    && r.1 == (SignInAction::StoreAccount {
                    user_id,
                    sub: identity.sub,
                    access_token: identity.access_token,
                    scope: identity.scope,
                })
                &&& r.0 matches Some(next) && next.spec_stage() == (SignInStage::StoringAccount {
                    user_id,
                })
            },
            SignInEvent::AccountStored(Err(e)) => r.0 is None && r.1 == SignInAction::Fail(e),
            SignInEvent::AccountStored(Ok(_)) => {
                &&& sign_in.spec_stage() matches SignInStage::StoringAccount { user_id }
                    && r.1 == (SignInAction::OpenSession { user_id })
                    && (r.0 matches Some(next) && next.spec_stage() == (
                    SignInStage::OpeningSession { user_id }))
            },
            SignInEvent::SessionOpened(Err(e)) => r.0 is None && r.1 == SignInAction::Fail(e),
            SignInEvent::SessionOpened(Ok(_)) => {
                &&& r.0 is None
                &&& r.1 matches SignInAction::Finish { redirect_to }
                    && redirect_to@ == sign_in.spec_redirect_to()
            },
        },
{
    proof {
        use_type_invariant(&sign_in);
    }
    let SignIn { stage, redirect_to, saved, query } = sign_in;
    match event {
        SignInEvent::Exchanged(Err(m)) => (None, SignInAction::Fail(ApiError::HytaleAuth(m))),
        SignInEvent::Exchanged(Ok(identity)) => {
            let action = SignInAction::StoreUser {
                sub: identity.sub.clone(),
                username: display_username(&identity),
            };
            let next = SignIn { stage: SignInStage::StoringUser { identity }, redirect_to, saved, query };
            (Some(next), action)
        },
        SignInEvent::UserStored(Err(e)) => (None, SignInAction::Fail(e)),
        SignInEvent::UserStored(Ok(user_id)) => match stage {
            SignInStage::StoringUser { identity } => {
                let action = SignInAction::StoreAccount {
                    user_id,
                    sub: identity.sub,
                    access_token: identity.access_token,
                    scope: identity.scope,
                };
                let next = SignIn {
                    stage: SignInStage::StoringAccount { user_id },
                    redirect_to,
                    saved,
                    query,
                };
                (Some(next), action)
            },
            _ => {
                assert(false);
                (None, SignInAction::Fail(ApiError::Unauthorized))
            },
        },
        SignInEvent::AccountStored(Err(e)) => (None, SignInAction::Fail(e)),
        SignInEvent::AccountStored(Ok(_)) => match stage {
            SignInStage::StoringAccount { user_id } => {
                let next = SignIn {
                    stage: SignInStage::OpeningSession { user_id },
                    redirect_to,
                    saved,
                    query,
                };
                (Some(next), SignInAction::OpenSession { user_id })
            },
            _ => {
                assert(false);
                (None, SignInAction::Fail(ApiError::Unauthorized))
            },
        },
        SignInEvent::SessionOpened(Err(e)) => (None, SignInAction::Fail(e)),
        SignInEvent::SessionOpened(Ok(_)) => (None, SignInAction::Finish { redirect_to }),
    }
}

/// Every stage waits for the report of its own step and for no other, so
/// each step's report is taken and the order exchange, user, account,
/// session can be run to its end.
pub proof fn lemma_each_stage_awaits_its_own_step(
    identity: ExchangedIdentity,
    user_id: uuid::Uuid,
    event: SignInEvent,
)
    ensures
        stage_awaits(SignInStage::Exchanging, event) <==> event is Exchanged,
        stage_awaits(SignInStage::StoringUser { identity }, event) <==> event is UserStored,
        stage_awaits(SignInStage::StoringAccount { user_id }, event) <==> event is AccountStored,
        stage_awaits(SignInStage::OpeningSession { user_id }, event) <==> event is SessionOpened,
{
}

/// Each successful report leads to a stage that waits for the next report:
/// after an exchange the user write, after it the account write, after it
/// the session.
pub proof fn lemma_successful_steps_are_answerable(
    identity: ExchangedIdentity,
    user_id: uuid::Uuid,
    exchanged: Result<ExchangedIdentity, String>,
    user_stored: Result<uuid::Uuid, ApiError>,
    account_stored: Result<(), ApiError>,
    session_opened: Result<(), ApiError>,
)
    ensures
        stage_awaits(SignInStage::Exchanging, SignInEvent::Exchanged(exchanged)),
        stage_awaits(SignInStage::StoringUser { identity }, SignInEvent::UserStored(user_stored)),
        stage_awaits(
            SignInStage::StoringAccount { user_id },
            SignInEvent::AccountStored(account_stored),
        ),
        stage_awaits(
            SignInStage::OpeningSession { user_id },
            SignInEvent::SessionOpened(session_opened),
        ),
{
}

} // verus!
