use vstd::prelude::*;
use vstd::string::StringExecFns;
use vstd::utf8::encode_utf8;
use crate::collaborators::{
    address_accepted, argon2_phc, generate_salt, is_v4_id, hash_password, new_v4_id, parse_address,
};
use crate::types::{Registration, RegistrationError, RegistrationPost, Role, Settings};

verus! {

/// Where a registration stands. The transaction is open from `InsertingUser`
/// until it is committed or rolled back.
#[derive(Clone, Copy, Debug, PartialEq, Eq)]
pub enum Phase {
    /// `Begin` was asked for; waiting for the transaction to open.
    Opening,
    /// The conditional user insert was asked for.
    InsertingUser,
    /// The user row is in the write-set; the organization insert was asked for.
    InsertingOrganization,
    /// The membership insert was asked for.
    InsertingMembership,
    /// A verification token was asked for.
    IssuingToken,
    /// The verification mail was handed to the mailer.
    SendingMail,
    /// The mail was accepted; the commit was asked for.
    Committing,
    /// The transaction is being rolled back; the error is the final outcome.
    RollingBack(RegistrationError),
    /// The registration is over.
    Finished(Result<Registration, RegistrationError>),
}

/// What the driver reports back after performing an action.
pub enum Event {
    /// The transaction is open.
    Began,
    /// The conditional user insert ran and touched this many rows.
    UserInserted { rows_affected: u64 },
    /// An organization or membership insert succeeded.
    Inserted,
    /// The token issuer produced this serialized token.
    TokenIssued { serialized_token: String },
    /// The mailer accepted the verification mail.
    MailAccepted,
    /// The transaction was committed.
    Committed,
    /// The transaction was rolled back.
    RolledBack,
    /// The store, the token issuer or the mailer failed.
    Failed,
}

/// What the driver is asked to do next.
pub enum Action {
    /// Open a transaction.
    Begin,
    /// Insert the user row unless a user with this email exists.
    InsertUser {
        user_id: u128,
        email: String,
        password_hash: String,
        first_name: String,
        last_name: String,
    },
    InsertOrganization { organization_id: u128, name: String, created_by: u128 },
    InsertMembership { user_id: u128, organization_id: u128, role: Role },
    /// Mint an email-verification token for this user.
    IssueToken { user_id: u128 },
    /// Send the verification mail to `display_name <recipient>` with `url`.
    SendVerificationMail { display_name: String, recipient: String, url: String },
    Commit,
    Rollback,
    /// Nothing is left to do; this is the outcome.
    Done(Result<Registration, RegistrationError>),
}

pub open spec fn full_name(first: Seq<char>, last: Seq<char>) -> Seq<char> {
    first + " "@ + last
}

pub open spec fn organization_name(first: Seq<char>, last: Seq<char>) -> Seq<char> {
    full_name(first, last) + "'s personal organization"@
}

pub open spec fn verification_url(app_url: Seq<char>, token: Seq<char>) -> Seq<char> {
    app_url + "/verify-email?token="@ + token
}

/// The phase that follows `p` when the driver reports `e`.
pub open spec fn next_phase(p: Phase, e: Event, done: Registration) -> Phase {
    match p {
        Phase::Opening => match e {
            Event::Began => Phase::InsertingUser,
            _ => Phase::Finished(Err(RegistrationError::Internal)),
        },
        Phase::InsertingUser => match e {
            Event::UserInserted { rows_affected } => if rows_affected > 0 {
                Phase::InsertingOrganization
            } else {
                Phase::RollingBack(RegistrationError::UserAlreadyExists)
            },
            _ => Phase::RollingBack(RegistrationError::Internal),
        },
        Phase::InsertingOrganization => match e {
            Event::Inserted => Phase::InsertingMembership,
            _ => Phase::RollingBack(RegistrationError::Internal),
        },
        Phase::InsertingMembership => match e {
            Event::Inserted => Phase::IssuingToken,
            _ => Phase::RollingBack(RegistrationError::Internal),
        },
        Phase::IssuingToken => match e {
            Event::TokenIssued { .. } => Phase::SendingMail,
            _ => Phase::RollingBack(RegistrationError::Internal),
        },
        Phase::SendingMail => match e {
            Event::MailAccepted => Phase::Committing,
            _ => Phase::RollingBack(RegistrationError::Internal),
        },
        Phase::Committing => match e {
            Event::Committed => Phase::Finished(Ok(done)),
            _ => Phase::Finished(Err(RegistrationError::Internal)),
        },
        Phase::RollingBack(err) => Phase::Finished(Err(err)),
        Phase::Finished(o) => Phase::Finished(o),
    }
}

/// The action that goes with entering phase `p` by event `e`.
pub open spec fn action_fits(a: Action, s: Registering, p: Phase, e: Event) -> bool {
    match p {
        Phase::Opening => a is Begin,
        Phase::InsertingUser => {
            &&& a matches Action::InsertUser {
                user_id,
                email,
                password_hash,
                first_name,
                last_name,
            }
            &&& user_id == s.user_id
            &&& email@ == s.email@
            &&& password_hash@ == s.password_hash@
            &&& first_name@ == s.first_name@
            &&& last_name@ == s.last_name@
        },
        Phase::InsertingOrganization => {
            &&& a matches Action::InsertOrganization { organization_id, name, created_by }
            &&& organization_id == s.organization_id
            &&& name@ == organization_name(s.first_name@, s.last_name@)
            &&& created_by == s.user_id
        },
        Phase::InsertingMembership => a == Action::InsertMembership {
            user_id: s.user_id,
            organization_id: s.organization_id,
            role: Role::Editor,
        },
        Phase::IssuingToken => a == Action::IssueToken { user_id: s.user_id },
        Phase::SendingMail => {
            &&& a matches Action::SendVerificationMail { display_name, recipient, url }
            &&& display_name@ == full_name(s.first_name@, s.last_name@)
            &&& recipient@ == s.email@
            &&& e matches Event::TokenIssued { serialized_token }
            &&& url@ == verification_url(s.app_url@, serialized_token@)
        },
        Phase::Committing => a is Commit,
        Phase::RollingBack(_) => a is Rollback,
        Phase::Finished(o) => a == Action::Done(o),
    }
}

/// A registration in progress: the candidate's data, the identifiers chosen
/// for it, and its phase.
pub struct Registering {
    pub phase: Phase,
    pub user_id: u128,
    pub organization_id: u128,
    pub first_name: String,
    pub last_name: String,
    pub email: String,
    pub password_hash: String,
    pub app_url: String,
}

/// Everything but the phase is the same in `a` and `b`.
pub open spec fn same_data(a: Registering, b: Registering) -> bool {
    &&& a.user_id == b.user_id
    &&& a.organization_id == b.organization_id
    &&& a.first_name == b.first_name
    &&& a.last_name == b.last_name
    &&& a.email == b.email
    &&& a.password_hash == b.password_hash
    &&& a.app_url == b.app_url
}

pub open spec fn outcome_of(s: Registering) -> Registration {
    Registration { organization_id: s.organization_id, user_id: s.user_id }
}

fn full_name_of(first: &String, last: &String) -> (r: String)
    ensures
        r@ == full_name(first@, last@),
{
    proof {
        reveal_strlit(" ");
    }
    first.clone().concat(" ").concat(last.as_str())
}

fn organization_name_of(first: &String, last: &String) -> (r: String)
    ensures
        r@ == organization_name(first@, last@),
{
    proof {
        reveal_strlit("'s personal organization");
    }
    full_name_of(first, last).concat("'s personal organization")
}

fn verification_url_of(app_url: &String, token: &String) -> (r: String)
    ensures
        r@ == verification_url(app_url@, token@),
{
    proof {
        reveal_strlit("/verify-email?token=");
    }
    app_url.clone().concat("/verify-email?token=").concat(token.as_str())
}

impl Registering {
    fn enter(&mut self, p: Phase)
        ensures
            final(self).phase == p,
            same_data(*old(self), *final(self)),
    {
        self.phase = p;
    }

    fn roll_back(&mut self, err: RegistrationError) -> (r: Action)
        ensures
            final(self).phase == Phase::RollingBack(err),
            same_data(*old(self), *final(self)),
            r is Rollback,
    {
        self.enter(Phase::RollingBack(err));
        Action::Rollback
    }

    fn finish(&mut self, o: Result<Registration, RegistrationError>) -> (r: Action)
        ensures
            final(self).phase == Phase::Finished(o),
            same_data(*old(self), *final(self)),
            r == Action::Done(o),
    {
        self.enter(Phase::Finished(o));
        Action::Done(o)
    }

    /// Takes the driver's report on the last action and says what to do next.
    /// A failure or an unexpected report while the transaction is open leads
    /// to a rollback; the commit is asked for only once the mail was accepted.
    pub fn advance(&mut self, event: Event) -> (r: Action)
        ensures
            final(self).phase == next_phase(old(self).phase, event, outcome_of(*old(self))),
            same_data(*old(self), *final(self)),
            action_fits(r, *old(self), final(self).phase, event),
    {
        let phase = self.phase;
        match phase {
            Phase::Opening => match event {
                Event::Began => {
                    self.enter(Phase::InsertingUser);
                    Action::InsertUser {
                        user_id: self.user_id,
                        email: self.email.clone(),
                        password_hash: self.password_hash.clone(),
                        first_name: self.first_name.clone(),
                        last_name: self.last_name.clone(),
                    }
                },
                _ => self.finish(Err(RegistrationError::Internal)),
            },
            Phase::InsertingUser => match event {
                Event::UserInserted { rows_affected } => {
                    if rows_affected > 0 {
                        self.enter(Phase::InsertingOrganization);
                        Action::InsertOrganization {
                            organization_id: self.organization_id,
                            name: organization_name_of(&self.first_name, &self.last_name),
                            created_by: self.user_id,
                        }
                    } else {
                        self.roll_back(RegistrationError::UserAlreadyExists)
                    }
                },
                _ => self.roll_back(RegistrationError::Internal),
            },
            Phase::InsertingOrganization => match event {
                Event::Inserted => {
                    self.enter(Phase::InsertingMembership);
                    Action::InsertMembership {
                        user_id: self.user_id,
                        organization_id: self.organization_id,
                        role: Role::Editor,
                    }
                },
                _ => self.roll_back(RegistrationError::Internal),
            },
            Phase::InsertingMembership => match event {
                Event::Inserted => {
                    self.enter(Phase::IssuingToken);
                    Action::IssueToken { user_id: self.user_id }
                },
                _ => self.roll_back(RegistrationError::Internal),
            },
            Phase::IssuingToken => match event {
                Event::TokenIssued { serialized_token } => {
                    self.enter(Phase::SendingMail);
                    Action::SendVerificationMail {
                        display_name: full_name_of(&self.first_name, &self.last_name),
                        recipient: self.email.clone(),
                        url: verification_url_of(&self.app_url, &serialized_token),
                    }
                },
                _ => self.roll_back(RegistrationError::Internal),
            },
            Phase::SendingMail => match event {
                Event::MailAccepted => {
                    self.enter(Phase::Committing);
                    Action::Commit
                },
                _ => self.roll_back(RegistrationError::Internal),
            },
            Phase::Committing => match event {
                Event::Committed => {
                    let done = Registration {
                        organization_id: self.organization_id,
                        user_id: self.user_id,
                    };
                    self.finish(Ok(done))
                },
                _ => self.finish(Err(RegistrationError::Internal)),
            },
            Phase::RollingBack(err) => self.finish(Err(err)),
            Phase::Finished(o) => self.finish(o),
        }
    }
}

/// Whether a registration may start, and with which password digest: the
/// operator switch, the address check, the password length (in bytes) and the
/// hashing, in that order.
pub open spec fn admission(
    settings: Settings,
    post: RegistrationPost,
    salt: Seq<char>,
) -> Result<Seq<char>, RegistrationError> {
    if settings.registration_disabled {
        Err(RegistrationError::Disabled)
    } else if !address_accepted(post.email@) {
        Err(RegistrationError::Internal)
    } else if encode_utf8(post.password@).len() < settings.password_minimum_length as int {
        Err(RegistrationError::PasswordTooShort(settings.password_minimum_length))
    } else {
        match argon2_phc(encode_utf8(post.password@), salt) {
            Some(h) => Ok(h),
            None => Err(RegistrationError::Internal),
        }
    }
}

/// `s` is a fresh registration of `post` under `settings`, with the given
/// identifiers and password digest, waiting for its transaction to open.
pub open spec fn started(
    s: Registering,
    settings: Settings,
    post: RegistrationPost,
    user_id: u128,
    organization_id: u128,
    digest: Seq<char>,
) -> bool {
    &&& s.phase == Phase::Opening
    &&& s.user_id == user_id
    &&& s.organization_id == organization_id
    &&& s.first_name@ == post.first_name@
    &&& s.last_name@ == post.last_name@
    &&& s.email@ == post.email@
    &&& s.password_hash@ == digest
    &&& s.app_url@ == settings.app_url@
}

/// Starts a registration with the given identifiers and salt. Either the
/// candidate is turned away before anything is written, or the result asks
/// the driver to open a transaction.
pub fn begin_registration(
    settings: &Settings,
    post: RegistrationPost,
    user_id: u128,
    organization_id: u128,
    salt: &str,
) -> (r: Result<(Registering, Action), RegistrationError>)
    ensures
        match admission(*settings, post, salt@) {
            Err(e) => r == Err::<(Registering, Action), RegistrationError>(e),
            Ok(digest) => r matches Ok((s, a)) && a is Begin && started(
                s,
                *settings,
                post,
                user_id,
                organization_id,
                digest,
            ),
        },
{
    if settings.registration_disabled {
        return Err(RegistrationError::Disabled);
    }
    match parse_address(post.email.as_str()) {
        Ok(_) => {},
        Err(_) => return Err(RegistrationError::Internal),
    }
    if post.password.as_str().as_bytes().len() < settings.password_minimum_length as usize {
        return Err(RegistrationError::PasswordTooShort(settings.password_minimum_length));
    }
    let password_hash = match hash_password(post.password.as_str(), salt) {
        Ok(h) => h,
        Err(_) => return Err(RegistrationError::Internal),
    };
    let s = Registering {
        phase: Phase::Opening,
        user_id,
        organization_id,
        first_name: post.first_name,
        last_name: post.last_name,
        email: post.email,
        password_hash,
        app_url: settings.app_url.clone(),
    };
    Ok((s, Action::Begin))
}

/// Starts a registration with fresh random version-4 identifiers and a fresh
/// salt. The outcome is that of `begin_registration` for some salt; since every
/// fresh salt is one Argon2 takes, the registration starts whenever the
/// operator switch, the address and the password length allow it.
pub fn register(settings: &Settings, post: RegistrationPost) -> (r: Result<
    (Registering, Action),
    RegistrationError,
>)
    ensures
        exists|salt: Seq<char>|
            match #[trigger] admission(*settings, post, salt) {
                Err(e) => r == Err::<(Registering, Action), RegistrationError>(e),
                Ok(digest) => r matches Ok((s, a)) && a is Begin && started(
                    s,
                    *settings,
                    post,
                    s.user_id,
                    s.organization_id,
                    digest,
                ),
            },
        !settings.registration_disabled && address_accepted(post.email@) && encode_utf8(
            post.password@,
        ).len() >= settings.password_minimum_length && encode_utf8(post.password@).len()
            <= 0xFFFF_FFFF ==> (r is Ok),
        (r is Ok ==> is_v4_id(r->Ok_0.0.user_id) && is_v4_id(r->Ok_0.0.organization_id)),
{
    let user_id = new_v4_id();
    let organization_id = new_v4_id();
    let salt = generate_salt();
    let r = begin_registration(settings, post, user_id, organization_id, salt.as_str());
    assert(match admission(*settings, post, salt@) {
        Err(e) => r == Err::<(Registering, Action), RegistrationError>(e),
        Ok(digest) => r matches Ok((s, a)) && a is Begin && started(
            s,
            *settings,
            post,
            s.user_id,
            s.organization_id,
            digest,
        ),
    });
    r
}

} // verus!
