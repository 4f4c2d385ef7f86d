use vstd::prelude::*;
use vstd::utf8::encode_utf8;
use crate::collaborators::address_accepted;
use crate::types::{Registration, RegistrationError, RegistrationPost, Settings};
use crate::store::{added_triple, has_email, ran, MemoryStore};
use crate::workflow::{action_fits, admission, next_phase, Action, Event, Phase, Registering};

verus! {

/// The phase reached from `p` after the driver reported each of `events`.
pub open spec fn run(p: Phase, events: Seq<Event>, done: Registration) -> Phase
    decreases events.len(),
{
    if events.len() == 0 {
        p
    } else {
        next_phase(run(p, events.drop_last(), done), events.last(), done)
    }
}

/// Phases in which the user row is part of the open transaction's write-set.
pub open spec fn user_in_write_set(p: Phase) -> bool {
    ||| p is InsertingOrganization
    ||| p is InsertingMembership
    ||| p is IssuingToken
    ||| p is SendingMail
    ||| p is Committing
}

/// The driver reports that the conditional user insert added a row.
pub open spec fn inserted_new_row(e: Event) -> bool {
    e matches Event::UserInserted { rows_affected } && rows_affected > 0
}

/// The driver reports that the conditional user insert added no row.
pub open spec fn email_taken(e: Event) -> bool {
    e matches Event::UserInserted { rows_affected } && rows_affected == 0
}

/// A rollback, once asked for, ends the registration with its error whatever
/// the driver reports: nothing is inserted, issued, mailed or committed after it.
pub proof fn rollback_is_final(err: RegistrationError, events: Seq<Event>, done: Registration)
    ensures
        events.len() == 0 ==> run(Phase::RollingBack(err), events, done) == Phase::RollingBack(err),
        events.len() > 0 ==> run(Phase::RollingBack(err), events, done) == Phase::Finished(
            Err::<Registration, RegistrationError>(err),
        ),
    decreases events.len(),
{
    if events.len() > 0 {
        rollback_is_final(err, events.drop_last(), done);
    }
}

/// The commit is asked for exactly when the mailer accepted the verification
/// mail.
pub proof fn commit_only_after_mail_accepted(p: Phase, e: Event, done: Registration)
    ensures
        next_phase(p, e, done) is Committing <==> (p is SendingMail && e is MailAccepted),
{
}

/// A registration succeeds only on the store's report that the commit went
/// through.
pub proof fn success_only_after_commit(p: Phase, e: Event, done: Registration)
    requires
        p !is Finished,
        next_phase(p, e, done) is Finished,
        next_phase(p, e, done)->Finished_0 is Ok,
    ensures
        p is Committing,
        e is Committed,
        next_phase(p, e, done) == Phase::Finished(Ok::<Registration, RegistrationError>(done)),
{
}

/// When the mail step fails, the transaction is rolled back and the
/// registration ends as an internal failure, whatever is reported after.
pub proof fn mail_failure_aborts(e: Event, events: Seq<Event>, done: Registration)
    requires
        e !is MailAccepted,
    ensures
        next_phase(Phase::SendingMail, e, done) == Phase::RollingBack(RegistrationError::Internal),
        events.len() > 0 ==> run(next_phase(Phase::SendingMail, e, done), events, done)
            == Phase::Finished(Err::<Registration, RegistrationError>(RegistrationError::Internal)),
{
    rollback_is_final(RegistrationError::Internal, events, done);
}

/// When the conditional insert touched no row (the email is taken), the
/// transaction is rolled back and the registration ends as
/// `UserAlreadyExists`, whatever is reported after.
pub proof fn taken_email_rolls_back(e: Event, events: Seq<Event>, done: Registration)
    requires
        email_taken(e),
    ensures
        next_phase(Phase::InsertingUser, e, done) == Phase::RollingBack(
            RegistrationError::UserAlreadyExists,
        ),
        events.len() > 0 ==> run(next_phase(Phase::InsertingUser, e, done), events, done)
            == Phase::Finished(
            Err::<Registration, RegistrationError>(RegistrationError::UserAlreadyExists),
        ),
{
    rollback_is_final(RegistrationError::UserAlreadyExists, events, done);
}

/// The user row enters the write-set only through a conditional insert that
/// touched a row.
pub proof fn write_set_step(p: Phase, e: Event, done: Registration)
    requires
        user_in_write_set(next_phase(p, e, done)),
    ensures
        user_in_write_set(p) || (p is InsertingUser && inserted_new_row(e)),
{
}

/// From the start, a token is asked for only after the conditional user
/// insert reported a new row in the same transaction.
pub proof fn token_only_for_inserted_user(events: Seq<Event>, done: Registration)
    requires
        user_in_write_set(run(Phase::Opening, events, done)),
    ensures
        exists|i: int|
            0 <= i < events.len() && (run(Phase::Opening, events.take(i), done) is InsertingUser)
                && inserted_new_row(#[trigger] events[i]),
    decreases events.len(),
{
    let n = events.len() - 1;
    let before = run(Phase::Opening, events.drop_last(), done);
    write_set_step(before, events.last(), done);
    if user_in_write_set(before) {
        token_only_for_inserted_user(events.drop_last(), done);
        let i = choose|i: int|
            0 <= i < events.drop_last().len() && run(
                Phase::Opening,
                events.drop_last().take(i),
                done,
            ) is InsertingUser && inserted_new_row(#[trigger] events.drop_last()[i]);
        assert(events.drop_last().take(i) =~= events.take(i));
        assert(events.drop_last()[i] == events[i]);
    } else {
        assert(events.take(n) =~= events.drop_last());
        assert(events[n] == events.last());
    }
}

/// The token is asked for the very user whose insert was asked for.
pub proof fn token_names_inserted_user(
    s: Registering,
    insert: Action,
    issue: Action,
    e1: Event,
    e2: Event,
)
    requires
        action_fits(insert, s, Phase::InsertingUser, e1),
        action_fits(issue, s, Phase::IssuingToken, e2),
    ensures
        insert is InsertUser,
        issue is IssueToken,
        insert->InsertUser_user_id == issue->IssueToken_user_id,
{
}

/// A password whose length in bytes equals the configured minimum passes the
/// length check; one byte shorter is refused with the minimum as payload.
pub proof fn password_threshold(settings: Settings, post: RegistrationPost, salt: Seq<char>)
    requires
        !settings.registration_disabled,
        address_accepted(post.email@),
    ensures
        encode_utf8(post.password@).len() == settings.password_minimum_length ==> admission(
            settings,
            post,
            salt,
        ) != Err::<Seq<char>, RegistrationError>(
            RegistrationError::PasswordTooShort(settings.password_minimum_length),
        ),
        encode_utf8(post.password@).len() + 1 == settings.password_minimum_length ==> admission(
            settings,
            post,
            salt,
        ) == Err::<Seq<char>, RegistrationError>(
            RegistrationError::PasswordTooShort(settings.password_minimum_length),
        ),
{
}

/// With registration switched off, nothing else is looked at.
pub proof fn disabled_refuses_everything(
    settings: Settings,
    post: RegistrationPost,
    salt: Seq<char>,
)
    requires
        settings.registration_disabled,
    ensures
        admission(settings, post, salt) == Err::<Seq<char>, RegistrationError>(
            RegistrationError::Disabled,
        ),
{
}

/// Two registrations with the same email, one after the other on one store:
/// they never both succeed; once the first succeeded the second is refused as
/// `UserAlreadyExists` and leaves the rows alone, so exactly one new
/// user/organization/membership triple exists; a new email whose mail is
/// accepted succeeds the first time.
pub proof fn same_email_registers_once(
    s0: MemoryStore,
    s1: MemoryStore,
    s2: MemoryStore,
    a: Registering,
    b: Registering,
    mail_a: bool,
    mail_b: bool,
    ra: Result<Registration, RegistrationError>,
    rb: Result<Registration, RegistrationError>,
)
    requires
        ran(s0, a, mail_a, ra, s1),
        ran(s1, b, mail_b, rb, s2),
        a.email@ == b.email@,
    ensures
        !(ra is Ok && rb is Ok),
        ra is Ok ==> rb == Err::<Registration, RegistrationError>(
            RegistrationError::UserAlreadyExists,
        ) && s2.same_rows(s1) && added_triple(s0, s2, a),
        !has_email(s0.users@, a.email@) && mail_a ==> ra is Ok,
        has_email(s0.users@, a.email@) ==> ra == Err::<Registration, RegistrationError>(
            RegistrationError::UserAlreadyExists,
        ) && rb == Err::<Registration, RegistrationError>(RegistrationError::UserAlreadyExists)
            && s2.same_rows(s0),
{
    if ra is Ok {
        let last = s1.users@.len() - 1;
        assert(s1.users@[last] == s1.users@.last());
        assert(has_email(s1.users@, b.email@));
    }
    if has_email(s0.users@, a.email@) {
        assert(has_email(s1.users@, b.email@));
    }
}

/// When the mailer refuses the verification mail, the registration fails (as
/// an internal failure where the email was new) and no user, organization or
/// membership row of it is left in the store.
pub proof fn refused_mail_leaves_no_rows(
    before: MemoryStore,
    after: MemoryStore,
    reg: Registering,
    r: Result<Registration, RegistrationError>,
)
    requires
        ran(before, reg, false, r, after),
    ensures
        r is Err,
        !has_email(before.users@, reg.email@) ==> r == Err::<Registration, RegistrationError>(
            RegistrationError::Internal,
        ),
        after.users@ == before.users@,
        after.organizations@ == before.organizations@,
        after.memberships@ == before.memberships@,
{
}

} // verus!
