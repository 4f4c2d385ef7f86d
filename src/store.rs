use vstd::prelude::*;
use crate::types::{Registration, RegistrationError, Role};
use crate::workflow::{
    action_fits, organization_name, outcome_of, same_data, Action, Event, Phase, Registering,
};

verus! {

pub struct StoredUser {
    pub user_id: u128,
    pub email: String,
    pub password_hash: String,
    pub first_name: String,
    pub last_name: String,
}

pub struct StoredOrganization {
    pub organization_id: u128,
    pub name: String,
    pub created_by: u128,
}

pub struct StoredMembership {
    pub user_id: u128,
    pub organization_id: u128,
    pub role: Role,
}

/// A transactional store held in memory: committed rows, and the write-set of
/// the open transaction, if any.
pub struct MemoryStore {
    pub users: Vec<StoredUser>,
    pub organizations: Vec<StoredOrganization>,
    pub memberships: Vec<StoredMembership>,
    pub open: bool,
    pub new_users: Vec<StoredUser>,
    pub new_organizations: Vec<StoredOrganization>,
    pub new_memberships: Vec<StoredMembership>,
}

/// Some row of `users` has this email.
pub open spec fn has_email(users: Seq<StoredUser>, email: Seq<char>) -> bool {
    exists|i: int| 0 <= i < users.len() && (#[trigger] users[i]).email@ == email
}

impl MemoryStore {
    /// No transaction is open.
    pub open spec fn idle(&self) -> bool {
        &&& !self.open
        &&& self.new_users@.len() == 0
        &&& self.new_organizations@.len() == 0
        &&& self.new_memberships@.len() == 0
    }

    /// The committed rows of `self` and `other` are the same.
    pub open spec fn same_rows(&self, other: MemoryStore) -> bool {
        &&& self.users@ == other.users@
        &&& self.organizations@ == other.organizations@
        &&& self.memberships@ == other.memberships@
    }

    pub fn new() -> (r: MemoryStore)
        ensures
            r.idle(),
            r.users@.len() == 0,
            r.organizations@.len() == 0,
            r.memberships@.len() == 0,
    {
        MemoryStore {
            users: Vec::new(),
            organizations: Vec::new(),
            memberships: Vec::new(),
            open: false,
            new_users: Vec::new(),
            new_organizations: Vec::new(),
            new_memberships: Vec::new(),
        }
    }

    fn email_in(users: &Vec<StoredUser>, email: &String) -> (r: bool)
        ensures
            r == has_email(users@, email@),
    {
        let mut i: usize = 0;
        while i < users.len()
            invariant
                i <= users@.len(),
                forall|j: int| 0 <= j < i ==> (#[trigger] users@[j]).email@ != email@,
            decreases users@.len() - i,
        {
            if users[i].email == *email {
                return true;
            }
            i = i + 1;
        }
        false
    }

    /// Whether a committed user or one in the open write-set has this email.
    pub fn contains_email(&self, email: &String) -> (r: bool)
        ensures
            r == (has_email(self.users@, email@) || has_email(self.new_users@, email@)),
    {
        Self::email_in(&self.users, email) || Self::email_in(&self.new_users, email)
    }
    /// Opens a transaction; fails where one is already open.
    pub fn begin(&mut self) -> (r: Event)
        ensures
            final(self).same_rows(*old(self)),
            old(self).open ==> r is Failed && *final(self) == *old(self),
            !old(self).open ==> r is Began && final(self).open && final(self).new_users@.len() == 0
                && final(self).new_organizations@.len() == 0
                && final(self).new_memberships@.len() == 0,
    {
        if self.open {
            return Event::Failed;
        }
        self.open = true;
        self.new_users = Vec::new();
        self.new_organizations = Vec::new();
        self.new_memberships = Vec::new();
        Event::Began
    }

    /// Adds the user to the write-set unless a user with that email exists,
    /// and reports how many rows that touched.
    pub fn insert_user(&mut self, user: StoredUser) -> (r: Event)
        ensures
            final(self).same_rows(*old(self)),
            final(self).open == old(self).open,
            final(self).new_organizations@ == old(self).new_organizations@,
            final(self).new_memberships@ == old(self).new_memberships@,
            !old(self).open ==> r is Failed && final(self).new_users@ == old(self).new_users@,
            old(self).open && (has_email(old(self).users@, user.email@) || has_email(
                old(self).new_users@,
                user.email@,
            )) ==> r == (Event::UserInserted { rows_affected: 0 }) && final(self).new_users@
                == old(self).new_users@,
            old(self).open && !has_email(old(self).users@, user.email@) && !has_email(
                old(self).new_users@,
                user.email@,
            ) ==> r == (Event::UserInserted { rows_affected: 1 }) && final(self).new_users@
                == old(self).new_users@.push(user),
    {
        if !self.open {
            return Event::Failed;
        }
        if self.contains_email(&user.email) {
            return Event::UserInserted { rows_affected: 0 };
        }
        self.new_users.push(user);
        Event::UserInserted { rows_affected: 1 }
    }

    pub fn insert_organization(&mut self, organization: StoredOrganization) -> (r: Event)
        ensures
            final(self).same_rows(*old(self)),
            final(self).open == old(self).open,
            final(self).new_users@ == old(self).new_users@,
            final(self).new_memberships@ == old(self).new_memberships@,
            !old(self).open ==> r is Failed && final(self).new_organizations@
                == old(self).new_organizations@,
            old(self).open ==> r is Inserted && final(self).new_organizations@
                == old(self).new_organizations@.push(organization),
    {
        if !self.open {
            return Event::Failed;
        }
        self.new_organizations.push(organization);
        Event::Inserted
    }

    pub fn insert_membership(&mut self, membership: StoredMembership) -> (r: Event)
        ensures
            final(self).same_rows(*old(self)),
            final(self).open == old(self).open,
            final(self).new_users@ == old(self).new_users@,
            final(self).new_organizations@ == old(self).new_organizations@,
            !old(self).open ==> r is Failed && final(self).new_memberships@
                == old(self).new_memberships@,
            old(self).open ==> r is Inserted && final(self).new_memberships@
                == old(self).new_memberships@.push(membership),
    {
        if !self.open {
            return Event::Failed;
        }
        self.new_memberships.push(membership);
        Event::Inserted
    }

    /// Makes the write-set part of the committed rows.
    pub fn commit(&mut self) -> (r: Event)
        ensures
            !old(self).open ==> r is Failed && *final(self) == *old(self),
            old(self).open ==> r is Committed && final(self).idle() && final(self).users@
                == old(self).users@ + old(self).new_users@ && final(self).organizations@
                == old(self).organizations@ + old(self).new_organizations@
                && final(self).memberships@ == old(self).memberships@
                + old(self).new_memberships@,
    {
        if !self.open {
            return Event::Failed;
        }
        self.users.append(&mut self.new_users);
        self.organizations.append(&mut self.new_organizations);
        self.memberships.append(&mut self.new_memberships);
        self.open = false;
        Event::Committed
    }

    /// Drops the write-set.
    pub fn rollback(&mut self) -> (r: Event)
        ensures
            final(self).same_rows(*old(self)),
            final(self).idle(),
            r is RolledBack,
    {
        self.new_users = Vec::new();
        self.new_organizations = Vec::new();
        self.new_memberships = Vec::new();
        self.open = false;
        Event::RolledBack
    }
}

pub open spec fn user_row_of(u: StoredUser, reg: Registering) -> bool {
    &&& u.user_id == reg.user_id
    &&& u.email@ == reg.email@
    &&& u.password_hash@ == reg.password_hash@
    &&& u.first_name@ == reg.first_name@
    &&& u.last_name@ == reg.last_name@
}

pub open spec fn organization_row_of(o: StoredOrganization, reg: Registering) -> bool {
    &&& o.organization_id == reg.organization_id
    &&& o.name@ == organization_name(reg.first_name@, reg.last_name@)
    &&& o.created_by == reg.user_id
}

pub open spec fn membership_row_of(m: StoredMembership, reg: Registering) -> bool {
    &&& m.user_id == reg.user_id
    &&& m.organization_id == reg.organization_id
    &&& m.role == Role::Editor
}

/// `after` holds the rows of `before` and, after them, exactly one user, one
/// organization and one membership row for `reg`.
pub open spec fn added_triple(before: MemoryStore, after: MemoryStore, reg: Registering) -> bool {
    &&& after.users@.len() == before.users@.len() + 1
    &&& after.users@.drop_last() == before.users@
    &&& user_row_of(after.users@.last(), reg)
    &&& after.organizations@.len() == before.organizations@.len() + 1
    &&& after.organizations@.drop_last() == before.organizations@
    &&& organization_row_of(after.organizations@.last(), reg)
    &&& after.memberships@.len() == before.memberships@.len() + 1
    &&& after.memberships@.drop_last() == before.memberships@
    &&& membership_row_of(after.memberships@.last(), reg)
}

/// What running `reg` to its end against a store in state `before` did,
/// where the mailer accepts the verification mail exactly when `mail_accepted`.
pub open spec fn ran(
    before: MemoryStore,
    reg: Registering,
    mail_accepted: bool,
    r: Result<Registration, RegistrationError>,
    after: MemoryStore,
) -> bool {
    &&& after.idle()
    &&& r is Ok ==> r == Ok::<Registration, RegistrationError>(outcome_of(reg)) && added_triple(
        before,
        after,
        reg,
    )
    &&& r is Err ==> after.same_rows(before)
    &&& has_email(before.users@, reg.email@) ==> r == Err::<Registration, RegistrationError>(
        RegistrationError::UserAlreadyExists,
    )
    &&& !has_email(before.users@, reg.email@) && mail_accepted ==> r is Ok
    &&& !mail_accepted ==> r is Err
    &&& !has_email(before.users@, reg.email@) && !mail_accepted ==> r
        == Err::<Registration, RegistrationError>(RegistrationError::Internal)
}

/// How far a phase is from the end of a registration.
pub open spec fn phase_rank(p: Phase) -> nat {
    match p {
        Phase::Opening => 8,
        Phase::InsertingUser => 7,
        Phase::InsertingOrganization => 6,
        Phase::InsertingMembership => 5,
        Phase::IssuingToken => 4,
        Phase::SendingMail => 3,
        Phase::Committing => 2,
        Phase::RollingBack(_) => 1,
        Phase::Finished(_) => 0,
    }
}

/// The store's state while `reg` runs from a store that was `start`.
pub open spec fn store_fits(st: MemoryStore, start: MemoryStore, reg: Registering) -> bool {
    match reg.phase {
        Phase::Opening => st.idle() && st.same_rows(start),
        Phase::InsertingUser => {
            &&& st.open && st.same_rows(start)
            &&& st.new_users@.len() == 0
            &&& st.new_organizations@.len() == 0
            &&& st.new_memberships@.len() == 0
        },
        Phase::InsertingOrganization => {
            &&& st.open && st.same_rows(start)
            &&& st.new_users@.len() == 1 && user_row_of(st.new_users@[0], reg)
            &&& st.new_organizations@.len() == 0
            &&& st.new_memberships@.len() == 0
        },
        Phase::InsertingMembership => {
            &&& st.open && st.same_rows(start)
            &&& st.new_users@.len() == 1 && user_row_of(st.new_users@[0], reg)
            &&& st.new_organizations@.len() == 1 && organization_row_of(
                st.new_organizations@[0],
                reg,
            )
            &&& st.new_memberships@.len() == 0
        },
        Phase::RollingBack(_) => st.open && st.same_rows(start),
        Phase::Finished(o) => {
            &&& st.idle()
            &&& o is Ok ==> o == Ok::<Registration, RegistrationError>(outcome_of(reg))
                && added_triple(start, st, reg)
            &&& o is Err ==> st.same_rows(start)
        },
        _ => {
            &&& st.open && st.same_rows(start)
            &&& st.new_users@.len() == 1 && user_row_of(st.new_users@[0], reg)
            &&& st.new_organizations@.len() == 1 && organization_row_of(
                st.new_organizations@[0],
                reg,
            )
            &&& st.new_memberships@.len() == 1 && membership_row_of(st.new_memberships@[0], reg)
        },
    }
}

/// Which outcomes are still possible for `reg` against a store that was `start`.
pub open spec fn outcome_fits(start: MemoryStore, reg: Registering, mail_accepted: bool) -> bool {
    &&& has_email(start.users@, reg.email@) ==> {
        ||| reg.phase is Opening
        ||| reg.phase is InsertingUser
        ||| reg.phase == Phase::RollingBack(RegistrationError::UserAlreadyExists)
        ||| reg.phase == Phase::Finished(
            Err::<Registration, RegistrationError>(RegistrationError::UserAlreadyExists),
        )
    }
    &&& !has_email(start.users@, reg.email@) && mail_accepted ==> {
        &&& reg.phase !is RollingBack
        &&& reg.phase is Finished ==> reg.phase->Finished_0 is Ok
    }
    &&& !mail_accepted ==> {
        &&& reg.phase !is Committing
        &&& reg.phase is Finished ==> reg.phase->Finished_0 is Err
    }
    &&& !has_email(start.users@, reg.email@) && !mail_accepted ==> {
        &&& reg.phase is RollingBack ==> reg.phase == Phase::RollingBack(
            RegistrationError::Internal,
        )
        &&& reg.phase is Finished ==> reg.phase == Phase::Finished(
            Err::<Registration, RegistrationError>(RegistrationError::Internal),
        )
    }
}

/// Runs a registration that `begin_registration` started to its end against
/// `store`, with `token` as what the token issuer returns and a mailer that
/// accepts the verification mail exactly when `mail_accepted`.
pub fn run_in_memory(
    store: &mut MemoryStore,
    reg: Registering,
    first: Action,
    token: &String,
    mail_accepted: bool,
) -> (r: Result<Registration, RegistrationError>)
    requires
        old(store).idle(),
        reg.phase == Phase::Opening,
        first is Begin,
    ensures
        ran(*old(store), reg, mail_accepted, r, *final(store)),
{
    let ghost start = *store;
        let ghost last = Event::Began;
    let mut cur = reg;
    let mut action = first;
    loop
        invariant
            same_data(cur, reg),
            action_fits(action, cur, cur.phase, last),
            store_fits(*store, start, cur),
            outcome_fits(start, cur, mail_accepted),
            start == *old(store),
            start.idle(),
        decreases phase_rank(cur.phase),
    {
        let event = match action {
            Action::Begin => store.begin(),
            Action::InsertUser { user_id, email, password_hash, first_name, last_name } => {
                store.insert_user(
                    StoredUser { user_id, email, password_hash, first_name, last_name },
                )
            },
            Action::InsertOrganization { organization_id, name, created_by } => {
                store.insert_organization(
                    StoredOrganization { organization_id, name, created_by },
                )
            },
            Action::InsertMembership { user_id, organization_id, role } => {
                store.insert_membership(StoredMembership { user_id, organization_id, role })
            },
            Action::IssueToken { .. } => Event::TokenIssued { serialized_token: token.clone() },
            Action::SendVerificationMail { .. } => {
                if mail_accepted {
                    Event::MailAccepted
                } else {
                    Event::Failed
                }
            },
            Action::Commit => {
                let ghost pre = *store;
                let e = store.commit();
                proof {
                    assert(store.users@.drop_last() =~= pre.users@);
                    assert(store.organizations@.drop_last() =~= pre.organizations@);
                    assert(store.memberships@.drop_last() =~= pre.memberships@);
                }
                e
            },
            Action::Rollback => store.rollback(),
            Action::Done(o) => {
                return o;
            },
        };
        proof {
            last = event;
        }
        action = cur.advance(event);
    }
}

} // verus!
