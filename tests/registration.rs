use argon2::password_hash::{PasswordHash, PasswordVerifier};
use argon2::Argon2;
use registrations::store::{run_in_memory, MemoryStore};
use registrations::{
    begin_registration, register, Action, Event, Phase, Registering, RegistrationError,
    RegistrationPost, Role, Settings,
};

const SALT: &str = "c2FsdHNhbHRzYWx0c2FsdA";

fn settings(min: u8) -> Settings {
    Settings {
        registration_disabled: false,
        password_minimum_length: min,
        app_url: "https://app.example.com".to_string(),
    }
}

fn ada(password: &str) -> RegistrationPost {
    RegistrationPost {
        first_name: "Ada".to_string(),
        last_name: "Lovelace".to_string(),
        email: "ada@example.com".to_string(),
        password: password.to_string(),
    }
}

fn started(post: RegistrationPost) -> Registering {
    match register(&settings(10), post) {
        Ok((reg, Action::Begin)) => reg,
        _ => panic!("registration did not start"),
    }
}

#[test]
fn ada_lovelace_registers() {
    let mut reg = started(ada("averylongpassword"));
    let mut store = MemoryStore::new();
    let user_id = reg.user_id;
    let organization_id = reg.organization_id;

    assert!(matches!(store.begin(), Event::Began));
    match reg.advance(Event::Began) {
        Action::InsertUser { user_id: id, email, password_hash, first_name, last_name } => {
            assert_eq!(id, user_id);
            assert_eq!(email, "ada@example.com");
            assert_ne!(password_hash, "averylongpassword");
            assert_eq!(first_name, "Ada");
            assert_eq!(last_name, "Lovelace");
        }
        _ => panic!("expected the user insert"),
    }
    match reg.advance(Event::UserInserted { rows_affected: 1 }) {
        Action::InsertOrganization { organization_id: id, name, created_by } => {
            assert_eq!(id, organization_id);
            assert_eq!(name, "Ada Lovelace's personal organization");
            assert_eq!(created_by, user_id);
        }
        _ => panic!("expected the organization insert"),
    }
    match reg.advance(Event::Inserted) {
        Action::InsertMembership { user_id: u, organization_id: o, role } => {
            assert_eq!(u, user_id);
            assert_eq!(o, organization_id);
            assert_eq!(role, Role::Editor);
            assert_eq!(role.as_str(), "editor");
        }
        _ => panic!("expected the membership insert"),
    }
    match reg.advance(Event::Inserted) {
        Action::IssueToken { user_id: u } => assert_eq!(u, user_id),
        _ => panic!("expected a token request"),
    }
    match reg.advance(Event::TokenIssued { serialized_token: "tok123".to_string() }) {
        Action::SendVerificationMail { display_name, recipient, url } => {
            assert_eq!(display_name, "Ada Lovelace");
            assert_eq!(recipient, "ada@example.com");
            assert_eq!(url, "https://app.example.com/verify-email?token=tok123");
        }
        _ => panic!("expected the verification mail"),
    }
    assert!(matches!(reg.advance(Event::MailAccepted), Action::Commit));
    match reg.advance(Event::Committed) {
        Action::Done(Ok(done)) => {
            assert_eq!(done.user_id, user_id);
            assert_eq!(done.organization_id, organization_id);
        }
        _ => panic!("expected success"),
    }
    assert!(matches!(reg.phase, Phase::Finished(Ok(_))));
}

#[test]
fn ada_lovelace_in_memory_store() {
    let reg = started(ada("averylongpassword"));
    let (user_id, organization_id) = (reg.user_id, reg.organization_id);
    let mut store = MemoryStore::new();
    let r = run_in_memory(&mut store, reg, Action::Begin, &"tok".to_string(), true);
    let done = r.unwrap();
    assert_eq!(done.user_id, user_id);
    assert_eq!(done.organization_id, organization_id);
    assert_ne!(user_id, organization_id);
    assert_eq!(store.users.len(), 1);
    assert_eq!(store.organizations.len(), 1);
    assert_eq!(store.memberships.len(), 1);
    assert_eq!(store.organizations[0].name, "Ada Lovelace's personal organization");
    assert_eq!(store.organizations[0].created_by, user_id);
    assert_eq!(store.memberships[0].role, Role::Editor);
    assert_eq!(store.users[0].email, "ada@example.com");
}

#[test]
fn same_email_twice_is_refused() {
    let mut store = MemoryStore::new();
    let token = "tok".to_string();
    let first = run_in_memory(&mut store, started(ada("averylongpassword")), Action::Begin, &token, true);
    assert!(first.is_ok());
    let second =
        run_in_memory(&mut store, started(ada("anotherlongpassword")), Action::Begin, &token, true);
    assert_eq!(second, Err(RegistrationError::UserAlreadyExists));
    assert_eq!(store.users.len(), 1);
    assert_eq!(store.organizations.len(), 1);
    assert_eq!(store.memberships.len(), 1);
}

#[test]
fn disabled_registration_is_refused() {
    let mut s = settings(10);
    s.registration_disabled = true;
    let r = register(&s, ada("averylongpassword"));
    assert!(matches!(r, Err(RegistrationError::Disabled)));
}

#[test]
fn password_at_minimum_passes() {
    let r = begin_registration(&settings(10), ada("0123456789"), 1, 2, SALT);
    assert!(matches!(r, Ok((_, Action::Begin))));
}

#[test]
fn password_below_minimum_is_refused() {
    let r = begin_registration(&settings(10), ada("012345678"), 1, 2, SALT);
    assert!(matches!(r, Err(RegistrationError::PasswordTooShort(10))));
}

#[test]
fn password_length_counts_bytes() {
    // five two-byte characters make ten bytes
    let r = begin_registration(&settings(10), ada("ééééé"), 1, 2, SALT);
    assert!(matches!(r, Ok((_, Action::Begin))));
}

#[test]
fn malformed_address_is_internal() {
    let mut post = ada("averylongpassword");
    post.email = "not an address".to_string();
    let r = begin_registration(&settings(10), post, 1, 2, SALT);
    assert!(matches!(r, Err(RegistrationError::Internal)));
}

#[test]
fn bad_salt_is_internal() {
    let r = begin_registration(&settings(10), ada("averylongpassword"), 1, 2, "!");
    assert!(matches!(r, Err(RegistrationError::Internal)));
}

#[test]
fn digest_verifies_only_its_password() {
    let reg = started(ada("averylongpassword"));
    assert_ne!(reg.password_hash, "averylongpassword");
    assert!(reg.password_hash.starts_with("$argon2id$"));
    let parsed = PasswordHash::new(&reg.password_hash).unwrap();
    assert!(Argon2::default().verify_password(b"averylongpassword", &parsed).is_ok());
    assert!(Argon2::default().verify_password(b"averylongpasswore", &parsed).is_err());
}

#[test]
fn same_salt_same_digest() {
    let a = begin_registration(&settings(10), ada("averylongpassword"), 1, 2, SALT);
    let b = begin_registration(&settings(10), ada("averylongpassword"), 3, 4, SALT);
    match (a, b) {
        (Ok((ra, _)), Ok((rb, _))) => {
            assert_eq!(ra.password_hash, rb.password_hash);
            assert_eq!(ra.user_id, 1);
            assert_eq!(ra.organization_id, 2);
        }
        _ => panic!("both should start"),
    }
}

#[test]
fn identifiers_are_version_four() {
    let reg = started(ada("averylongpassword"));
    assert_eq!((reg.user_id >> 76) & 0xf, 4);
    assert_eq!((reg.organization_id >> 62) & 0x3, 2);
}

#[test]
fn refused_mail_leaves_store_empty() {
    let mut store = MemoryStore::new();
    let r = run_in_memory(&mut store, started(ada("averylongpassword")), Action::Begin, &"t".to_string(), false);
    assert_eq!(r, Err(RegistrationError::Internal));
    assert_eq!(store.users.len(), 0);
    assert_eq!(store.organizations.len(), 0);
    assert_eq!(store.memberships.len(), 0);
    assert!(!store.open);
}

#[test]
fn taken_email_rolls_back() {
    let mut reg = started(ada("averylongpassword"));
    reg.advance(Event::Began);
    assert!(matches!(reg.advance(Event::UserInserted { rows_affected: 0 }), Action::Rollback));
    assert!(matches!(
        reg.advance(Event::RolledBack),
        Action::Done(Err(RegistrationError::UserAlreadyExists))
    ));
}

#[test]
fn failures_roll_back_as_internal() {
    let mut reg = started(ada("averylongpassword"));
    reg.advance(Event::Began);
    reg.advance(Event::UserInserted { rows_affected: 1 });
    reg.advance(Event::Inserted);
    reg.advance(Event::Inserted);
    assert!(matches!(reg.advance(Event::Failed), Action::Rollback));
    assert!(matches!(reg.advance(Event::RolledBack), Action::Done(Err(RegistrationError::Internal))));
}

#[test]
fn failed_begin_ends_without_rollback() {
    let mut reg = started(ada("averylongpassword"));
    assert!(matches!(reg.advance(Event::Failed), Action::Done(Err(RegistrationError::Internal))));
}

#[test]
fn failed_commit_is_internal() {
    let mut reg = started(ada("averylongpassword"));
    reg.advance(Event::Began);
    reg.advance(Event::UserInserted { rows_affected: 1 });
    reg.advance(Event::Inserted);
    reg.advance(Event::Inserted);
    reg.advance(Event::TokenIssued { serialized_token: "t".to_string() });
    reg.advance(Event::MailAccepted);
    assert!(matches!(reg.advance(Event::Failed), Action::Done(Err(RegistrationError::Internal))));
}
