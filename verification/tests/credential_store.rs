use ask_ai::invocation::Mode;
use ask_ai::message::Message;
use ask_ai::session::{advance, start, Reply, Request, Step};
use keyring::mock::MockCredential;
use keyring::Entry;

/// An entry of the keyring crate that keeps its secret in memory.
fn entry_in_memory() -> Entry {
    Entry::new_with_credential(Box::new(MockCredential::default()))
}

fn outcome(result: keyring::Result<()>) -> Reply {
    match result {
        Ok(()) => Reply::Done,
        Err(error) => Reply::Failed(format!("{:?}", error)),
    }
}

/// Runs `mode` against `entry` and returns what was written and the exit status.
fn run(entry: &Entry, mode: Mode) -> (Vec<Message>, i32) {
    let mut step = start(mode);
    let mut written = Vec::new();
    loop {
        let Step { state, messages, request } = step;
        written.extend(messages);
        let reply = match request {
            Request::OpenEntry { .. } => Reply::Done,
            Request::SetSecret(secret) => outcome(entry.set_password(&secret)),
            Request::DeleteSecret => outcome(entry.delete_password()),
            Request::GetSecret => match entry.get_password() {
                Ok(secret) => Reply::Secret(secret),
                Err(error) => Reply::Failed(format!("{:?}", error)),
            },
            Request::Exit(status) => return (written, status),
            other => panic!("a key-management run asked for {:?}", other),
        };
        step = match advance(state, reply) {
            Some(following) => following,
            None => panic!("the reply was not awaited"),
        };
    }
}

#[test]
fn stored_credential_is_retrieved_unchanged() {
    let entry = entry_in_memory();
    assert_eq!(
        run(&entry, Mode::StoreKey("sk-r0und tr1p".to_string())),
        (vec![Message::KeyStored], 0)
    );
    assert_eq!(
        run(&entry, Mode::PrintKey),
        (vec![Message::KeyValue("sk-r0und tr1p".to_string())], 0)
    );
    assert_eq!(entry.get_password().unwrap(), "sk-r0und tr1p");
}

#[test]
fn storing_again_replaces_the_credential() {
    let entry = entry_in_memory();
    assert_eq!(run(&entry, Mode::StoreKey("first".to_string())).1, 0);
    assert_eq!(run(&entry, Mode::StoreKey("second".to_string())).1, 0);
    assert_eq!(run(&entry, Mode::PrintKey), (vec![Message::KeyValue("second".to_string())], 0));
}

#[test]
fn deleted_credential_is_not_found() {
    let entry = entry_in_memory();
    assert_eq!(run(&entry, Mode::StoreKey("sk-gone".to_string())).1, 0);
    assert_eq!(run(&entry, Mode::DeleteKey), (vec![Message::KeyDeleted], 0));
    assert_eq!(run(&entry, Mode::PrintKey), (vec![Message::KeyMissing], 1));
}

#[test]
fn question_without_a_credential_stops_before_the_service() {
    let entry = entry_in_memory();
    assert_eq!(
        run(&entry, Mode::AskQuestion(vec!["what".to_string(), "now".to_string()])),
        (vec![Message::KeyMissing], 1)
    );
    assert_eq!(run(&entry, Mode::AskQuestion(vec![])), (vec![Message::KeyMissing], 1));
}

#[test]
fn deleting_what_was_never_stored_reports_the_store_error() {
    let entry = entry_in_memory();
    assert_eq!(
        run(&entry, Mode::DeleteKey),
        (vec![Message::StoreFailed("NoEntry".to_string())], 1)
    );
}

#[test]
fn store_failure_is_reported_with_its_reason() {
    let credential = MockCredential::default();
    credential.set_error(keyring::Error::TooLong("password".to_string(), 8));
    let entry = Entry::new_with_credential(Box::new(credential));
    assert_eq!(
        run(&entry, Mode::StoreKey("much too long".to_string())),
        (vec![Message::StoreFailed("TooLong(\"password\", 8)".to_string())], 1)
    );
}
