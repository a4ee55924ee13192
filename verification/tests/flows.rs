use keyring_flows::entry::Entry;
use keyring_flows::flows::delete::Delete;
use keyring_flows::flows::read::Read;
use keyring_flows::flows::read_entry::ReadEntry;
use keyring_flows::flows::write::Write;
use keyring_flows::flows::Io;
use keyring_flows::secret::Secret;
use keyring_flows::state::State;

fn entry() -> Entry {
    Entry::new("a").with_service("svc")
}

#[test]
fn state_starts_empty() {
    let state = State::new(entry());
    assert_eq!(state.get_service(), "svc");
    assert_eq!(state.get_name(), "a");
    assert!(state.secret.is_none());
    assert!(state.done.is_none());
    assert!(state.salt.is_none());
}

#[test]
fn state_set_secret_marks_done_and_take_secret_empties() {
    let mut state = State::new(entry());
    state.set_secret(Secret::new(b"hello".to_vec()));
    assert_eq!(state.done, Some(true));
    let secret = state.take_secret().unwrap();
    assert_eq!(secret.expose_secret(), b"hello");
    assert!(state.take_secret().is_none());
    assert_eq!(state.done, Some(true));
}

#[test]
fn state_salt_is_put_and_taken() {
    let mut state = State::new(entry());
    state.set_salt(vec![1, 2]);
    assert_eq!(state.take_salt(), Some(vec![1, 2]));
    assert_eq!(state.take_salt(), None);
}

#[test]
fn state_done_marks_the_workspace() {
    let mut state = State::new(entry());
    state.done();
    assert_eq!(state.done, Some(true));
}

#[test]
fn state_clone_keeps_everything() {
    let mut state = State::new(entry());
    state.set_secret(Secret::new(vec![9]));
    state.set_salt(vec![1]);
    let copy = state.clone();
    assert_eq!(copy.entry, entry());
    assert_eq!(copy.secret.unwrap().expose_secret(), &[9]);
    assert_eq!(copy.done, Some(true));
    assert_eq!(copy.salt, Some(vec![1]));
}

#[test]
fn read_flow_asks_until_the_secret_is_there() {
    let mut flow = Read::new(entry());
    assert!(matches!(flow.next(), Err(Io::Read)));
    assert!(matches!(flow.next(), Err(Io::Read)));
    flow.as_mut().set_secret(Secret::new(b"hello".to_vec()));
    let secret = flow.next().unwrap();
    assert_eq!(secret.expose_secret(), b"hello");
    assert_eq!(flow.state.secret.as_ref().unwrap().expose_secret(), b"hello");
}

#[test]
fn read_flow_that_has_ended_asks_for_no_further_step() {
    let mut flow = Read::new(entry());
    flow.as_mut().set_secret(Secret::new(b"hello".to_vec()));
    for _ in 0..3 {
        let secret = flow.next().unwrap();
        assert_eq!(secret.expose_secret(), b"hello");
    }
    let taken = flow.as_mut().take_secret().unwrap();
    assert_eq!(taken.expose_secret(), b"hello");
}

#[test]
fn write_flow_asks_until_the_driver_is_done() {
    let mut flow = Write::new(entry(), Secret::new(b"hello".to_vec()));
    assert_eq!(flow.next(), Err(Io::Write));
    assert_eq!(flow.next(), Err(Io::Write));
    let secret = flow.as_mut().take_secret().unwrap();
    assert_eq!(secret.expose_secret(), b"hello");
    flow.as_mut().done();
    assert_eq!(flow.next(), Ok(()));
    assert_eq!(flow.next(), Ok(()));
}

#[test]
fn delete_flow_asks_until_the_driver_is_done() {
    let mut flow = Delete::new(entry());
    assert_eq!(flow.next(), Err(Io::Delete));
    flow.as_mut().done();
    assert_eq!(flow.next(), Ok(()));
    assert_eq!(flow.next(), Ok(()));
}

#[test]
fn done_set_to_false_is_not_done() {
    let mut flow = Delete::new(entry());
    flow.state.done = Some(false);
    assert_eq!(flow.next(), Err(Io::Delete));
    let mut flow = Write::new(entry(), Secret::new(vec![1]));
    flow.state.done = Some(false);
    assert_eq!(flow.next(), Err(Io::Write));
}

#[test]
fn read_entry_keeps_the_secret_until_it_is_taken() {
    let mut flow = ReadEntry::new("a");
    assert_eq!(flow.state.get_name(), "a");
    assert_eq!(flow.state.get_service(), "keyring_flows");
    assert_eq!(flow.next(), Some(Io::Read));
    flow.as_mut().set_secret(Secret::new(b"hello".to_vec()));
    assert_eq!(flow.next(), None);
    assert_eq!(flow.next(), None);
    let secret = flow.take_secret().unwrap();
    assert_eq!(secret.expose_secret(), b"hello");
    assert!(flow.take_secret().is_none());
}

#[test]
fn flow_clones_keep_their_workspace() {
    let mut read = Read::new(entry());
    read.as_mut().set_secret(Secret::new(vec![4]));
    let copy = read.clone();
    assert_eq!(copy.state.secret.unwrap().expose_secret(), &[4]);
    let write = Write::new(entry(), Secret::new(vec![5]));
    assert_eq!(write.clone().state.secret.unwrap().expose_secret(), &[5]);
    let delete = Delete::new(entry());
    assert_eq!(delete.clone().state.entry, entry());
}

#[test]
fn read_entry_clone_keeps_its_workspace() {
    let mut flow = ReadEntry::new("a");
    flow.as_mut().set_secret(Secret::new(vec![4]));
    let mut copy = flow.clone();
    assert_eq!(copy.next(), None);
    assert_eq!(copy.take_secret().unwrap().expose_secret(), &[4]);
    assert!(flow.state.secret.is_some());
}
