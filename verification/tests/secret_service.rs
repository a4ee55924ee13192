use std::collections::HashMap;

use keyring_flows::flows::Io as EntryIo;
use keyring_flows::secret::Secret;
use keyring_flows::secret_service::common::{
    ALIAS_DEFAULT, ALIAS_SESSION, COLLECTION_LABEL, CONTENT_TYPE, DBUS_DEST, DBUS_PATH,
    DEFAULT_TIMEOUT_SECS, ITEM_ATTRIBUTES, ITEM_LABEL,
};
use keyring_flows::secret_service::connect::{Connect, ConnectState};
use keyring_flows::secret_service::connector::{IoConnector, Pending};
use keyring_flows::secret_service::crypto::algorithm::Algorithm;
use keyring_flows::secret_service::crypto::cipher::{decrypt, AesKey};
use keyring_flows::secret_service::crypto::dh::Keypair;
use keyring_flows::secret_service::crypto::error::Error as CryptoError;
use keyring_flows::secret_service::crypto::Io as CryptoIo;
use keyring_flows::secret_service::default_collection::{DefaultCollection, LookupState};
use keyring_flows::secret_service::error::Error;
use keyring_flows::secret_service::flow::{DeleteEntryFlow, Flow, ReadEntryFlow, WriteEntryFlow};
use keyring_flows::secret_service::message::{
    Call, Event, Reply, SessionInput, SignalResult, Turn,
};
use keyring_flows::secret_service::path::ObjectPath;
use keyring_flows::secret_service::processor::{CryptoIoProcessor, IoProcessor};
use keyring_flows::secret_service::service::{
    first_path, Collection, Created, Item, SecretService,
};
use keyring_flows::secret_service::session::Session;
use keyring_flows::secret_service::Io;

/// What the service keeps of one item.
#[derive(Clone, Debug, PartialEq)]
struct Stored {
    path: String,
    label: String,
    session: String,
    params: Vec<u8>,
    value: Vec<u8>,
    content_type: String,
    replace: bool,
}

/// A Secret Service in memory.
struct Service {
    default_alias: String,
    session_alias: String,
    collections: Vec<String>,
    created_collection: String,
    items: HashMap<(String, String, String), Stored>,
    prompt_for_items: bool,
    prompt_result: Option<Event>,
    subscribed: bool,
    keypair: Keypair,
    shared_key: Option<AesKey>,
    made: usize,
    calls: Vec<String>,
}

impl Service {
    fn new() -> Self {
        Service {
            default_alias: String::from("/coll/default"),
            session_alias: String::from("/"),
            collections: Vec::new(),
            created_collection: String::from("/coll/created"),
            items: HashMap::new(),
            prompt_for_items: false,
            prompt_result: None,
            subscribed: false,
            keypair: Keypair::from_private_bytes(&[3]),
            shared_key: None,
            made: 0,
            calls: Vec::new(),
        }
    }

    fn perform(&mut self, call: Call) -> Reply {
        match call {
            Call::Connect => {
                self.calls.push(String::from("Connect"));
                Reply::Connected
            }
            Call::OpenSession { algorithm, input } => {
                self.calls.push(String::from("OpenSession"));
                match input {
                    SessionInput::Text(text) => {
                        assert_eq!(algorithm, "plain");
                        assert_eq!(text, "");
                        Reply::SessionOpened { output: None, path: ObjectPath::new("/session/1") }
                    }
                    SessionInput::Bytes(public) => {
                        assert_eq!(algorithm, "dh-ietf1024-sha256-aes128-cbc-pkcs7");
                        assert_eq!(public.len(), 128);
                        self.shared_key = Some(self.keypair.derive_shared(&public));
                        Reply::SessionOpened {
                            output: Some(self.keypair.public_bytes()),
                            path: ObjectPath::new("/session/2"),
                        }
                    }
                }
            }
            Call::ReadAlias { name } => {
                self.calls.push(format!("ReadAlias({})", name));
                if name == "default" {
                    Reply::Alias(ObjectPath::new(&self.default_alias))
                } else if name == "session" {
                    Reply::Alias(ObjectPath::new(&self.session_alias))
                } else {
                    Reply::Failed(format!("no alias {}", name))
                }
            }
            Call::Collections => {
                self.calls.push(String::from("Collections"));
                Reply::Collections(self.collections.iter().map(|c| ObjectPath::new(c)).collect())
            }
            Call::CreateCollection { label, alias } => {
                self.calls.push(format!("CreateCollection({},{})", label, alias));
                Reply::CollectionCreated {
                    collection: ObjectPath::new(&self.created_collection),
                    prompt: ObjectPath::new("/prompt/collection"),
                }
            }
            Call::SearchItems { collection, service, account } => {
                self.calls.push(String::from("SearchItems"));
                let key = (collection.path, service, account);
                Reply::Items(
                    self.items.get(&key).map(|item| ObjectPath::new(&item.path)).into_iter().collect(),
                )
            }
            Call::CreateItem {
                collection,
                label,
                service,
                account,
                session,
                params,
                value,
                content_type,
                replace,
            } => {
                self.calls.push(String::from("CreateItem"));
                self.made += 1;
                let path = format!("{}/{}", collection.path, self.made);
                let stored = Stored {
                    path: path.clone(),
                    label,
                    session: session.path,
                    params,
                    value: value.expose_secret().to_vec(),
                    content_type,
                    replace,
                };
                self.items.insert((collection.path, service, account), stored);
                if self.prompt_for_items {
                    Reply::ItemCreated {
                        item: ObjectPath::empty(),
                        prompt: ObjectPath::new("/prompt/item"),
                    }
                } else {
                    Reply::ItemCreated { item: ObjectPath::new(&path), prompt: ObjectPath::empty() }
                }
            }
            Call::GetSecret { item, session } => {
                self.calls.push(String::from("GetSecret"));
                match self.items.values().find(|stored| stored.path == item.path) {
                    Some(stored) => Reply::Secret {
                        session,
                        params: stored.params.clone(),
                        value: stored.value.clone(),
                        content_type: stored.content_type.clone(),
                    },
                    None => Reply::Failed(String::from("no such item")),
                }
            }
            Call::Delete { item } => {
                self.calls.push(String::from("Delete"));
                self.items.retain(|_, stored| stored.path != item.path);
                Reply::Deleted { prompt: ObjectPath::empty() }
            }
            Call::MatchSignal { .. } => {
                self.calls.push(String::from("MatchSignal"));
                self.subscribed = true;
                Reply::SignalMatched
            }
            Call::Prompt { prompt, window_id } => {
                self.calls.push(format!("Prompt({},{})", prompt.path, window_id));
                Reply::Prompted
            }
            Call::Process { seconds } => {
                assert_eq!(seconds, 1);
                self.calls.push(String::from("Process"));
                Reply::Processed(self.prompt_result.take().unwrap_or(Event::Idle))
            }
            Call::MatchStop { .. } => {
                self.calls.push(String::from("MatchStop"));
                self.subscribed = false;
                Reply::MatchStopped
            }
        }
    }

    fn stored(&self, service: &str, account: &str) -> Option<&Stored> {
        self.items
            .iter()
            .find(|(key, _)| key.1 == service && key.2 == account)
            .map(|(_, stored)| stored)
    }
}

fn connect(service: &mut Service, encryption: Algorithm) -> SecretService {
    let mut connect = SecretService::connect(encryption);
    let mut reply = None;
    loop {
        match connect.resume(reply.take()) {
            Turn::Call(call) => reply = Some(service.perform(call)),
            Turn::Done(service) => return service,
            Turn::Failed(error) => panic!("unexpected {:?}", error),
        }
    }
}

fn processor(service: &mut Service, encryption: Algorithm) -> IoProcessor {
    IoProcessor::try_new("svc", connect(service, encryption)).unwrap()
}

fn step<F: Flow>(
    processor: &mut IoProcessor,
    service: &mut Service,
    flow: &mut F,
    io: Io,
) -> Result<(), Error> {
    let mut reply = None;
    loop {
        match processor.process(flow, io, reply.take()) {
            Turn::Call(call) => reply = Some(service.perform(call)),
            Turn::Done(()) => return Ok(()),
            Turn::Failed(error) => return Err(error),
        }
    }
}

fn write(
    processor: &mut IoProcessor,
    service: &mut Service,
    key: &str,
    secret: &[u8],
    encryption: Algorithm,
) -> Result<Vec<Io>, Error> {
    let mut flow = WriteEntryFlow::new(key, Secret::new(secret.to_vec()), encryption);
    let mut steps = Vec::new();
    while let Some(io) = flow.next() {
        steps.push(io);
        step(processor, service, &mut flow, io)?;
    }
    Ok(steps)
}

fn read(
    processor: &mut IoProcessor,
    service: &mut Service,
    key: &str,
    encryption: Algorithm,
) -> Result<(Vec<u8>, Vec<Io>), Error> {
    let mut flow = ReadEntryFlow::new(key, encryption);
    let mut steps = Vec::new();
    while let Some(io) = flow.next() {
        steps.push(io);
        step(processor, service, &mut flow, io)?;
    }
    Ok((flow.take_secret().unwrap().expose_secret().to_vec(), steps))
}

fn delete(
    processor: &mut IoProcessor,
    service: &mut Service,
    key: &str,
) -> Result<Vec<Io>, Error> {
    let mut flow = DeleteEntryFlow::new(key);
    let mut steps = Vec::new();
    while let Some(io) = flow.next() {
        steps.push(io);
        step(processor, service, &mut flow, io)?;
    }
    Ok(steps)
}

fn describe(turn: Turn<SecretService>) -> String {
    match turn {
        Turn::Call(call) => format!("{:?}", call),
        Turn::Done(_) => String::from("done"),
        Turn::Failed(error) => format!("{:?}", error),
    }
}

fn expect_not_found(error: Error, service: &str, account: &str) {
    match error {
        Error::GetItemNotFoundError(of, missing) => {
            assert_eq!(of, service);
            assert_eq!(missing, account);
        }
        other => panic!("unexpected {:?}", other),
    }
}

#[test]
fn protocol_names_are_those_of_the_secret_service() {
    assert_eq!(DBUS_DEST, "org.freedesktop.secrets");
    assert_eq!(DBUS_PATH, "/org/freedesktop/secrets");
    assert_eq!(COLLECTION_LABEL, "org.freedesktop.Secret.Collection.Label");
    assert_eq!(ITEM_LABEL, "org.freedesktop.Secret.Item.Label");
    assert_eq!(ITEM_ATTRIBUTES, "org.freedesktop.Secret.Item.Attributes");
    assert_eq!(DEFAULT_TIMEOUT_SECS, 2);
    assert_eq!(ALIAS_DEFAULT, "default");
    assert_eq!(ALIAS_SESSION, "session");
    assert_eq!(CONTENT_TYPE, "text/plain");
}

#[test]
fn plain_round_trip() {
    let mut service = Service::new();
    let mut processor = processor(&mut service, Algorithm::Plain);
    let steps = write(&mut processor, &mut service, "a", b"hello", Algorithm::Plain).unwrap();
    assert_eq!(steps, vec![Io::Entry(EntryIo::Write)]);
    let (secret, steps) = read(&mut processor, &mut service, "a", Algorithm::Plain).unwrap();
    assert_eq!(secret, b"hello");
    assert_eq!(steps, vec![Io::Entry(EntryIo::Read)]);
    let steps = delete(&mut processor, &mut service, "a").unwrap();
    assert_eq!(steps, vec![Io::Entry(EntryIo::Delete)]);
    let error = read(&mut processor, &mut service, "a", Algorithm::Plain).unwrap_err();
    expect_not_found(error, "svc", "a");
    let error = delete(&mut processor, &mut service, "a").unwrap_err();
    expect_not_found(error, "svc", "a");
}

#[test]
fn plain_write_stores_the_secret_tuple_as_it_is() {
    let mut service = Service::new();
    let mut processor = processor(&mut service, Algorithm::Plain);
    write(&mut processor, &mut service, "a", b"hello", Algorithm::Plain).unwrap();
    let stored = service.stored("svc", "a").unwrap();
    assert_eq!(stored.label, "svc:a");
    assert_eq!(stored.session, "/session/1");
    assert_eq!(stored.params, Vec::<u8>::new());
    assert_eq!(stored.value, b"hello");
    assert_eq!(stored.content_type, "text/plain");
    assert!(stored.replace);
    assert!(stored.path.starts_with("/coll/default/"));
}

#[test]
fn write_replaces_what_was_written_before() {
    let mut service = Service::new();
    let mut processor = processor(&mut service, Algorithm::Plain);
    write(&mut processor, &mut service, "a", b"one", Algorithm::Plain).unwrap();
    write(&mut processor, &mut service, "a", b"two", Algorithm::Plain).unwrap();
    write(&mut processor, &mut service, "b", b"three", Algorithm::Plain).unwrap();
    assert_eq!(read(&mut processor, &mut service, "a", Algorithm::Plain).unwrap().0, b"two");
    assert_eq!(read(&mut processor, &mut service, "b", Algorithm::Plain).unwrap().0, b"three");
}

#[test]
fn dh_round_trip_with_a_peer_of_private_key_three() {
    let mut service = Service::new();
    let mut processor = processor(&mut service, Algorithm::Dh);

    let mut expected_output = vec![0u8; 127];
    expected_output.push(8);
    assert_eq!(processor.ss.dbus.session.output, Some(expected_output));
    assert_eq!(processor.ss.dbus.session.encryption, Algorithm::Dh);
    assert_eq!(processor.ss.dbus.session.shared_key, service.shared_key);
    assert_eq!(processor.crypto.connector.shared_key, service.shared_key);

    let steps = write(&mut processor, &mut service, "a", b"hello", Algorithm::Dh).unwrap();
    assert_eq!(steps, vec![Io::Crypto(CryptoIo::Encrypt), Io::Entry(EntryIo::Write)]);

    let stored = service.stored("svc", "a").unwrap().clone();
    assert_eq!(stored.params.len(), 16);
    assert!(stored.value.len() > 0);
    assert_eq!(stored.value.len() % 16, 0);
    assert_eq!(stored.content_type, "text/plain");
    assert_eq!(stored.session, "/session/2");
    assert_ne!(stored.value, b"hello");
    let key = service.shared_key.unwrap();
    assert_eq!(decrypt(&stored.value, &key, &stored.params), Ok(b"hello".to_vec()));

    let (secret, steps) = read(&mut processor, &mut service, "a", Algorithm::Dh).unwrap();
    assert_eq!(secret, b"hello");
    assert_eq!(steps, vec![Io::Entry(EntryIo::Read), Io::Crypto(CryptoIo::Decrypt)]);

    let steps = delete(&mut processor, &mut service, "a").unwrap();
    assert_eq!(steps, vec![Io::Entry(EntryIo::Delete)]);
    let error = read(&mut processor, &mut service, "a", Algorithm::Dh).unwrap_err();
    expect_not_found(error, "svc", "a");
}

#[test]
fn dh_round_trip_of_many_secrets() {
    let mut service = Service::new();
    let mut processor = processor(&mut service, Algorithm::Dh);
    let secrets: [&[u8]; 4] = [b"x", &[0u8; 16], &[0xff; 47], b"a longer secret than one block"];
    for (index, secret) in secrets.iter().enumerate() {
        let key = format!("key-{}", index);
        write(&mut processor, &mut service, &key, secret, Algorithm::Dh).unwrap();
        assert_eq!(read(&mut processor, &mut service, &key, Algorithm::Dh).unwrap().0, *secret);
    }
}

#[test]
fn empty_secret_write_fails_before_any_call() {
    let mut service = Service::new();
    let mut processor = processor(&mut service, Algorithm::Plain);
    service.calls.clear();
    let error = write(&mut processor, &mut service, "a", b"", Algorithm::Plain).unwrap_err();
    assert!(matches!(error, Error::WriteEmptySecretError));
    assert!(service.calls.is_empty());

    let mut flow = WriteEntryFlow::new("a", Secret::new(vec![1]), Algorithm::Plain);
    flow.take_secret();
    let turn = processor.process(&mut flow, Io::Entry(EntryIo::Write), None);
    assert!(matches!(turn, Turn::Failed(Error::WriteEmptySecretError)));
    assert!(service.calls.is_empty());
    assert!(matches!(processor.ss.pending, Pending::Idle));
}

#[test]
fn empty_secret_write_leaves_the_flow_as_it_was() {
    let mut service = Service::new();
    let mut connector = IoConnector::new("svc", connect(&mut service, Algorithm::Plain));
    let mut flow = WriteEntryFlow::new("a", Secret::new(Vec::new()), Algorithm::Plain);
    flow.put_salt(vec![1]);
    assert!(matches!(
        connector.write(&mut flow, None),
        Turn::Failed(Error::WriteEmptySecretError)
    ));
    assert_eq!(flow.secret.as_ref().unwrap().expose_secret(), b"");
    assert_eq!(flow.salt, Some(vec![1]));
}

#[test]
fn default_collection_is_the_default_alias() {
    let mut service = Service::new();
    let mut processor = processor(&mut service, Algorithm::Plain);
    service.calls.clear();
    write(&mut processor, &mut service, "a", b"hello", Algorithm::Plain).unwrap();
    assert_eq!(service.calls, vec!["ReadAlias(default)", "CreateItem"]);
    assert!(service.stored("svc", "a").unwrap().path.starts_with("/coll/default/"));
}

#[test]
fn default_collection_falls_back_to_the_session_alias() {
    let mut service = Service::new();
    service.default_alias = String::from("/");
    service.session_alias = String::from("/coll/s");
    let mut processor = processor(&mut service, Algorithm::Plain);
    service.calls.clear();
    write(&mut processor, &mut service, "a", b"hello", Algorithm::Plain).unwrap();
    assert_eq!(
        service.calls,
        vec!["ReadAlias(default)", "ReadAlias(session)", "CreateItem"]
    );
    assert!(service.stored("svc", "a").unwrap().path.starts_with("/coll/s/"));
}

#[test]
fn default_collection_falls_back_to_the_first_collection() {
    let mut service = Service::new();
    service.default_alias = String::from("/");
    service.collections = vec![String::from("/coll/one"), String::from("/coll/two")];
    let mut lookup = DefaultCollection::new();
    let mut reply = None;
    let collection = loop {
        match lookup.resume(reply.take()) {
            Turn::Call(call) => reply = Some(service.perform(call)),
            Turn::Done(collection) => break collection,
            Turn::Failed(error) => panic!("unexpected {:?}", error),
        }
    };
    assert_eq!(collection.path, ObjectPath::new("/coll/one"));
    assert_eq!(
        service.calls,
        vec!["ReadAlias(default)", "ReadAlias(session)", "Collections"]
    );
    assert!(matches!(lookup.state, LookupState::Finished));
}

#[test]
fn default_collection_is_created_where_there_is_none() {
    let mut service = Service::new();
    service.default_alias = String::from("/");
    let mut lookup = DefaultCollection::new();
    let mut reply = None;
    let collection = loop {
        match lookup.resume(reply.take()) {
            Turn::Call(call) => reply = Some(service.perform(call)),
            Turn::Done(collection) => break collection,
            Turn::Failed(error) => panic!("unexpected {:?}", error),
        }
    };
    assert_eq!(collection.path, ObjectPath::new("/coll/created"));
    assert_eq!(
        service.calls,
        vec![
            "ReadAlias(default)",
            "ReadAlias(session)",
            "Collections",
            "CreateCollection(default,default)"
        ]
    );
}

#[test]
fn default_collection_creation_sees_the_prompt_through() {
    let mut service = Service::new();
    service.default_alias = String::from("/");
    service.created_collection = String::from("/");
    service.prompt_result = Some(Event::Completed {
        dismissed: false,
        result: SignalResult::Path(ObjectPath::new("/coll/prompted")),
    });
    let mut lookup = DefaultCollection::new();
    let mut reply = None;
    let collection = loop {
        match lookup.resume(reply.take()) {
            Turn::Call(call) => reply = Some(service.perform(call)),
            Turn::Done(collection) => break collection,
            Turn::Failed(error) => panic!("unexpected {:?}", error),
        }
    };
    assert_eq!(collection.path, ObjectPath::new("/coll/prompted"));
    assert_eq!(
        &service.calls[4..],
        &["MatchSignal", "Prompt(/prompt/collection,)", "Process", "MatchStop"]
    );
    assert!(!service.subscribed);
}

#[test]
fn dismissed_collection_prompt_fails_the_lookup() {
    let mut service = Service::new();
    service.default_alias = String::from("/");
    service.created_collection = String::from("/");
    service.prompt_result =
        Some(Event::Completed { dismissed: true, result: SignalResult::Missing });
    let mut processor = processor(&mut service, Algorithm::Plain);
    let error = write(&mut processor, &mut service, "a", b"hello", Algorithm::Plain).unwrap_err();
    assert!(matches!(error, Error::PromptDismissedError));
    assert!(!service.subscribed);
    assert!(matches!(processor.ss.pending, Pending::Idle));
}

#[test]
fn default_collection_reports_which_call_failed() {
    let failed = || Some(Reply::Failed(String::from("boom")));
    let empty = || Some(Reply::Alias(ObjectPath::empty()));

    let mut lookup = DefaultCollection::new();
    lookup.resume(None);
    match lookup.resume(failed()) {
        Turn::Failed(Error::GetDefaultCollectionError(cause)) => assert_eq!(cause, "boom"),
        other => panic!("unexpected {:?}", other),
    }

    let mut lookup = DefaultCollection::new();
    lookup.resume(None);
    lookup.resume(empty());
    assert!(matches!(
        lookup.resume(failed()),
        Turn::Failed(Error::GetSessionCollectionError(_))
    ));

    let mut lookup = DefaultCollection::new();
    lookup.resume(None);
    lookup.resume(empty());
    lookup.resume(empty());
    assert!(matches!(lookup.resume(failed()), Turn::Failed(Error::GetCollectionsError(_))));

    let mut lookup = DefaultCollection::new();
    lookup.resume(None);
    lookup.resume(empty());
    lookup.resume(empty());
    lookup.resume(Some(Reply::Collections(Vec::new())));
    assert!(matches!(
        lookup.resume(failed()),
        Turn::Failed(Error::CreateDefaultCollectionError(_))
    ));
    assert!(matches!(lookup.state, LookupState::Finished));
    assert!(matches!(lookup.resume(failed()), Turn::Failed(Error::UnexpectedInput)));
    assert!(matches!(lookup.resume(None), Turn::Failed(Error::UnavailableInput)));
}

#[test]
fn default_collection_reports_misuse() {
    let mut lookup = DefaultCollection::new();
    assert!(matches!(
        lookup.resume(Some(Reply::Alias(ObjectPath::new("/x")))),
        Turn::Failed(Error::UnexpectedInput)
    ));
    let mut lookup = DefaultCollection::new();
    lookup.resume(None);
    assert!(matches!(lookup.resume(None), Turn::Failed(Error::UnavailableInput)));
    assert!(matches!(lookup.state, LookupState::DefaultAlias));
    assert!(matches!(
        lookup.resume(Some(Reply::Collections(Vec::new()))),
        Turn::Failed(Error::UnexpectedInput)
    ));
    assert!(matches!(lookup.state, LookupState::Finished));
}

#[test]
fn item_creation_sees_the_prompt_through() {
    let mut service = Service::new();
    service.prompt_for_items = true;
    service.prompt_result = Some(Event::Completed {
        dismissed: false,
        result: SignalResult::Path(ObjectPath::new("/x")),
    });
    let mut processor = processor(&mut service, Algorithm::Plain);
    service.calls.clear();
    write(&mut processor, &mut service, "a", b"hello", Algorithm::Plain).unwrap();
    assert_eq!(
        service.calls,
        vec![
            "ReadAlias(default)",
            "CreateItem",
            "MatchSignal",
            "Prompt(/prompt/item,)",
            "Process",
            "MatchStop"
        ]
    );
    assert!(!service.subscribed);
}

#[test]
fn item_creation_fails_where_the_prompt_is_dismissed_or_times_out() {
    let mut service = Service::new();
    service.prompt_for_items = true;
    service.prompt_result =
        Some(Event::Completed { dismissed: true, result: SignalResult::Missing });
    let mut processor = processor(&mut service, Algorithm::Plain);
    let error = write(&mut processor, &mut service, "a", b"hello", Algorithm::Plain).unwrap_err();
    assert!(matches!(error, Error::PromptDismissedError));

    service.calls.clear();
    let error = write(&mut processor, &mut service, "a", b"hello", Algorithm::Plain).unwrap_err();
    assert!(matches!(error, Error::PromptTimeoutError));
    assert_eq!(service.calls.iter().filter(|call| *call == "Process").count(), 300);
    assert_eq!(service.calls.last().unwrap(), "MatchStop");
    assert!(!service.subscribed);
}

#[test]
fn connector_reports_which_call_failed() {
    let failed = || Some(Reply::Failed(String::from("boom")));
    let alias = || Some(Reply::Alias(ObjectPath::new("/coll")));
    let items = || Some(Reply::Items(vec![ObjectPath::new("/coll/1")]));
    let mut service = Service::new();
    let mut connector = IoConnector::new("svc", connect(&mut service, Algorithm::Plain));

    let mut flow = ReadEntryFlow::new("a", Algorithm::Plain);
    connector.read(&mut flow, None);
    connector.read(&mut flow, alias());
    assert!(matches!(connector.read(&mut flow, failed()), Turn::Failed(Error::SearchItemsError(_))));
    assert!(matches!(connector.pending, Pending::Idle));

    connector.read(&mut flow, None);
    connector.read(&mut flow, alias());
    match connector.read(&mut flow, items()) {
        Turn::Call(Call::GetSecret { item, session }) => {
            assert_eq!(item, ObjectPath::new("/coll/1"));
            assert_eq!(session, ObjectPath::new("/session/1"));
        }
        other => panic!("unexpected {:?}", other),
    }
    assert!(matches!(connector.read(&mut flow, failed()), Turn::Failed(Error::GetSecretError(_))));
    assert!(flow.secret.is_none());

    let mut flow = WriteEntryFlow::new("a", Secret::new(vec![1]), Algorithm::Plain);
    connector.write(&mut flow, None);
    assert!(matches!(connector.write(&mut flow, alias()), Turn::Call(Call::CreateItem { .. })));
    assert!(matches!(connector.write(&mut flow, failed()), Turn::Failed(Error::CreateItemError(_))));

    let mut flow = DeleteEntryFlow::new("a");
    connector.delete(&mut flow, None);
    connector.delete(&mut flow, alias());
    match connector.delete(&mut flow, items()) {
        Turn::Call(Call::Delete { item }) => assert_eq!(item, ObjectPath::new("/coll/1")),
        other => panic!("unexpected {:?}", other),
    }
    assert!(matches!(connector.delete(&mut flow, failed()), Turn::Failed(Error::DeleteItemError(_))));

    connector.delete(&mut flow, None);
    assert!(matches!(
        connector.delete(&mut flow, failed()),
        Turn::Failed(Error::GetDefaultCollectionError(_))
    ));
    assert!(matches!(connector.pending, Pending::Idle));
}

#[test]
fn connector_reports_misuse() {
    let mut service = Service::new();
    let mut connector = IoConnector::new("svc", connect(&mut service, Algorithm::Plain));
    let mut flow = ReadEntryFlow::new("a", Algorithm::Plain);
    assert!(matches!(
        connector.read(&mut flow, Some(Reply::Prompted)),
        Turn::Failed(Error::UnexpectedInput)
    ));
    assert!(matches!(connector.read(&mut flow, None), Turn::Call(Call::ReadAlias { .. })));
    assert!(matches!(connector.read(&mut flow, None), Turn::Failed(Error::UnavailableInput)));
    assert!(matches!(connector.pending, Pending::ReadCollection(_)));
    let mut other = DeleteEntryFlow::new("a");
    assert!(matches!(
        connector.delete(&mut other, Some(Reply::Alias(ObjectPath::new("/coll")))),
        Turn::Failed(Error::UnexpectedInput)
    ));
    assert!(matches!(connector.pending, Pending::Idle));
    connector.read(&mut flow, None);
    connector.read(&mut flow, Some(Reply::Alias(ObjectPath::new("/coll"))));
    assert!(matches!(
        connector.read(&mut flow, Some(Reply::MatchStopped)),
        Turn::Failed(Error::UnexpectedInput)
    ));
}

#[test]
fn connector_session_is_the_session_of_the_service() {
    let mut service = Service::new();
    let mut connector = IoConnector::new("svc", connect(&mut service, Algorithm::Plain));
    assert_eq!(connector.service, "svc");
    assert_eq!(connector.session().path, ObjectPath::new("/session/1"));
    connector.session().path = ObjectPath::new("/session/9");
    assert_eq!(connector.dbus.session.path, ObjectPath::new("/session/9"));
}

#[test]
fn open_session_sends_what_the_algorithm_asks_for() {
    match SecretService::open_session(Algorithm::Plain, &None).unwrap() {
        Call::OpenSession { algorithm, input: SessionInput::Text(text) } => {
            assert_eq!(algorithm, "plain");
            assert_eq!(text, "");
        }
        other => panic!("unexpected {:?}", other),
    }
    let keypair = Some(Keypair::from_private_bytes(&[3]));
    match SecretService::open_session(Algorithm::Dh, &keypair).unwrap() {
        Call::OpenSession { algorithm, input: SessionInput::Bytes(bytes) } => {
            assert_eq!(algorithm, "dh-ietf1024-sha256-aes128-cbc-pkcs7");
            let mut expected = vec![0u8; 127];
            expected.push(8);
            assert_eq!(bytes, expected);
        }
        other => panic!("unexpected {:?}", other),
    }
    assert!(matches!(
        SecretService::open_session(Algorithm::Dh, &None),
        Err(Error::CryptoError(CryptoError::FindPrivkeyError))
    ));
}

#[test]
fn connect_goes_by_the_bus_to_the_session() {
    let mut service = Service::new();
    let opened = connect(&mut service, Algorithm::Plain);
    assert_eq!(service.calls, vec!["Connect", "OpenSession"]);
    assert_eq!(opened.session.path, ObjectPath::new("/session/1"));
    assert_eq!(opened.session.encryption, Algorithm::Plain);

    let mut service = Service::new();
    let opened = connect(&mut service, Algorithm::Dh);
    assert_eq!(service.calls, vec!["Connect", "OpenSession"]);
    assert_eq!(opened.session.path, ObjectPath::new("/session/2"));
    assert_eq!(opened.session.shared_key, service.shared_key);
    assert!(service.shared_key.is_some());
}

#[test]
fn connect_with_a_given_keypair_sends_its_public_key() {
    let mut connect = Connect::new(Algorithm::Dh, Some(Keypair::from_private_bytes(&[5])));
    assert!(matches!(connect.resume(None), Turn::Call(Call::Connect)));
    match connect.resume(Some(Reply::Connected)) {
        Turn::Call(Call::OpenSession { input: SessionInput::Bytes(bytes), .. }) => {
            let mut expected = vec![0u8; 127];
            expected.push(32);
            assert_eq!(bytes, expected);
        }
        other => panic!("unexpected {:?}", describe(other)),
    }
    let reply = Reply::SessionOpened { output: Some(vec![8]), path: ObjectPath::new("/s") };
    match connect.resume(Some(reply)) {
        Turn::Done(service) => {
            assert_eq!(
                service.session.shared_key,
                Some(Keypair::from_private_bytes(&[3]).derive_shared(&[32]))
            );
        }
        other => panic!("unexpected {:?}", describe(other)),
    }
    assert_eq!(connect.state, ConnectState::Finished);
    assert!(connect.keypair.is_none());
}

#[test]
fn connect_reports_failures_and_misuse() {
    let mut connect = SecretService::connect(Algorithm::Plain);
    assert_eq!(connect.state, ConnectState::Start);
    assert!(connect.keypair.is_none());
    connect.resume(None);
    match connect.resume(Some(Reply::Failed(String::from("no bus")))) {
        Turn::Failed(Error::CreateSessionError(cause)) => assert_eq!(cause, "no bus"),
        other => panic!("unexpected {:?}", describe(other)),
    }
    assert_eq!(connect.state, ConnectState::Finished);
    assert!(matches!(
        connect.resume(Some(Reply::Connected)),
        Turn::Failed(Error::UnexpectedInput)
    ));
    assert!(matches!(connect.resume(None), Turn::Failed(Error::UnavailableInput)));

    let mut connect = SecretService::connect(Algorithm::Plain);
    connect.resume(None);
    assert!(matches!(connect.resume(None), Turn::Failed(Error::UnavailableInput)));
    assert_eq!(connect.state, ConnectState::Connecting);
    connect.resume(Some(Reply::Connected));
    match connect.resume(Some(Reply::Failed(String::from("boom")))) {
        Turn::Failed(Error::OpenSessionError(cause)) => assert_eq!(cause, "boom"),
        other => panic!("unexpected {:?}", describe(other)),
    }

    let mut connect = Connect::new(Algorithm::Dh, None);
    connect.resume(None);
    assert!(matches!(
        connect.resume(Some(Reply::Connected)),
        Turn::Failed(Error::CryptoError(CryptoError::FindPrivkeyError))
    ));

    let mut connect = SecretService::connect(Algorithm::Dh);
    assert!(connect.keypair.is_some());
    connect.resume(None);
    connect.resume(Some(Reply::Connected));
    let reply = Reply::SessionOpened { output: None, path: ObjectPath::new("/s") };
    assert!(matches!(
        connect.resume(Some(reply)),
        Turn::Failed(Error::ParseSessionOutputError)
    ));

    let mut connect = SecretService::connect(Algorithm::Plain);
    assert!(matches!(
        connect.resume(Some(Reply::Connected)),
        Turn::Failed(Error::UnexpectedInput)
    ));
}

#[test]
fn opened_session_reads_what_the_service_answered() {
    let opened = |output| Reply::SessionOpened { output, path: ObjectPath::new("/session/7") };
    let service = SecretService::opened_session(Algorithm::Plain, None, opened(None)).unwrap();
    assert_eq!(service.session.path, ObjectPath::new("/session/7"));
    assert_eq!(service.session.encryption, Algorithm::Plain);
    assert!(service.session.shared_key.is_none());

    let keypair = || Some(Keypair::from_private_bytes(&[5]));
    let service = SecretService::opened_session(Algorithm::Dh, keypair(), opened(Some(vec![8]))).unwrap();
    assert_eq!(service.session.encryption, Algorithm::Dh);
    assert_eq!(service.session.output, Some(vec![8]));
    assert_eq!(
        service.session.shared_key,
        Some(Keypair::from_private_bytes(&[3]).derive_shared(&[32]))
    );

    assert!(matches!(
        SecretService::opened_session(Algorithm::Dh, keypair(), opened(None)).map(|_| ()),
        Err(Error::ParseSessionOutputError)
    ));
    assert!(matches!(
        SecretService::opened_session(Algorithm::Dh, None, opened(Some(vec![8]))).map(|_| ()),
        Err(Error::CryptoError(CryptoError::FindPrivkeyError))
    ));
    match SecretService::opened_session(Algorithm::Plain, None, Reply::Failed(String::from("boom"))) {
        Err(Error::OpenSessionError(cause)) => assert_eq!(cause, "boom"),
        other => panic!("unexpected {:?}", other.map(|_| ())),
    }
    assert!(matches!(
        SecretService::opened_session(Algorithm::Plain, None, Reply::Prompted).map(|_| ()),
        Err(Error::UnexpectedInput)
    ));
}

#[test]
fn collection_and_item_calls_name_their_objects() {
    let service = SecretService { session: Session::new_plain(ObjectPath::new("/session/1")) };
    let collection = Collection::new(&service, ObjectPath::new("/coll"));
    match collection.find_item("svc", "a") {
        Call::SearchItems { collection, service, account } => {
            assert_eq!(collection, ObjectPath::new("/coll"));
            assert_eq!(service, "svc");
            assert_eq!(account, "a");
        }
        other => panic!("unexpected {:?}", other),
    }
    let call = collection.create_item(
        &service.session.path,
        "svc",
        "a",
        Secret::new(b"hello".to_vec()),
        vec![1, 2],
    );
    match call {
        Call::CreateItem {
            collection,
            label,
            service,
            account,
            session,
            params,
            value,
            content_type,
            replace,
        } => {
            assert_eq!(collection, ObjectPath::new("/coll"));
            assert_eq!(label, "svc:a");
            assert_eq!(service, "svc");
            assert_eq!(account, "a");
            assert_eq!(session, ObjectPath::new("/session/1"));
            assert_eq!(params, vec![1, 2]);
            assert_eq!(value.expose_secret(), b"hello");
            assert_eq!(content_type, "text/plain");
            assert!(replace);
        }
        other => panic!("unexpected {:?}", other),
    }
    let item = Item::new(&service, ObjectPath::new("/coll/1"));
    assert!(matches!(
        item.get_secret(&service.session.path),
        Call::GetSecret { item, session }
            if item == ObjectPath::new("/coll/1") && session == ObjectPath::new("/session/1")
    ));
    assert!(matches!(item.delete(), Call::Delete { item } if item == ObjectPath::new("/coll/1")));
    assert!(matches!(service.get_default_collection().state, LookupState::Start));
    assert_eq!(service.prompt(ObjectPath::new("/p")).path, ObjectPath::new("/p"));
}

#[test]
fn replies_are_read_as_what_they_are() {
    let paths = || vec![ObjectPath::new("/coll/1"), ObjectPath::new("/coll/2")];
    assert_eq!(first_path(paths()), Some(ObjectPath::new("/coll/1")));
    assert_eq!(first_path(Vec::new()), None);
    let found = Collection::found_item(Reply::Items(paths())).unwrap().unwrap();
    assert_eq!(found.path, ObjectPath::new("/coll/1"));
    assert!(Collection::found_item(Reply::Items(Vec::new())).unwrap().is_none());
    assert!(matches!(
        Collection::found_item(Reply::Prompted),
        Err(Error::UnexpectedInput)
    ));
    let item = Collection::get_item("svc", "a", Reply::Items(paths())).unwrap();
    assert_eq!(item.path, ObjectPath::new("/coll/1"));
    expect_not_found(
        Collection::get_item("svc", "a", Reply::Items(Vec::new())).unwrap_err(),
        "svc",
        "a",
    );
    let created = |item: &str| Reply::ItemCreated {
        item: ObjectPath::new(item),
        prompt: ObjectPath::new("/prompt/1"),
    };
    assert!(matches!(
        Collection::created_item(created("/coll/1")),
        Ok(Created::Item(item)) if item.path == ObjectPath::new("/coll/1")
    ));
    assert!(matches!(
        Collection::created_item(created("/")),
        Ok(Created::Prompt(prompt)) if prompt == ObjectPath::new("/prompt/1")
    ));
    assert!(matches!(Collection::created_item(Reply::Prompted), Err(Error::UnexpectedInput)));
    let tuple = Item::fetched_secret(Reply::Secret {
        session: ObjectPath::new("/session/1"),
        params: vec![1],
        value: vec![2],
        content_type: String::from("text/plain"),
    })
    .unwrap();
    assert_eq!(tuple.session, ObjectPath::new("/session/1"));
    assert_eq!(tuple.params, vec![1]);
    assert_eq!(tuple.value, vec![2]);
    assert_eq!(tuple.content_type, "text/plain");
    assert!(matches!(Item::fetched_secret(Reply::Prompted), Err(Error::UnexpectedInput)));
    assert_eq!(
        Item::deleted(Reply::Deleted { prompt: ObjectPath::new("/") }).unwrap(),
        ObjectPath::new("/")
    );
    assert!(matches!(Item::deleted(Reply::Prompted), Err(Error::UnexpectedInput)));
}

#[test]
fn crypto_processor_serves_both_crypto_steps() {
    let session =
        Session::new_dh(ObjectPath::new("/s"), Keypair::from_private_bytes(&[3]), vec![32]);
    let mut crypto = CryptoIoProcessor::try_new(&session).unwrap();
    let mut flow = WriteEntryFlow::new("a", Secret::new(b"hello".to_vec()), Algorithm::Dh);
    assert_eq!(crypto.process(&mut flow, CryptoIo::Encrypt), Ok(()));
    assert_ne!(flow.secret.as_ref().unwrap().expose_secret(), b"hello");
    assert_eq!(crypto.process(&mut flow, CryptoIo::Decrypt), Ok(()));
    assert_eq!(flow.secret.as_ref().unwrap().expose_secret(), b"hello");
    assert_eq!(
        crypto.process(&mut flow, CryptoIo::Decrypt),
        Err(CryptoError::DecryptSecretRustCryptoError)
    );
    assert_eq!(
        crypto.process(&mut flow, CryptoIo::Encrypt),
        Err(CryptoError::EncryptUndefinedSecretError)
    );
}

#[test]
fn processor_hands_on_crypto_failures() {
    let mut service = Service::new();
    let mut processor = processor(&mut service, Algorithm::Plain);
    let mut flow = WriteEntryFlow::new("a", Secret::new(b"hello".to_vec()), Algorithm::Dh);
    assert!(matches!(
        processor.process(&mut flow, Io::Crypto(CryptoIo::Encrypt), None),
        Turn::Failed(Error::CryptoError(CryptoError::EncryptSecretMissingKeyError))
    ));
    assert!(matches!(
        processor.process(&mut flow, Io::Crypto(CryptoIo::Decrypt), None),
        Turn::Failed(Error::CryptoError(CryptoError::DecryptUndefinedSecretError))
    ));
    let mut session = Session::new_plain(ObjectPath::new("/s"));
    session.encryption = Algorithm::Dh;
    assert!(matches!(
        IoProcessor::try_new("svc", SecretService { session }).map(|_| ()),
        Err(Error::CryptoError(CryptoError::FindPubkeyError))
    ));
}
