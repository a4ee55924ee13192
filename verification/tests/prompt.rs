use keyring_flows::secret_service::common::{PROMPT_TICKS, PROMPT_TICK_SECS};
use keyring_flows::secret_service::error::Error;
use keyring_flows::secret_service::message::{Call, Event, Reply, SignalResult, Turn};
use keyring_flows::secret_service::path::ObjectPath;
use keyring_flows::secret_service::prompt::{complete, Prompt, PromptState};

fn path() -> ObjectPath {
    ObjectPath::new("/prompt/1")
}

fn completed(dismissed: bool, result: SignalResult) -> Option<Reply> {
    Some(Reply::Processed(Event::Completed { dismissed, result }))
}

/// A prompt that has subscribed, shown itself, and waits for the first time.
fn waiting() -> Prompt {
    let mut prompt = Prompt::new(path());
    match prompt.resume(None) {
        Turn::Call(Call::MatchSignal { prompt }) => assert_eq!(prompt, path()),
        other => panic!("unexpected {:?}", other),
    }
    match prompt.resume(Some(Reply::SignalMatched)) {
        Turn::Call(Call::Prompt { prompt, window_id }) => {
            assert_eq!(prompt, path());
            assert_eq!(window_id, "");
        }
        other => panic!("unexpected {:?}", other),
    }
    match prompt.resume(Some(Reply::Prompted)) {
        Turn::Call(Call::Process { seconds }) => assert_eq!(seconds, 1),
        other => panic!("unexpected {:?}", other),
    }
    prompt
}

fn expect_stop(turn: Turn<ObjectPath>) {
    match turn {
        Turn::Call(Call::MatchStop { prompt }) => assert_eq!(prompt, path()),
        other => panic!("unexpected {:?}", other),
    }
}

#[test]
fn prompt_limits_are_five_minutes_of_one_second_ticks() {
    assert_eq!(PROMPT_TICKS, 300);
    assert_eq!(PROMPT_TICK_SECS, 1);
}

#[test]
fn completed_prompt_returns_the_path_it_names() {
    let mut prompt = waiting();
    expect_stop(prompt.resume(completed(false, SignalResult::Path(ObjectPath::new("/x")))));
    match prompt.resume(Some(Reply::MatchStopped)) {
        Turn::Done(path) => assert_eq!(path, ObjectPath::new("/x")),
        other => panic!("unexpected {:?}", other),
    }
    assert!(matches!(prompt.state, PromptState::Finished));
}

#[test]
fn dismissed_prompt_fails_as_dismissed() {
    let mut prompt = waiting();
    expect_stop(prompt.resume(completed(true, SignalResult::Path(ObjectPath::new("/x")))));
    assert!(matches!(
        prompt.resume(Some(Reply::MatchStopped)),
        Turn::Failed(Error::PromptDismissedError)
    ));
}

#[test]
fn prompt_times_out_after_three_hundred_idle_ticks() {
    let mut prompt = waiting();
    for tick in 1..300 {
        match prompt.resume(Some(Reply::Processed(Event::Idle))) {
            Turn::Call(Call::Process { seconds }) => assert_eq!(seconds, 1),
            other => panic!("unexpected {:?} at tick {}", other, tick),
        }
    }
    expect_stop(prompt.resume(Some(Reply::Processed(Event::Idle))));
    assert!(matches!(
        prompt.resume(Some(Reply::MatchStopped)),
        Turn::Failed(Error::PromptTimeoutError)
    ));
}

#[test]
fn busy_ticks_count_towards_the_timeout() {
    let mut prompt = waiting();
    for _ in 1..300 {
        assert!(matches!(
            prompt.resume(Some(Reply::Processed(Event::Busy))),
            Turn::Call(Call::Process { .. })
        ));
    }
    assert!(matches!(prompt.state, PromptState::Waiting { ticks: 299 }));
    expect_stop(prompt.resume(Some(Reply::Processed(Event::Busy))));
}

#[test]
fn completion_at_the_last_tick_still_counts() {
    let mut prompt = waiting();
    for _ in 1..300 {
        prompt.resume(Some(Reply::Processed(Event::Idle)));
    }
    expect_stop(prompt.resume(completed(false, SignalResult::Path(ObjectPath::new("/x")))));
    assert!(matches!(prompt.resume(Some(Reply::MatchStopped)), Turn::Done(_)));
}

#[test]
fn completion_that_names_no_path_fails() {
    let mut prompt = waiting();
    expect_stop(prompt.resume(completed(false, SignalResult::NotAPath)));
    assert!(matches!(
        prompt.resume(Some(Reply::MatchStopped)),
        Turn::Failed(Error::ParsePromptPathError)
    ));
    let mut prompt = waiting();
    expect_stop(prompt.resume(completed(false, SignalResult::Missing)));
    assert!(matches!(
        prompt.resume(Some(Reply::MatchStopped)),
        Turn::Failed(Error::ParsePromptSignalError)
    ));
}

#[test]
fn complete_reads_the_signal() {
    assert!(matches!(
        complete(true, SignalResult::Missing),
        Err(Error::PromptDismissedError)
    ));
    assert!(matches!(
        complete(false, SignalResult::Missing),
        Err(Error::ParsePromptSignalError)
    ));
    assert!(matches!(
        complete(false, SignalResult::NotAPath),
        Err(Error::ParsePromptPathError)
    ));
    assert_eq!(
        complete(false, SignalResult::Path(ObjectPath::new("/x"))).unwrap(),
        ObjectPath::new("/x")
    );
}

#[test]
fn disconnection_and_failed_waits_end_as_timeouts() {
    let mut prompt = waiting();
    expect_stop(prompt.resume(Some(Reply::Processed(Event::Disconnected))));
    assert!(matches!(
        prompt.resume(Some(Reply::MatchStopped)),
        Turn::Failed(Error::PromptTimeoutError)
    ));
    let mut prompt = waiting();
    expect_stop(prompt.resume(Some(Reply::Failed(String::from("bus is gone")))));
    assert!(matches!(
        prompt.resume(Some(Reply::MatchStopped)),
        Turn::Failed(Error::PromptTimeoutError)
    ));
}

#[test]
fn failed_subscription_ends_the_prompt_at_once() {
    let mut prompt = Prompt::new(path());
    prompt.resume(None);
    match prompt.resume(Some(Reply::Failed(String::from("no match")))) {
        Turn::Failed(Error::PromptMatchSignalError(cause)) => assert_eq!(cause, "no match"),
        other => panic!("unexpected {:?}", other),
    }
    assert!(matches!(prompt.state, PromptState::Finished));
}

#[test]
fn failed_prompt_call_still_ends_the_subscription() {
    let mut prompt = Prompt::new(path());
    prompt.resume(None);
    prompt.resume(Some(Reply::SignalMatched));
    expect_stop(prompt.resume(Some(Reply::Failed(String::from("no prompt")))));
    match prompt.resume(Some(Reply::MatchStopped)) {
        Turn::Failed(Error::PromptError(cause)) => assert_eq!(cause, "no prompt"),
        other => panic!("unexpected {:?}", other),
    }
}

#[test]
fn failed_end_of_subscription_is_reported() {
    let mut prompt = waiting();
    expect_stop(prompt.resume(completed(false, SignalResult::Path(ObjectPath::new("/x")))));
    match prompt.resume(Some(Reply::Failed(String::from("no stop")))) {
        Turn::Failed(Error::PromptMatchStopError(cause)) => assert_eq!(cause, "no stop"),
        other => panic!("unexpected {:?}", other),
    }
}

#[test]
fn prompt_reports_misuse() {
    let mut prompt = Prompt::new(path());
    assert!(matches!(
        prompt.resume(Some(Reply::Prompted)),
        Turn::Failed(Error::UnexpectedInput)
    ));
    assert!(matches!(prompt.state, PromptState::Finished));
    assert!(matches!(
        prompt.resume(Some(Reply::SignalMatched)),
        Turn::Failed(Error::UnexpectedInput)
    ));
    assert!(matches!(prompt.resume(None), Turn::Failed(Error::UnavailableInput)));

    let mut prompt = waiting();
    assert!(matches!(prompt.resume(None), Turn::Failed(Error::UnavailableInput)));
    assert!(matches!(prompt.state, PromptState::Waiting { ticks: 0 }));
    assert!(matches!(
        prompt.resume(Some(Reply::MatchStopped)),
        Turn::Failed(Error::UnexpectedInput)
    ));
    assert!(matches!(
        prompt.resume(Some(Reply::Processed(Event::Idle))),
        Turn::Failed(Error::UnexpectedInput)
    ));
}
