//! Prompts: what the service asks the user before it goes on, and how the
//! library waits for the answer.

use vstd::prelude::*;
use vstd::string::StringExecFns;
use crate::secret_service::common::{PROMPT_TICKS, PROMPT_TICK_SECS};
use crate::secret_service::error::{Error, ErrorView};
use crate::secret_service::message::{Call, CallView, Event, Reply, SignalResult, Turn, TurnView};
use crate::secret_service::path::ObjectPath;

verus! {

/// Where a prompt stands.
#[derive(Debug)]
pub enum PromptState {
    /// Nothing was asked of the driver yet.
    Start,
    /// The subscription to the completion was asked for.
    Matching,
    /// The prompt was asked to show itself.
    Prompting,
    /// A wait for the completion is under way; `ticks` waits are over.
    Waiting { ticks: u32 },
    /// The end of the subscription was asked for; `result` is what the
    /// prompt came to.
    Stopping { result: Result<ObjectPath, Error> },
    /// The prompt has ended.
    Finished,
}

/// Drives one prompt: subscribes to its completion, shows it, waits for the
/// completion in ticks of one second, and ends the subscription.
#[derive(Debug)]
pub struct Prompt {
    pub path: ObjectPath,
    pub state: PromptState,
}

/// What a completed prompt comes to: the path that it names, unless it was
/// dismissed or names none.
pub open spec fn completion(dismissed: bool, result: SignalResult) -> Result<ObjectPath, Error> {
    if dismissed {
        Err(Error::PromptDismissedError)
    } else {
        match result {
            SignalResult::Path(path) => Ok(path),
            SignalResult::NotAPath => Err(Error::ParsePromptPathError),
            SignalResult::Missing => Err(Error::ParsePromptSignalError),
        }
    }
}

/// What a completed prompt comes to.
pub fn complete(dismissed: bool, result: SignalResult) -> (outcome: Result<ObjectPath, Error>)
    ensures
        outcome == completion(dismissed, result),
{
    if dismissed {
        Err(Error::PromptDismissedError)
    } else {
        match result {
            SignalResult::Path(path) => Ok(path),
            SignalResult::NotAPath => Err(Error::ParsePromptPathError),
            SignalResult::Missing => Err(Error::ParsePromptSignalError),
        }
    }
}

impl Prompt {
    /// The call that ends the subscription, and the state that waits for
    /// its return with `result` in hand.
    pub open spec fn stopping(self, result: Result<ObjectPath, Error>) -> (Self, TurnView<ObjectPath>) {
        (
            Prompt { path: self.path, state: PromptState::Stopping { result } },
            TurnView::Call(CallView::MatchStop { prompt: self.path@ }),
        )
    }

    /// The end of the prompt with `turn`.
    pub open spec fn finished(self, turn: TurnView<ObjectPath>) -> (Self, TurnView<ObjectPath>) {
        (Prompt { path: self.path, state: PromptState::Finished }, turn)
    }

    /// What `resume` does: the prompt afterwards, and what it returns.
    pub open spec fn resumed(self, reply: Option<Reply>) -> (Self, TurnView<ObjectPath>) {
        match (self.state, reply) {
            (PromptState::Start, None) => (
                Prompt { path: self.path, state: PromptState::Matching },
                TurnView::Call(CallView::MatchSignal { prompt: self.path@ }),
            ),
            (_, None) => (self, TurnView::Failed(ErrorView::UnavailableInput)),
            (PromptState::Matching, Some(Reply::SignalMatched)) => (
                Prompt { path: self.path, state: PromptState::Prompting },
                TurnView::Call(CallView::Prompt { prompt: self.path@, window_id: ""@ }),
            ),
            (PromptState::Matching, Some(Reply::Failed(cause))) => self.finished(
                TurnView::Failed(Error::PromptMatchSignalError(cause)@),
            ),
            (PromptState::Prompting, Some(Reply::Prompted)) => (
                Prompt { path: self.path, state: PromptState::Waiting { ticks: 0 } },
                TurnView::Call(CallView::Process { seconds: PROMPT_TICK_SECS }),
            ),
            (PromptState::Prompting, Some(Reply::Failed(cause))) => self.stopping(
                Err(Error::PromptError(cause)),
            ),
            (PromptState::Waiting { ticks }, Some(Reply::Processed(event))) => match event {
                Event::Completed { dismissed, result } => self.stopping(
                    completion(dismissed, result),
                ),
                Event::Disconnected => self.stopping(Err(Error::PromptTimeoutError)),
                _ => if ticks + 1 < PROMPT_TICKS {
                    (
                        Prompt {
                            path: self.path,
                            state: PromptState::Waiting { ticks: (ticks + 1) as u32 },
                        },
                        TurnView::Call(CallView::Process { seconds: PROMPT_TICK_SECS }),
                    )
                } else {
                    self.stopping(Err(Error::PromptTimeoutError))
                },
            },
            (PromptState::Waiting { ticks }, Some(Reply::Failed(_))) => self.stopping(
                Err(Error::PromptTimeoutError),
            ),
            (PromptState::Stopping { result }, Some(Reply::MatchStopped)) => match result {
                Ok(path) => self.finished(TurnView::Done(path)),
                Err(error) => self.finished(TurnView::Failed(error@)),
            },
            (PromptState::Stopping { result }, Some(Reply::Failed(cause))) => self.finished(
                TurnView::Failed(Error::PromptMatchStopError(cause)@),
            ),
            (_, Some(_)) => self.finished(TurnView::Failed(ErrorView::UnexpectedInput)),
        }
    }

    /// The prompt at `path`, before anything was asked of the driver.
    pub fn new(path: ObjectPath) -> (prompt: Self)
        ensures
            prompt.path == path,
            prompt.state == PromptState::Start,
    {
        Prompt { path, state: PromptState::Start }
    }

    fn stop(&mut self, result: Result<ObjectPath, Error>) -> (turn: Turn<ObjectPath>)
        ensures
            (*final(self), turn@) == old(self).stopping(result),
    {
        self.state = PromptState::Stopping { result };
        Turn::Call(Call::MatchStop { prompt: self.path.clone() })
    }

    /// Moves the prompt on by what the driver hands in: nothing at first,
    /// then what each call brought.
    pub fn resume(&mut self, reply: Option<Reply>) -> (turn: Turn<ObjectPath>)
        ensures
            (*final(self), turn@) == old(self).resumed(reply),
    {
        let mut state = PromptState::Finished;
        core::mem::swap(&mut self.state, &mut state);
        match (state, reply) {
            (PromptState::Start, None) => {
                self.state = PromptState::Matching;
                Turn::Call(Call::MatchSignal { prompt: self.path.clone() })
            },
            (state, None) => {
                self.state = state;
                Turn::Failed(Error::UnavailableInput)
            },
            (PromptState::Matching, Some(Reply::SignalMatched)) => {
                self.state = PromptState::Prompting;
                Turn::Call(
                    Call::Prompt { prompt: self.path.clone(), window_id: String::from_str("") },
                )
            },
            (PromptState::Matching, Some(Reply::Failed(cause))) => {
                Turn::Failed(Error::PromptMatchSignalError(cause))
            },
            (PromptState::Prompting, Some(Reply::Prompted)) => {
                self.state = PromptState::Waiting { ticks: 0 };
                Turn::Call(Call::Process { seconds: PROMPT_TICK_SECS })
            },
            (PromptState::Prompting, Some(Reply::Failed(cause))) => {
                self.stop(Err(Error::PromptError(cause)))
            },
            (PromptState::Waiting { ticks }, Some(Reply::Processed(event))) => match event {
                Event::Completed { dismissed, result } => {
                    let outcome = complete(dismissed, result);
                    self.stop(outcome)
                },
                Event::Disconnected => self.stop(Err(Error::PromptTimeoutError)),
                _ => {
                    if ticks < PROMPT_TICKS - 1 {
                        self.state = PromptState::Waiting { ticks: ticks + 1 };
                        Turn::Call(Call::Process { seconds: PROMPT_TICK_SECS })
                    } else {
                        self.stop(Err(Error::PromptTimeoutError))
                    }
                },
            },
            (PromptState::Waiting { ticks }, Some(Reply::Failed(_))) => {
                self.stop(Err(Error::PromptTimeoutError))
            },
            (PromptState::Stopping { result }, Some(Reply::MatchStopped)) => match result {
                Ok(path) => Turn::Done(path),
                Err(error) => Turn::Failed(error),
            },
            (PromptState::Stopping { result }, Some(Reply::Failed(cause))) => {
                Turn::Failed(Error::PromptMatchStopError(cause))
            },
            (_, Some(_)) => Turn::Failed(Error::UnexpectedInput),
        }
    }
}

impl Prompt {
    /// The prompt after `count` more waits in which the completion did not
    /// arrive.
    pub open spec fn after_idle_waits(self, count: nat) -> Self
        decreases count,
    {
        if count == 0 {
            self
        } else {
            self.resumed(Some(Reply::Processed(Event::Idle))).0.after_idle_waits((count - 1) as nat)
        }
    }

    /// A prompt that has ended stays ended: whatever is handed in, it
    /// reports a misuse and asks for nothing.
    pub proof fn lemma_finished_stays_finished(self, reply: Option<Reply>)
        requires
            self.state == PromptState::Finished,
        ensures
            self.resumed(reply).0 == self,
            self.resumed(reply).1 is Failed,
    {
    }

    /// An answer that was not asked for ends the prompt with the report of
    /// an unexpected input, and every later answer meets the same report.
    pub proof fn lemma_unexpected_input_stays(self, reply: Reply, later: Reply)
        requires
            self.resumed(Some(reply)).1 == TurnView::<ObjectPath>::Failed(ErrorView::UnexpectedInput),
        ensures
            self.resumed(Some(reply)).0.state == PromptState::Finished,
            self.resumed(Some(reply)).0.resumed(Some(later)).1 == TurnView::<ObjectPath>::Failed(ErrorView::UnexpectedInput),
    {
    }

    /// While the subscription stands, whatever the pending call brings, the
    /// prompt goes on to wait or to end the subscription: it never ends
    /// with the subscription left standing.
    pub proof fn lemma_subscription_is_ended(self, reply: Reply)
        requires
            match self.state {
                PromptState::Prompting => reply is Prompted || reply is Failed,
                PromptState::Waiting { .. } => reply is Processed || reply is Failed,
                _ => false,
            },
        ensures
            self.resumed(Some(reply)).1 is Call,
            self.resumed(Some(reply)).0.state is Waiting || (self.resumed(Some(reply)).0.state
                is Stopping && self.resumed(Some(reply)).1 == TurnView::<ObjectPath>::Call(
                CallView::MatchStop { prompt: self.path@ },
            )),
    {
    }

    /// A prompt ends with a path only where the subscription was ended and
    /// the completion named that path.
    pub proof fn lemma_done_after_stop(self, reply: Option<Reply>, path: ObjectPath)
        requires
            self.resumed(reply).1 == TurnView::Done(path),
        ensures
            self.state == (PromptState::Stopping { result: Ok(path) }),
            reply == Some(Reply::MatchStopped),
            self.resumed(reply).0.state == PromptState::Finished,
    {
    }

    /// Waits in which nothing arrives are counted, one by one, for as long
    /// as the count stays under the limit.
    pub proof fn lemma_idle_waits_are_counted(self, ticks: u32, count: nat)
        requires
            self.state == (PromptState::Waiting { ticks }),
            ticks + count < PROMPT_TICKS,
        ensures
            self.after_idle_waits(count) == (Prompt {
                path: self.path,
                state: PromptState::Waiting { ticks: (ticks + count) as u32 },
            }),
        decreases count,
    {
        if count > 0 {
            let next = self.resumed(Some(Reply::Processed(Event::Idle))).0;
            next.lemma_idle_waits_are_counted((ticks + 1) as u32, (count - 1) as nat);
        }
    }

    /// A prompt that is not completed is given up at the three hundredth
    /// wait: the subscription is ended, and the timeout is what is kept.
    pub proof fn lemma_times_out(self)
        requires
            self.state == (PromptState::Waiting { ticks: 0 }),
        ensures
            self.after_idle_waits(299).state == (PromptState::Waiting { ticks: 299 }),
            self.after_idle_waits(299).resumed(Some(Reply::Processed(Event::Idle)))
                == self.stopping(Err(Error::PromptTimeoutError)),
    {
        self.lemma_idle_waits_are_counted(0, 299);
    }
}

} // verus!
