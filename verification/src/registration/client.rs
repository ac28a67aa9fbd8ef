//! The one session in which an inference server registers.

use vstd::prelude::*;

verus! {

/// A client that runs at most one session at a time. `T` is the session's task, which ends when it
/// is dropped.
pub struct InferenceServerRegistrationClient<T> {
    running: Option<T>,
}

impl<T> View for InferenceServerRegistrationClient<T> {
    type V = Option<T>;

    closed spec fn view(&self) -> Option<T> {
        self.running
    }
}

/// What starting a session does: one that could not be made leaves the running one as it is, and any
/// other takes its place.
pub open spec fn starts<T, E>(
    before: InferenceServerRegistrationClient<T>,
    session: Result<T, E>,
    replaced: Result<Option<T>, E>,
    after: InferenceServerRegistrationClient<T>,
) -> bool {
    match session {
        Ok(task) => replaced == Ok::<_, E>(before@) && after@ == Some(task),
        Err(error) => replaced == Err::<Option<T>, E>(error) && after == before,
    }
}

impl<T> InferenceServerRegistrationClient<T> {
    /// A client without a session.
    pub fn new() -> (client: Self)
        ensures
            client@ is None,
    {
        InferenceServerRegistrationClient { running: None }
    }

    /// Whether a session runs.
    pub fn is_running(&self) -> (running: bool)
        ensures
            running == (self@ is Some),
    {
        self.running.is_some()
    }

    /// The running session, to be waited for.
    pub fn running_mut(&mut self) -> (running: Option<&mut T>)
        ensures
            running is Some <==> old(self)@ is Some,
            running matches Some(task) ==> *task == old(self)@->0 && final(self)@ == Some(
                *final(task),
            ),
            running is None ==> final(self)@ is None,
    {
        match &mut self.running {
            Some(task) => Some(task),
            None => None,
        }
    }

    /// Gives up the session, and hands it out to be ended.
    pub fn stop(&mut self) -> (stopped: Option<T>)
        ensures
            stopped == old(self)@,
            final(self)@ is None,
    {
        self.running.take()
    }

    /// Runs a session in place of the one before, which is handed out to be ended. A session that
    /// could not be configured changes nothing.
    pub fn start<E>(&mut self, session: Result<T, E>) -> (replaced: Result<Option<T>, E>)
        ensures
            starts(*old(self), session, replaced, *final(self)),
    {
        match session {
            Err(error) => Err(error),
            Ok(task) => {
                let replaced: Option<T> = self.stop();
                self.running = Some(task);
                Ok(replaced)
            },
        }
    }
}

/// One session runs at a time: a session that starts replaces the one that ran, which is handed back to
/// be ended, and a session that cannot be made replaces nothing.
pub proof fn one_session_runs_at_a_time<T, E>(
    before: InferenceServerRegistrationClient<T>,
    session: Result<T, E>,
    replaced: Result<Option<T>, E>,
    after: InferenceServerRegistrationClient<T>,
    running: bool,
)
    requires
        starts(before, session, replaced, after),
        call_ensures(InferenceServerRegistrationClient::<T>::is_running, (&after,), running),
    ensures
        replaced is Ok <==> session is Ok,
        session is Ok ==> running && after@ == Some(session->Ok_0) && replaced->Ok_0 == before@,
        session is Err ==> after@ == before@ && replaced->Err_0 == session->Err_0 && (running
            <==> before@ is Some),
{
}

} // verus!
