//! The one backend of a process, held where every request can reach it.

use vstd::prelude::*;
use crate::dispatch::{
    answer, answers_command, answers_query, execute, Command, Query, Response,
};
use crate::error::ProviderError;
use crate::provider::Provider;

verus! {

/// Holds the backend for the life of the process. Nothing replaces the
/// backend once it is in.
pub struct ProviderState<P> {
    prov: Box<P>,
}

impl<P: Provider> ProviderState<P> {
    /// The backend held.
    pub closed spec fn provider(&self) -> P {
        *self.prov
    }

    /// Holds the backend given.
    pub fn new(prov: Box<P>) -> (state: ProviderState<P>)
        ensures
            state.provider() == *prov,
    {
        ProviderState { prov }
    }

    /// Holds the backend that a factory made; fails exactly where the
    /// factory failed, with the factory's error.
    pub fn from_factory(made: Result<P, ProviderError>) -> (state: Result<
        ProviderState<P>,
        ProviderError,
    >)
        ensures
            made matches Ok(prov) ==> state is Ok && state->Ok_0.provider() == prov,
            made matches Err(e) ==> state is Err && state->Err_0 == e,
    {
        match made {
            Ok(prov) => Ok(ProviderState { prov: Box::new(prov) }),
            Err(e) => Err(e),
        }
    }

    /// The backend, to read from for the length of one request.
    pub fn acquire(&self) -> (prov: &P)
        ensures
            *prov == self.provider(),
    {
        &*self.prov
    }

    /// Answers a query from the backend, which stays as it is.
    pub fn query(&self, query: Query) -> (resp: Response)
        ensures
            answers_query(&self.provider(), query, resp),
    {
        answer(self.acquire(), query)
    }

    /// Carries out a command on the backend.
    pub fn command(&mut self, command: Command) -> (resp: Response)
        ensures
            answers_command(
                old(self).provider().pods(),
                final(self).provider().pods(),
                command,
                resp,
            ),
    {
        execute(&mut *self.prov, command)
    }
}

} // verus!
