//! What the agent is made of when it starts, and how it answers a request.

use vstd::prelude::*;
use crate::config::{address_of, chosen_port, listen_address, listen_port};
use crate::dispatch::{
    answers_command, answers_query, complete, request_of, respond, response_of, validate,
    Params, Request, Response,
};
use crate::error::{ErrorKind, ProviderError};
use crate::provider::Provider;
use crate::route::{resolve, route_of, setup_route_map, table, Method, Operation};
use crate::state::ProviderState;

verus! {

/// A server ready to listen: the backend it answers from, the routes it
/// offers and the address it binds.
pub struct Server<P> {
    pub state: ProviderState<P>,
    pub routes: Vec<Operation>,
    pub address: String,
}

/// The text of an optional setting.
pub open spec fn setting_text(setting: Option<&str>) -> Option<Seq<char>> {
    match setting {
        Some(s) => Some(s@),
        None => None,
    }
}

/// Puts a server together: the backend behind its handle, every route of the
/// table, and the address of every interface at the configured port.
pub fn start_server<T: Provider>(prov: Box<T>, port_setting: Option<&str>) -> (server: Server<T>)
    ensures
        server.state.provider() == *prov,
        server.routes@ == table(),
        server.address@ == address_of(chosen_port(setting_text(port_setting))),
{
    let routes = setup_route_map();
    let state = ProviderState::new(prov);
    let port = listen_port(port_setting);
    Server { state, routes, address: listen_address(port) }
}

/// Whether `resp` is the answer to a request of the given method and path
/// with the given parameters, on a backend that went from `before` to
/// `after`: nothing where no route matches; a refusal as `Invalid`, with the
/// backend untouched, where a parameter is missing; the backend's answer
/// otherwise.
pub open spec fn answers<P: Provider>(
    before: &P,
    after: &P,
    method: Method,
    path: Seq<char>,
    params: Params,
    resp: Option<Response>,
) -> bool {
    match route_of(method, path) {
        None => resp is None && after == before,
        Some(op) => {
            &&& resp is Some
            &&& if !complete(op, params) {
                &&& after == before
                &&& resp->Some_0.status == 400
                &&& resp->Some_0.body is Failure
                &&& resp->Some_0.body->Failure_0 == ErrorKind::Invalid
            } else {
                match request_of(op, params) {
                    Request::Command(command) => answers_command(
                        before.pods(),
                        after.pods(),
                        command,
                        resp->Some_0,
                    ),
                    Request::Query(query) => after == before && answers_query(
                        before,
                        query,
                        resp->Some_0,
                    ),
                }
            }
        },
    }
}

impl<P: Provider> Server<P> {
    /// Answers one request: resolves its route, checks its parameters, asks
    /// the backend and answers the outcome. `None` where no route matches.
    pub fn handle(&mut self, method: Method, path: &str, params: Params) -> (resp: Option<
        Response,
    >)
        ensures
            answers(
                &old(self).state.provider(),
                &final(self).state.provider(),
                method,
                path@,
                params,
                resp,
            ),
            final(self).routes == old(self).routes,
            final(self).address == old(self).address,
    {
        match resolve(method, path) {
            None => None,
            Some(op) => match validate(op, params) {
                Err(e) => Some(respond(Err(e))),
                Ok(Request::Command(command)) => Some(self.state.command(command)),
                Ok(Request::Query(query)) => Some(self.state.query(query)),
            },
        }
    }
}

} // verus!
