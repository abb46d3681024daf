//! The store for the one session that may be live at a time.
use vstd::prelude::*;
use crate::error::ScrapeError;

verus! {

/// Holds at most one session. A new session replaces the one before it.
pub struct ClientManager<S> {
    client: Option<S>,
}

impl<S> View for ClientManager<S> {
    type V = Option<S>;

    closed spec fn view(&self) -> Option<S> {
        self.client
    }
}

impl<S> ClientManager<S> {
    /// A store without a session.
    pub fn new() -> (r: Self)
        ensures
            r@ is None,
    {
        ClientManager { client: None }
    }

    /// Installs `client` in place of the session that was there, if any.
    pub fn set_client(&mut self, client: S)
        ensures
            final(self)@ == Some(client),
    {
        self.client = Some(client);
    }

    /// The current session, if there is one.
    pub fn get_client(&self) -> (r: Option<&S>)
        ensures
            match r {
                Some(client) => self@ == Some(*client),
                None => self@ is None,
            },
    {
        match &self.client {
            Some(client) => Some(client),
            None => None,
        }
    }

    /// Whether a session exists.
    pub fn is_initialized(&self) -> (r: bool)
        ensures
            r == self@ is Some,
    {
        self.client.is_some()
    }

    /// The current session, for an operation that cannot do without one.
    pub fn require_client(&self) -> (r: Result<&S, ScrapeError>)
        ensures
            match r {
                Ok(client) => self@ == Some(*client),
                Err(error) => self@ is None && error == ScrapeError::SessionMissing,
            },
    {
        match &self.client {
            Some(client) => Ok(client),
            None => Err(ScrapeError::SessionMissing),
        }
    }
}

} // verus!
