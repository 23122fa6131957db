use vstd::prelude::*;
use crate::error::ErrorKind;

verus! {

/// Storing the handles of a new session: refused while a client is held.
pub open spec fn install_step<C, E>(client: Option<C>, engine: Option<E>, c: C, e: E) -> (Option<C>, Option<E>, Result<(), ErrorKind>) {
    if client is Some {
        (client, engine, Err(ErrorKind::AlreadyLoggedIn))
    } else {
        (Some(c), Some(e), Ok(()))
    }
}

/// Taking the handles out for a reset: both are handed over, none is left.
pub open spec fn teardown_step<C, E>(client: Option<C>, engine: Option<E>) -> (Option<C>, Option<E>, Teardown<C, E>) {
    (None, None, Teardown { engine, client })
}

/// The top-level client cell: the handle of the live protocol connection and
/// the handle of the sync engine that was started for it.
pub struct ClientCell<C, E> {
    client: Option<C>,
    engine: Option<E>,
}

/// The handles that a reset takes out of the client cell. The sync engine
/// is to be stopped before the client is discarded.
pub struct Teardown<C, E> {
    pub engine: Option<E>,
    pub client: Option<C>,
}

impl<C, E> ClientCell<C, E> {
    /// The client handle, if a session is established.
    pub closed spec fn client(&self) -> Option<C> {
        self.client
    }

    /// The sync engine handle, if one was started.
    pub closed spec fn engine(&self) -> Option<E> {
        self.engine
    }

    /// Whether a session is established.
    pub open spec fn logged_in(&self) -> bool {
        self.client() is Some
    }

    /// An empty cell: no session.
    pub fn new() -> (r: Self)
        ensures
            r.client() is None,
            r.engine() is None,
    {
        ClientCell { client: None, engine: None }
    }

    /// Whether a session is established.
    pub fn is_logged_in(&self) -> (r: bool)
        ensures
            r == self.logged_in(),
    {
        self.client.is_some()
    }

    /// Checks, before a login does any work, that no session is established.
    pub fn check_can_login(&self) -> (r: Result<(), ErrorKind>)
        ensures
            r == (if self.logged_in() {
                Err::<(), ErrorKind>(ErrorKind::AlreadyLoggedIn)
            } else {
                Ok(())
            }),
    {
        if self.client.is_some() {
            Err(ErrorKind::AlreadyLoggedIn)
        } else {
            Ok(())
        }
    }

    /// Stores the handles of a session that a login established.
    pub fn install(&mut self, client: C, engine: E) -> (r: Result<(), ErrorKind>)
        ensures
            (final(self).client(), final(self).engine(), r) == install_step(
                old(self).client(),
                old(self).engine(),
                client,
                engine,
            ),
    {
        if self.client.is_some() {
            return Err(ErrorKind::AlreadyLoggedIn);
        }
        self.client = Some(client);
        self.engine = Some(engine);
        Ok(())
    }

    /// The sync engine, through which feed identifiers are resolved. With no
    /// session nothing resolves, and the result is `NotFound`.
    pub fn engine_ref(&self) -> (r: Result<&E, ErrorKind>)
        ensures
            self.engine() is None ==> r == Err::<&E, ErrorKind>(ErrorKind::NotFound),
            self.engine() is Some ==> r == Ok::<&E, ErrorKind>(&self.engine()->0),
    {
        match &self.engine {
            Some(e) => Ok(e),
            None => Err(ErrorKind::NotFound),
        }
    }

    /// Takes both handles out for a reset, leaving no session.
    pub fn teardown(&mut self) -> (r: Teardown<C, E>)
        ensures
            (final(self).client(), final(self).engine(), r) == teardown_step(
                old(self).client(),
                old(self).engine(),
            ),
    {
        let engine = self.engine.take();
        let client = self.client.take();
        Teardown { engine, client }
    }
}

} // verus!
