//! The decisions of the externally triggered request handlers: how a
//! creation request becomes a new record, how an update request is merged
//! into an existing record, and when a lookup fails the whole request.
//! The HTTP and store plumbing around them lives outside the library.

use vstd::prelude::*;
use crate::errors::AppError;
use crate::server::{NewServer, Server};

verus! {

/// The body of a request that creates a server.
#[derive(Debug, Clone)]
pub struct NewServerBody {
    pub name: String,
    pub port: i16,
    pub limit_fps: i16,
    pub extra_flags: Vec<String>,
}

/// The body of a request that updates a server's configuration.
#[derive(Debug, Clone)]
pub struct UpdateServerBody {
    pub name: Option<String>,
}

impl NewServerBody {
    /// The record a creation request asks the store for: the request's
    /// attributes, an empty world, and no modpack.
    pub fn into_new_server(self) -> (r: NewServer)
        ensures
            r.name == self.name,
            r.port == self.port,
            r.limit_fps == self.limit_fps,
            r.extra_flags == self.extra_flags,
            r.world@ == "empty"@,
            r.modpack is None,
    {
        NewServer {
            name: self.name,
            port: self.port,
            limit_fps: self.limit_fps,
            extra_flags: self.extra_flags,
            world: "empty".to_owned(),
            modpack: None,
        }
    }
}

impl Server {
    /// The record after an update request: the name is replaced where the
    /// request carries one; everything else is kept.
    pub fn apply_update(self, body: UpdateServerBody) -> (r: Server)
        ensures
            body.name matches Some(n) ==> r.name == n,
            body.name is None ==> r.name == self.name,
            r.id == self.id,
            r.port == self.port,
            r.limit_fps == self.limit_fps,
            r.extra_flags == self.extra_flags,
            r.world == self.world,
            r.modpack == self.modpack,
    {
        let mut updated = self;
        if let Some(n) = body.name {
            updated.name = n;
        }
        updated
    }
}

/// Turns the store's answer to a lookup into the handler's result: the
/// record where one exists, the not-found error where none does.
pub fn require_found(looked_up: Option<Server>) -> (r: Result<Server, AppError>)
    ensures
        looked_up matches Some(s) ==> (r matches Ok(v) && v == s),
        looked_up is None ==> (r matches Err(e) && e == AppError::NotFound),
{
    match looked_up {
        Some(s) => Ok(s),
        None => Err(AppError::NotFound),
    }
}

} // verus!
