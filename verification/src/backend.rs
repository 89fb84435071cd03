//! The backend as the command line client sees it: where it is, how to
//! sign a request, and how often to try.

use vstd::prelude::*;
use vstd::string::StringExecFns;
use crate::cli::CliBackend;
use crate::error::CliError;
use crate::text::text_of;
use crate::web::join_url;
use crate::web::joined_url;
use crate::web::parse_url;
use crate::web::parsed_url;

verus! {

/// The environment variable that holds the API token.
pub const BENCHER_API_TOKEN: &'static str = "BENCHER_API_TOKEN";

/// The environment variable that holds the host.
pub const BENCHER_HOST: &'static str = "BENCHER_HOST";

/// The host where none is given.
pub const DEFAULT_HOST: &'static str = "https://api.bencher.dev";

/// How often a request is tried where nothing else is said.
pub const DEFAULT_ATTEMPTS: usize = 3;

/// The seconds between two tries where nothing else is said.
pub const DEFAULT_RETRY_AFTER: u64 = 1;

/// The backend: its URL, the token to sign with, and the tries of a
/// request.
#[derive(Debug, Clone, PartialEq, Eq)]
pub struct Backend {
    /// The serialization of the URL of the host.
    pub host: String,
    pub token: Option<String>,
    pub attempts: Option<usize>,
    pub retry_after: Option<u64>,
}

/// The kind of a request.
#[derive(Debug, Clone, Copy, PartialEq, Eq, Structural)]
pub enum Method {
    Get,
    Post,
    Put,
    Patch,
    Delete,
}

/// A request, ready to be sent: where to, and the credentials to show.
#[derive(Debug, Clone, PartialEq, Eq)]
pub struct Request {
    pub method: Method,
    pub url: String,
    /// The value of the header `Authorization`.
    pub authorization: Option<String>,
}

/// What to do next about a request.
#[derive(Debug, Clone, Copy, PartialEq, Eq, Structural)]
pub enum SendStep {
    /// Send it now.
    Send,
    /// Wait this many seconds, then send it.
    Wait(u64),
    /// Give up: every try failed, this many in all.
    GiveUp(usize),
}

/// The tries of one request.
#[derive(Debug, Clone, Copy, PartialEq, Eq, Structural)]
pub struct Attempts {
    /// How often the request is tried at most.
    pub attempts: usize,
    /// The seconds between two tries.
    pub retry_after: u64,
    /// How many tries have failed.
    pub failed: usize,
}

/// The text of the host: the argument where there is one, else what the
/// environment holds, else the default.
pub open spec fn chosen_host(host: Option<String>, env_host: Option<String>) -> Seq<char> {
    match host {
        Some(h) => h@,
        None => match env_host {
            Some(h) => h@,
            None => DEFAULT_HOST@,
        },
    }
}

/// The token: the argument where there is one, else what the environment
/// holds.
pub open spec fn chosen_token(token: Option<String>, env_token: Option<String>) -> Option<
    Seq<char>,
> {
    match token {
        Some(t) => Some(t@),
        None => match env_token {
            Some(t) => Some(t@),
            None => None,
        },
    }
}

/// The header that shows a token.
pub open spec fn bearer(token: Seq<char>) -> Seq<char> {
    "Bearer "@ + token
}

/// Chooses the host and reads its URL. `env_host` is what the environment
/// holds under `BENCHER_HOST`.
pub fn unwrap_host(host: Option<String>, env_host: Option<String>) -> (url: Result<String, CliError>)
    ensures
        match url {
            Ok(u) => parsed_url(chosen_host(host, env_host)) == Some(u@),
            Err(e) => parsed_url(chosen_host(host, env_host)) is None && e is Url,
        },
{
    let text: String = match host {
        Some(h) => h,
        None => match env_host {
            Some(h) => h,
            None => DEFAULT_HOST.to_owned(),
        },
    };
    match parse_url(text.as_str()) {
        Ok(u) => Ok(u),
        Err(e) => Err(CliError::Url(e)),
    }
}

/// Chooses the token. `env_token` is what the environment holds under
/// `BENCHER_API_TOKEN`.
pub fn map_token(token: Option<String>, env_token: Option<String>) -> (chosen: Option<String>)
    ensures
        text_of(chosen) == chosen_token(token, env_token),
{
    match token {
        Some(t) => Some(t),
        None => env_token,
    }
}

impl Backend {
    /// The backend that the arguments and the environment describe.
    pub fn try_from(backend: CliBackend, env_host: Option<String>, env_token: Option<String>) -> (
    made: Result<Backend, CliError>)
        ensures
            match made {
                Ok(b) => {
                    &&& parsed_url(chosen_host(backend.host, env_host)) == Some(b.host@)
                    &&& text_of(b.token) == chosen_token(backend.token, env_token)
                    &&& b.attempts == backend.attempts
                    &&& b.retry_after == backend.retry_after
                },
                Err(e) => parsed_url(chosen_host(backend.host, env_host)) is None && e is Url,
            },
    {
        let CliBackend { host, token, attempts, retry_after } = backend;
        match unwrap_host(host, env_host) {
            Ok(url) => Ok(
                Backend { host: url, token: map_token(token, env_token), attempts, retry_after },
            ),
            Err(e) => Err(e),
        }
    }

    /// The request of the given kind for a path of the backend: its URL is
    /// the path joined to the host, and it is signed with the token where
    /// there is one.
    pub fn request(&self, method: Method, path: &str) -> (request: Result<Request, CliError>)
        ensures
            match request {
                Ok(r) => {
                    &&& r.method == method
                    &&& joined_url(self.host@, path@) == Some(r.url@)
                    &&& text_of(r.authorization) == match self.token {
                        Some(t) => Some(bearer(t@)),
                        None => None,
                    }
                },
                Err(e) => joined_url(self.host@, path@) is None && e is Url,
            },
    {
        let url: String = match join_url(self.host.as_str(), path) {
            Ok(u) => u,
            Err(e) => {
                return Err(CliError::Url(e));
            },
        };
        let authorization: Option<String> = match &self.token {
            Some(token) => Some("Bearer ".to_owned().concat(token.as_str())),
            None => None,
        };
        Ok(Request { method, url, authorization })
    }

    /// The request that reads a path.
    pub fn get(&self, path: &str) -> (request: Result<Request, CliError>)
        ensures
            match request {
                Ok(r) => {
                    &&& r.method == Method::Get
                    &&& joined_url(self.host@, path@) == Some(r.url@)
                    &&& text_of(r.authorization) == match self.token {
                        Some(t) => Some(bearer(t@)),
                        None => None,
                    }
                },
                Err(e) => joined_url(self.host@, path@) is None && e is Url,
            },
    {
        self.request(Method::Get, path)
    }

    /// The request that posts to a path.
    pub fn post(&self, path: &str) -> (request: Result<Request, CliError>)
        ensures
            match request {
                Ok(r) => {
                    &&& r.method == Method::Post
                    &&& joined_url(self.host@, path@) == Some(r.url@)
                    &&& text_of(r.authorization) == match self.token {
                        Some(t) => Some(bearer(t@)),
                        None => None,
                    }
                },
                Err(e) => joined_url(self.host@, path@) is None && e is Url,
            },
    {
        self.request(Method::Post, path)
    }

    /// The request that puts to a path.
    pub fn put(&self, path: &str) -> (request: Result<Request, CliError>)
        ensures
            match request {
                Ok(r) => {
                    &&& r.method == Method::Put
                    &&& joined_url(self.host@, path@) == Some(r.url@)
                    &&& text_of(r.authorization) == match self.token {
                        Some(t) => Some(bearer(t@)),
                        None => None,
                    }
                },
                Err(e) => joined_url(self.host@, path@) is None && e is Url,
            },
    {
        self.request(Method::Put, path)
    }

    /// The request that patches a path.
    pub fn patch(&self, path: &str) -> (request: Result<Request, CliError>)
        ensures
            match request {
                Ok(r) => {
                    &&& r.method == Method::Patch
                    &&& joined_url(self.host@, path@) == Some(r.url@)
                    &&& text_of(r.authorization) == match self.token {
                        Some(t) => Some(bearer(t@)),
                        None => None,
                    }
                },
                Err(e) => joined_url(self.host@, path@) is None && e is Url,
            },
    {
        self.request(Method::Patch, path)
    }

    /// The request that deletes a path.
    pub fn delete(&self, path: &str) -> (request: Result<Request, CliError>)
        ensures
            match request {
                Ok(r) => {
                    &&& r.method == Method::Delete
                    &&& joined_url(self.host@, path@) == Some(r.url@)
                    &&& text_of(r.authorization) == match self.token {
                        Some(t) => Some(bearer(t@)),
                        None => None,
                    }
                },
                Err(e) => joined_url(self.host@, path@) is None && e is Url,
            },
    {
        self.request(Method::Delete, path)
    }

    /// The tries of a request to this backend, none of them made yet.
    pub fn send(&self) -> (tries: Attempts)
        ensures
            tries.failed == 0,
            tries.attempts == match self.attempts {
                Some(n) => n,
                None => DEFAULT_ATTEMPTS,
            },
            tries.retry_after == match self.retry_after {
                Some(s) => s,
                None => DEFAULT_RETRY_AFTER,
            },
    {
        Attempts {
            attempts: match self.attempts {
                Some(n) => n,
                None => DEFAULT_ATTEMPTS,
            },
            retry_after: match self.retry_after {
                Some(s) => s,
                None => DEFAULT_RETRY_AFTER,
            },
            failed: 0,
        }
    }
}

impl Attempts {
    /// What to do next: send at once the first time, wait before each
    /// further try, and give up when as many tries failed as are allowed.
    pub open spec fn step(self) -> SendStep {
        if self.failed >= self.attempts {
            SendStep::GiveUp(self.attempts)
        } else if self.failed == 0 {
            SendStep::Send
        } else {
            SendStep::Wait(self.retry_after)
        }
    }

    /// The tries after one more failed.
    pub open spec fn after_failure(self) -> Attempts {
        if self.failed < self.attempts {
            Attempts { failed: (self.failed + 1) as usize, ..self }
        } else {
            self
        }
    }

    /// How many tries are left.
    pub open spec fn remaining(self) -> nat {
        if self.failed < self.attempts {
            (self.attempts - self.failed) as nat
        } else {
            0
        }
    }

    /// What to do next about the request.
    pub fn next(&self) -> (step: SendStep)
        ensures
            step == self.step(),
    {
        if self.failed >= self.attempts {
            SendStep::GiveUp(self.attempts)
        } else if self.failed == 0 {
            SendStep::Send
        } else {
            SendStep::Wait(self.retry_after)
        }
    }

    /// Takes note that a try failed.
    pub fn fail(self) -> (tries: Attempts)
        ensures
            tries == self.after_failure(),
    {
        if self.failed < self.attempts {
            Attempts { attempts: self.attempts, retry_after: self.retry_after, failed: self.failed + 1 }
        } else {
            self
        }
    }

    /// The error of a request that was given up.
    pub fn error(&self) -> (error: CliError)
        ensures
            error == CliError::Send(self.attempts),
    {
        CliError::Send(self.attempts)
    }
}

/// A request is sent as often as there are tries and no more: while a try
/// is left there is something to send, each failure uses up one try, and
/// with none left the request is given up.
pub proof fn lemma_tries_run_out(tries: Attempts)
    ensures
        tries.remaining() > 0 <==> !(tries.step() is GiveUp),
        tries.remaining() > 0 ==> tries.after_failure().remaining() == tries.remaining() - 1,
        tries.remaining() == 0 ==> tries.after_failure() == tries,
        tries.step() is Wait ==> tries.failed > 0,
{
}

} // verus!
