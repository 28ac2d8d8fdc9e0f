//! The agent's identity and session settings.
use vstd::prelude::*;
use vstd::string::*;

verus! {

/// The server used until another is configured.
pub const DEFAULT_SERVER_URL: &'static str = "https://www.trackex.app";

/// Why no device token is available.
#[derive(Debug, Clone, Copy, PartialEq, Eq, Structural)]
pub enum TokenError {
    /// No token was stored: the user is not signed in.
    Missing,
    /// The stored token is empty.
    Empty,
}

/// Device credentials and the server in use, all unknown until sign-in.
#[derive(Debug, Clone)]
pub struct AppState {
    pub device_token: Option<String>,
    pub device_id: Option<String>,
    pub email: Option<String>,
    pub server_url: Option<String>,
    pub employee_id: Option<String>,
    pub is_paused: bool,
}

impl AppState {
    pub fn new() -> (r: Self)
        ensures
            r.device_token is None,
            r.device_id is None,
            r.email is None,
            r.server_url is None,
            r.employee_id is None,
            !r.is_paused,
    {
        AppState {
            device_token: None,
            device_id: None,
            email: None,
            server_url: None,
            employee_id: None,
            is_paused: false,
        }
    }

    /// The configured server, or the default one.
    pub fn get_server_url(&self) -> (r: String)
        ensures
            r@ == match self.server_url {
                Some(u) => u@,
                None => DEFAULT_SERVER_URL@,
            },
    {
        match &self.server_url {
            Some(u) => u.clone(),
            None => String::from_str(DEFAULT_SERVER_URL),
        }
    }

    /// The device token, when one is stored and not empty.
    pub fn get_device_token(&self) -> (r: Result<String, TokenError>)
        ensures
            match self.device_token {
                None => r == Err::<String, TokenError>(TokenError::Missing),
                Some(t) => if t@.len() == 0 {
                    r == Err::<String, TokenError>(TokenError::Empty)
                } else {
                    r matches Ok(v) && v@ == t@
                },
            },
    {
        match &self.device_token {
            None => Err(TokenError::Missing),
            Some(t) => if t.as_str().unicode_len() == 0 {
                Err(TokenError::Empty)
            } else {
                Ok(t.clone())
            },
        }
    }

    /// Records the credentials of a sign-in.
    pub fn sync_device_token_to_global(
        &mut self,
        device_token: String,
        device_id: String,
        email: String,
        server_url: String,
        employee_id: String,
    )
        ensures
            final(self).device_token == Some(device_token),
            final(self).device_id == Some(device_id),
            final(self).email == Some(email),
            final(self).server_url == Some(server_url),
            final(self).employee_id == Some(employee_id),
            final(self).is_paused == old(self).is_paused,
    {
        self.device_token = Some(device_token);
        self.device_id = Some(device_id);
        self.email = Some(email);
        self.server_url = Some(server_url);
        self.employee_id = Some(employee_id);
    }

    /// Signed in: a device token is known and not empty.
    pub fn is_authenticated(&self) -> (r: bool)
        ensures
            r == (self.device_token matches Some(t) && t@.len() > 0),
    {
        match &self.device_token {
            Some(t) => t.as_str().unicode_len() > 0,
            None => false,
        }
    }
}

} // verus!
