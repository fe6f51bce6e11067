//! What the bridge needs to reach the ntfy server.

use vstd::prelude::*;
use crate::config::NtfyCredentials;

verus! {

/// The ntfy server's URL and the credentials to publish with.
pub struct NtfyClientBuilder {
    pub url: String,
    pub credentials: NtfyCredentials,
}

impl NtfyClientBuilder {
    pub fn new(url: &str, credentials: NtfyCredentials) -> (r: Self)
        ensures
            r.url@ == url@,
            r.credentials@ == credentials@,
    {
        NtfyClientBuilder { url: String::from_str(url), credentials }
    }
}

} // verus!
