use vstd::prelude::*;

verus! {

/// A request for the public profile of an account: its id and whether a
/// cached answer may not be used.
#[derive(Clone, Debug, PartialEq, Eq)]
pub struct RequestBuilder {
    pub user_id: String,
    pub no_cache: bool,
}

/// The public profile of an account as the chat bridge reports it.
#[derive(Clone, Debug)]
pub struct Info {
    pub user_id: Option<usize>,
    pub nick: Option<String>,
    pub phone_num: Option<String>,
    pub qq_level: Option<usize>,
}

/// The reply of the chat bridge to a profile request.
#[derive(Clone, Debug)]
pub struct InfoResponse {
    pub status: String,
    pub data: Info,
}

impl InfoResponse {
    /// The profile carried by the reply.
    pub fn into_info(self) -> (info: Info)
        ensures
            info == self.data,
    {
        self.data
    }
}

impl RequestBuilder {
    /// The key under which profile answers are cached: the account id alone,
    /// whatever `no_cache` says.
    pub fn cache_key(&self) -> (key: String)
        ensures
            key@ == self.user_id@,
    {
        self.user_id.clone()
    }
}

} // verus!
