//! What travels between the library and one storage instance: the two
//! commands of the protocol, and the reply to the first of them.

use crate::text::{decimal, decimal_string};
use vstd::prelude::*;
use vstd::string::*;

verus! {

/// The script a storage instance runs to release a lock: it deletes the key
/// only while the key still holds the caller's value, and does both the
/// comparison and the deletion in one atomic step.
pub const UNLOCK_SCRIPT: &'static str = r"
        if redis.call('get',KEYS[1]) == ARGV[1] then
            return redis.call('del',KEYS[1])
        else
            return 0
        end";

/// The address under which the storage instance at `host` is reached: `host`
/// behind the scheme `redis://`.
pub fn server_url(host: &str) -> (url: String)
    ensures
        url@ == "redis://"@ + host@,
{
    let mut url = String::from_str("redis://");
    url.append(host);
    url
}

/// A conditional write for one storage instance: store `value` under `key`
/// for `ttl_ms` milliseconds, unless the key is present.
#[derive(Debug)]
pub struct LockRequest {
    /// Address of the storage instance.
    pub server: String,
    /// The lock's name.
    pub key: String,
    /// The text of the ownership token.
    pub value: String,
    /// Lease duration in milliseconds.
    pub ttl_ms: u64,
}

/// A [`LockRequest`] as a mathematical value.
pub struct LockRequestView {
    pub server: Seq<char>,
    pub key: Seq<char>,
    pub value: Seq<char>,
    pub ttl_ms: u64,
}

impl View for LockRequest {
    type V = LockRequestView;

    open spec fn view(&self) -> LockRequestView {
        LockRequestView {
            server: self.server@,
            key: self.key@,
            value: self.value@,
            ttl_ms: self.ttl_ms,
        }
    }
}

impl DeepView for LockRequest {
    type V = LockRequestView;

    open spec fn deep_view(&self) -> LockRequestView {
        self@
    }
}

impl Clone for LockRequest {
    fn clone(&self) -> (copy: Self)
        ensures
            copy@ == self@,
    {
        LockRequest {
            server: self.server.clone(),
            key: self.key.clone(),
            value: self.value.clone(),
            ttl_ms: self.ttl_ms,
        }
    }
}

impl LockRequestView {
    /// The words of the command on the wire:
    /// `SET key value nx px ttl_ms`.
    pub open spec fn command(self) -> Seq<Seq<char>> {
        seq!["SET"@, self.key, self.value, "nx"@, "px"@, decimal(self.ttl_ms as nat)]
    }
}

impl LockRequest {
    /// The words of the command to send, the first being the command's name.
    pub fn command(&self) -> (words: Vec<String>)
        ensures
            words.deep_view() == self@.command(),
    {
        let mut words: Vec<String> = Vec::new();
        words.push(String::from_str("SET"));
        words.push(self.key.clone());
        words.push(self.value.clone());
        words.push(String::from_str("nx"));
        words.push(String::from_str("px"));
        words.push(decimal_string(self.ttl_ms));
        assert(words.deep_view() =~= self@.command());
        words
    }
}

/// A conditional delete for one storage instance: remove `key` if it holds
/// `value`, by running [`UNLOCK_SCRIPT`] with `key` as its only key and
/// `value` as its only argument.
#[derive(Debug)]
pub struct UnlockRequest {
    /// Address of the storage instance.
    pub server: String,
    /// The lock's name.
    pub key: String,
    /// The text of the ownership token.
    pub value: String,
}

/// An [`UnlockRequest`] as a mathematical value.
pub struct UnlockRequestView {
    pub server: Seq<char>,
    pub key: Seq<char>,
    pub value: Seq<char>,
}

impl View for UnlockRequest {
    type V = UnlockRequestView;

    open spec fn view(&self) -> UnlockRequestView {
        UnlockRequestView { server: self.server@, key: self.key@, value: self.value@ }
    }
}

impl DeepView for UnlockRequest {
    type V = UnlockRequestView;

    open spec fn deep_view(&self) -> UnlockRequestView {
        self@
    }
}

impl Clone for UnlockRequest {
    fn clone(&self) -> (copy: Self)
        ensures
            copy@ == self@,
    {
        UnlockRequest {
            server: self.server.clone(),
            key: self.key.clone(),
            value: self.value.clone(),
        }
    }
}

/// What came back from one storage instance for a [`LockRequest`].
#[derive(Clone, Copy, Debug, PartialEq, Eq, Structural)]
pub enum SetReply {
    /// The instance stored the value: the key was absent.
    Stored,
    /// The instance answered and left the key as it was.
    Exists,
    /// No answer: the instance could not be reached, or the exchange failed.
    Unreachable,
}

impl SetReply {
    /// Whether this reply counts towards the quorum.
    pub fn is_stored(&self) -> (b: bool)
        ensures
            b == (*self == SetReply::Stored),
    {
        match self {
            SetReply::Stored => true,
            _ => false,
        }
    }
}

} // verus!
