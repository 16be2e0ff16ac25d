//! Message channels: the messages they carry, the count of messages seen,
//! and where a channel keeps its messages.

use vstd::prelude::*;

verus! {

/// The services a channel can speak to.
#[derive(Debug, Clone, Copy, PartialEq, Eq)]
pub enum ChannelKind {
    Discord,
    Telegram,
}

/// A message as a channel stores and forwards it.
#[derive(Debug)]
pub struct ChannelMessage {
    pub id: String,
    pub channel_id: String,
    pub from: String,
    pub to: String,
    pub content: String,
    /// Seconds since the Unix epoch.
    pub timestamp: i64,
    /// Further entries as key and value.
    pub metadata: Vec<(String, String)>,
}

/// A message sent or received through a channel.
#[derive(Debug)]
pub struct Message {
    pub id: String,
    pub from: String,
    pub to: String,
    pub content: String,
    /// Seconds since the Unix epoch.
    pub timestamp: i64,
    /// Further entries as key and value.
    pub metadata: Vec<(String, String)>,
}

/// The count of messages that all channels share. The runtime keeps exactly
/// one of these for the whole process, and every channel records through that
/// one value, so its total counts every message of every kind.
#[derive(Debug)]
pub struct Analytics {
    total: u64,
}

impl Analytics {
    /// The count at the start of the process: 0.
    pub fn new() -> (r: Self)
        ensures
            r.count() == 0,
    {
        Analytics { total: 0 }
    }

    /// The number of messages recorded, modulo 2^64.
    pub closed spec fn count(&self) -> u64 {
        self.total
    }

    /// Records one message of a channel of any kind `kind`: the shared count
    /// goes up by one, whatever the kind, wrapping at 2^64 as an atomic
    /// `fetch_add` does.
    pub fn record(&mut self, kind: ChannelKind)
        ensures
            final(self).count() == (if old(self).count() == u64::MAX { 0 } else {
                (old(self).count() + 1) as u64
            }),
    {
        self.total = if self.total == u64::MAX { 0 } else { self.total + 1 };
    }

    /// The number of messages recorded.
    pub fn total(&self) -> (r: u64)
        ensures
            r == self.count(),
    {
        self.total
    }
}

/// Where a channel keeps its messages: a JSON file at `path`.
#[derive(Debug, Clone)]
pub struct Persistence {
    path: String,
}

impl Persistence {
    /// Messages kept in the file at `path`.
    pub fn new(path: String) -> (r: Self)
        ensures
            r.file()@ == path@,
    {
        Persistence { path }
    }

    /// The path of the file.
    pub closed spec fn file(&self) -> String {
        self.path
    }

    /// The path of the file.
    pub fn path(&self) -> (r: &String)
        ensures
            r@ == self.file()@,
    {
        &self.path
    }
}

} // verus!
