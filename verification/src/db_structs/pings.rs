//! Pings: a colour sent through a person's link at some instant.

use vstd::prelude::*;
use crate::clock::Timestamp;

verus! {

/// A row of the `pings` table.
#[derive(Debug)]
pub struct Ping {
    pub id: Option<i32>,
    pub timestamp: Option<Timestamp>,
    pub origin: Option<String>,
    pub color: String,
}

impl Clone for Ping {
    fn clone(&self) -> (r: Self)
        ensures
            r == *self,
    {
        let origin = match &self.origin {
            Some(o) => Some(o.clone()),
            None => None,
        };
        Ping { id: self.id, timestamp: self.timestamp, origin, color: self.color.clone() }
    }
}

impl Default for Ping {
    fn default() -> (r: Self)
        ensures
            r.id is None,
            r.timestamp is None,
            r.origin is None,
            r.color@ == Seq::<char>::empty(),
    {
        Ping { id: None, timestamp: None, origin: None, color: String::new() }
    }
}

/// What a person may submit through their link: a colour, nothing else.
#[derive(Debug)]
pub struct Thought {
    pub color: String,
}

impl Clone for Thought {
    fn clone(&self) -> (r: Self)
        ensures
            r == *self,
    {
        Thought { color: self.color.clone() }
    }
}

impl Ping {
    /// The row that storing `thought`, sent through the link `origin` at `now`,
    /// writes: no id yet (the database assigns it).
    pub fn insert_row(thought: Thought, origin: String, now: Timestamp) -> (r: Ping)
        ensures
            r.id is None,
            r.timestamp == Some(now),
            r.origin == Some(origin),
            r.color == thought.color,
    {
        Ping { id: None, origin: Some(origin), timestamp: Some(now), color: thought.color }
    }
}

} // verus!
