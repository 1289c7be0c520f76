use vstd::prelude::*;

use crate::result::{empty_result, JobResult};
use crate::uid::{fresh_uid, Uid};
use crate::values::{RetVal, ValueMap};

verus! {

/// The envelope a unit of work travels in when handed to the framework by a
/// surrounding system: an entrypoint naming the task's class, contextual
/// metadata, an optional parameter payload, a result to seed the work with,
/// and the identifier tying them together.
#[derive(Debug)]
pub struct Message {
    /// Routing key or class name of the task this message addresses.
    pub entrypoint: String,
    /// Contextual metadata keyed by name.
    pub metadata: ValueMap,
    /// Optional parameter payload.
    pub params: Option<RetVal>,
    /// The result the addressed work starts from.
    pub result: JobResult,
    /// Identifier of the unit of work.
    pub uuid: Uid,
}

impl Message {
    /// A fresh empty result correlated to this message.
    pub fn new_result(&self) -> (r: JobResult)
        ensures
            r@ == empty_result(self.uuid),
    {
        JobResult::new(self.uuid)
    }
}

impl Default for Message {
    /// An empty message around a fresh identifier.
    fn default() -> (m: Message)
        ensures
            m.entrypoint@ == Seq::<char>::empty(),
            m.metadata@ == Map::<Seq<char>, RetVal>::empty(),
            m.params is None,
            m.result@ == empty_result(m.uuid),
    {
        let uuid = fresh_uid();
        Message {
            entrypoint: String::new(),
            metadata: ValueMap::new(),
            params: None,
            result: JobResult::new(uuid),
            uuid,
        }
    }
}

/// Step-by-step construction of a [`Message`]: anything left unset falls
/// back to a default when the message is built.
#[derive(Debug)]
pub struct MessageBuilder {
    /// The entrypoint the message will carry.
    pub entrypoint: String,
    /// Metadata, if set; an empty map otherwise.
    pub metadata: Option<ValueMap>,
    /// The optional parameter payload.
    pub params: Option<RetVal>,
    /// The seed result, if set; an empty one correlated to the message's
    /// identifier otherwise.
    pub result: Option<JobResult>,
    /// The identifier, if set; a fresh one otherwise.
    pub uuid: Option<Uid>,
}

impl MessageBuilder {
    /// Starts a builder for a message with the given entrypoint.
    pub fn new(entrypoint: String) -> (b: MessageBuilder)
        ensures
            b.entrypoint@ == entrypoint@,
            b.metadata is None,
            b.params is None,
            b.result is None,
            b.uuid is None,
    {
        MessageBuilder { entrypoint, metadata: None, params: None, result: None, uuid: None }
    }

    /// Sets the metadata.
    pub fn metadata(self, metadata: ValueMap) -> (b: MessageBuilder)
        ensures
            b == (MessageBuilder { metadata: Some(metadata), ..self }),
    {
        MessageBuilder { metadata: Some(metadata), ..self }
    }

    /// Sets the parameter payload.
    pub fn params(self, params: RetVal) -> (b: MessageBuilder)
        ensures
            b == (MessageBuilder { params: Some(params), ..self }),
    {
        MessageBuilder { params: Some(params), ..self }
    }

    /// Sets the seed result.
    pub fn result(self, result: JobResult) -> (b: MessageBuilder)
        ensures
            b == (MessageBuilder { result: Some(result), ..self }),
    {
        MessageBuilder { result: Some(result), ..self }
    }

    /// Sets the identifier.
    pub fn uuid(self, uuid: Uid) -> (b: MessageBuilder)
        ensures
            b == (MessageBuilder { uuid: Some(uuid), ..self }),
    {
        MessageBuilder { uuid: Some(uuid), ..self }
    }

    /// Builds the message: an unset identifier becomes a fresh one, unset
    /// metadata an empty map, and an unset result an empty result
    /// correlated to the message's identifier.
    pub fn build(self) -> (m: Message)
        ensures
            m.entrypoint@ == self.entrypoint@,
            (self.uuid matches Some(u) ==> m.uuid == u),
            m.metadata@ == (match self.metadata {
                Some(mm) => mm@,
                None => Map::<Seq<char>, RetVal>::empty(),
            }),
            m.params == self.params,
            m.result@ == (match self.result {
                Some(r) => r@,
                None => empty_result(m.uuid),
            }),
    {
        let uuid = match self.uuid {
            Some(u) => u,
            None => fresh_uid(),
        };
        let result = match self.result {
            Some(r) => r,
            None => JobResult::new(uuid),
        };
        let metadata = match self.metadata {
            Some(mm) => mm,
            None => ValueMap::new(),
        };
        Message { entrypoint: self.entrypoint, metadata, params: self.params, result, uuid }
    }
}

} // verus!
