//! Messages for the outbound bridge, the bridge's MQTT transport, and a
//! builder for pipeline descriptions.
use vstd::prelude::*;

use crate::json::{owned, str_eq, Json, JsonValue};
use crate::platform::new_uuid;

verus! {

/// A message for the bridge: a routing topic, a JSON payload, a fresh id and
/// extra named fields.
#[derive(Debug)]
pub struct NodeRedMessage {
    pub msg_id: String,
    pub topic: String,
    pub payload: Json,
    pub metadata: Vec<(String, Json)>,
}

/// The mathematical value of a list of named fields.
pub open spec fn fields_view(fields: Seq<(String, Json)>) -> Seq<(Seq<char>, JsonValue)> {
    fields.map_values(|f: (String, Json)| (f.0@, f.1@))
}

/// `fields` without the field named `key`, then `(key, value)` at the end.
pub open spec fn with_field(
    fields: Seq<(Seq<char>, JsonValue)>,
    key: Seq<char>,
    value: JsonValue,
) -> Seq<(Seq<char>, JsonValue)> {
    fields.filter(|f: (Seq<char>, JsonValue)| f.0 != key).push((key, value))
}

impl NodeRedMessage {
    /// A message on `topic` with `payload`, a fresh id and no extra fields.
    pub fn new(topic: String, payload: Json) -> (r: NodeRedMessage)
        ensures
            r.topic@ == topic@,
            r.payload@ == payload@,
            r.msg_id@.len() == 36,
            r.metadata@.len() == 0,
    {
        NodeRedMessage { msg_id: new_uuid(), topic, payload, metadata: Vec::new() }
    }

    /// The message with field `key` set to `value`, replacing an earlier value.
    pub fn with_metadata(self, key: String, value: Json) -> (r: NodeRedMessage)
        ensures
            r.msg_id@ == self.msg_id@,
            r.topic@ == self.topic@,
            r.payload@ == self.payload@,
            fields_view(r.metadata@) == with_field(fields_view(self.metadata@), key@, value@),
    {
        let NodeRedMessage { msg_id, topic, payload, metadata } = self;
        let ghost fs = fields_view(metadata@);
        let ghost keep = |f: (Seq<char>, JsonValue)| f.0 != key@;
        let mut kept: Vec<(String, Json)> = Vec::new();
        let mut i: usize = 0;
        while i < metadata.len()
            invariant
                0 <= i <= metadata@.len(),
                fs == fields_view(metadata@),
                keep == (|f: (Seq<char>, JsonValue)| f.0 != key@),
                fields_view(kept@) == fs.subrange(0, i as int).filter(keep),
            decreases metadata@.len() - i,
        {
            proof {
                reveal(Seq::filter);
                assert(fs.subrange(0, i + 1).drop_last() == fs.subrange(0, i as int));
            }
            if !str_eq(metadata[i].0.as_str(), key.as_str()) {
                let ghost before = kept@;
                kept.push((metadata[i].0.clone(), metadata[i].1.copy()));
                assert(fields_view(kept@) =~= fields_view(before).push(fs[i as int]));
            }
            i = i + 1;
        }
        assert(fs.subrange(0, metadata@.len() as int) == fs);
        let ghost before = kept@;
        let ghost v = value@;
        kept.push((key, value));
        assert(fields_view(kept@) =~= fields_view(before).push((key@, v)));
        NodeRedMessage { msg_id, topic, payload, metadata: kept }
    }
}

/// Failure of a bridge transport.
#[derive(Debug)]
pub enum BridgeError {
    /// The transport has no implementation in this build.
    Unsupported(String),
}

/// The MQTT transport of the bridge. It holds its broker address; publishing
/// is not implemented, so every operation fails.
pub struct MqttBridge {
    broker_url: String,
    client: Option<()>,
}

impl MqttBridge {
    /// A transport for the broker at `broker_url`, not connected.
    pub fn new(broker_url: String) -> (r: MqttBridge)
        ensures
            r.broker_url_view() == broker_url@,
            !r.is_connected(),
    {
        MqttBridge { broker_url, client: None }
    }

    pub closed spec fn broker_url_view(&self) -> Seq<char> {
        self.broker_url@
    }

    pub closed spec fn is_connected(&self) -> bool {
        self.client is Some
    }

    /// The broker address.
    pub fn broker_url(&self) -> (r: &str)
        ensures
            r@ == self.broker_url_view(),
    {
        self.broker_url.as_str()
    }

    fn unsupported() -> (r: BridgeError) {
        BridgeError::Unsupported(owned("MQTT support not yet implemented - use HTTP bridge instead"))
    }

    /// Connecting is not implemented: always fails.
    pub fn connect(&mut self) -> (r: Result<(), BridgeError>)
        ensures
            r is Err,
            final(self).broker_url_view() == old(self).broker_url_view(),
    {
        Err(Self::unsupported())
    }

    /// Publishing is not implemented: always fails.
    pub fn publish(&self, message: &NodeRedMessage) -> (r: Result<(), BridgeError>)
        ensures
            r is Err,
    {
        Err(Self::unsupported())
    }

    /// Subscribing is not implemented: always fails.
    pub fn subscribe(&self, topic: &str) -> (r: Result<(), BridgeError>)
        ensures
            r is Err,
    {
        Err(Self::unsupported())
    }
}

/// A pipeline description: a source, transformers in order, a destination.
#[derive(Debug, Clone)]
pub struct PipelineConfig {
    pub source: String,
    pub transformers: Vec<String>,
    pub destination: String,
}

/// Builds a `PipelineConfig` step by step.
pub struct PipelineBuilder {
    source: String,
    transformers: Vec<String>,
    destination: String,
}

impl PipelineBuilder {
    pub closed spec fn source_view(&self) -> Seq<char> {
        self.source@
    }

    pub closed spec fn transformers_view(&self) -> Seq<Seq<char>> {
        self.transformers@.map_values(|t: String| t@)
    }

    pub closed spec fn destination_view(&self) -> Seq<char> {
        self.destination@
    }

    /// A builder reading from `source`, with no transformer and an empty destination.
    pub fn new(source: String) -> (r: PipelineBuilder)
        ensures
            r.source_view() == source@,
            r.transformers_view().len() == 0,
            r.destination_view().len() == 0,
    {
        let r = PipelineBuilder { source, transformers: Vec::new(), destination: String::new() };
        assert(r.transformers_view() =~= Seq::<Seq<char>>::empty());
        r
    }

    /// Adds `transformer` after those already given.
    pub fn transform(self, transformer: String) -> (r: PipelineBuilder)
        ensures
            r.source_view() == self.source_view(),
            r.transformers_view() == self.transformers_view().push(transformer@),
            r.destination_view() == self.destination_view(),
    {
        let mut b = self;
        let ghost t = transformer@;
        b.transformers.push(transformer);
        assert(b.transformers_view() =~= self.transformers_view().push(t));
        b
    }

    /// Sets the destination.
    pub fn to(self, destination: String) -> (r: PipelineBuilder)
        ensures
            r.source_view() == self.source_view(),
            r.transformers_view() == self.transformers_view(),
            r.destination_view() == destination@,
    {
        let mut b = self;
        b.destination = destination;
        b
    }

    /// The description built so far.
    pub fn build(self) -> (r: PipelineConfig)
        ensures
            r.source@ == self.source_view(),
            r.transformers@.map_values(|t: String| t@) == self.transformers_view(),
            r.destination@ == self.destination_view(),
    {
        PipelineConfig {
            source: self.source,
            transformers: self.transformers,
            destination: self.destination,
        }
    }
}

} // verus!
