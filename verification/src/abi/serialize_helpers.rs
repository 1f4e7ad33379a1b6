//! Sources of serializers and deserializers for a two-way byte stream.
use vstd::prelude::*;

use crate::serializer::{Deserializer, Serializer};

verus! {

/// Something that hands out a serializer for what is to be sent, and a
/// deserializer over what was received.
pub trait SerializerAndDeserializer {
    /// The data version of what is sent.
    spec fn send_version(&self) -> u32;

    /// The data version of what is received.
    spec fn receive_version(&self) -> u32;

    /// The bytes received and not yet read.
    spec fn received(&self) -> Seq<u8>;

    /// The bytes sent so far.
    spec fn sent(&self) -> Seq<u8>;

    /// An empty serializer for the data version of what is sent.
    fn get_serializer(&mut self) -> (r: Serializer)
        ensures
            r.writer@ == Seq::<u8>::empty(),
            r.file_version == old(self).send_version(),
    ;

    /// A deserializer over the received bytes, in the data version of what is received.
    fn get_deserializer(&self) -> (r: Deserializer<'_>)
        ensures
            r.wf(),
            r.rest() == self.received(),
            r.file_version == self.receive_version(),
    ;

    /// Sends the bytes that `serializer` holds, after those sent before.
    fn send(&mut self, serializer: Serializer)
        ensures
            final(self).sent() == old(self).sent() + serializer.writer@,
            final(self).received() == old(self).received(),
            final(self).send_version() == old(self).send_version(),
            final(self).receive_version() == old(self).receive_version(),
    ;

    /// Called when the connection is being shut down.
    fn notify_close(&mut self);
}

/// A stream that carries both directions, with the data versions of each direction.
pub struct CombinedSerializerAndDeserializer {
    reader_writer: Vec<u8>,
    written: Vec<u8>,
    serializer_file_version: u32,
    deserializer_file_version: u32,
}

/// A pair of one-way streams, with the data versions of each direction.
pub struct SeparateSerializerAndDeserializer {
    reader: Vec<u8>,
    writer: Vec<u8>,
    serializer_file_version: u32,
    deserializer_file_version: u32,
}

impl CombinedSerializerAndDeserializer {
    /// A two-way stream holding the received bytes `reader_writer`.
    pub fn new(
        reader_writer: Vec<u8>,
        serializer_file_version: u32,
        deserializer_file_version: u32,
    ) -> (r: CombinedSerializerAndDeserializer)
        ensures
            r.send_version() == serializer_file_version,
            r.receive_version() == deserializer_file_version,
            r.received() == reader_writer@,
            r.sent() == Seq::<u8>::empty(),
    {
        CombinedSerializerAndDeserializer {
            reader_writer,
            written: Vec::new(),
            serializer_file_version,
            deserializer_file_version,
        }
    }
}

impl SeparateSerializerAndDeserializer {
    /// Two one-way streams: the received bytes `reader`, and `writer` for what is sent.
    pub fn new(
        reader: Vec<u8>,
        writer: Vec<u8>,
        serializer_file_version: u32,
        deserializer_file_version: u32,
    ) -> (r: SeparateSerializerAndDeserializer)
        ensures
            r.send_version() == serializer_file_version,
            r.receive_version() == deserializer_file_version,
            r.received() == reader@,
            r.sent() == writer@,
    {
        SeparateSerializerAndDeserializer { reader, writer, serializer_file_version, deserializer_file_version }
    }
}

impl SerializerAndDeserializer for CombinedSerializerAndDeserializer {
    closed spec fn send_version(&self) -> u32 {
        self.serializer_file_version
    }

    closed spec fn receive_version(&self) -> u32 {
        self.deserializer_file_version
    }

    closed spec fn received(&self) -> Seq<u8> {
        self.reader_writer@
    }

    closed spec fn sent(&self) -> Seq<u8> {
        self.written@
    }

    fn send(&mut self, serializer: Serializer) {
        let mut bytes = serializer.writer;
        self.written.append(&mut bytes);
    }

    fn get_serializer(&mut self) -> (r: Serializer) {
        Serializer::new(self.serializer_file_version)
    }

    fn get_deserializer(&self) -> (r: Deserializer<'_>) {
        let d = Deserializer::new(self.reader_writer.as_slice(), self.deserializer_file_version);
        assert(d.rest() =~= self.reader_writer@);
        d
    }

    fn notify_close(&mut self) {
    }
}

impl SerializerAndDeserializer for SeparateSerializerAndDeserializer {
    closed spec fn send_version(&self) -> u32 {
        self.serializer_file_version
    }

    closed spec fn receive_version(&self) -> u32 {
        self.deserializer_file_version
    }

    closed spec fn received(&self) -> Seq<u8> {
        self.reader@
    }

    closed spec fn sent(&self) -> Seq<u8> {
        self.writer@
    }

    fn send(&mut self, serializer: Serializer) {
        let mut bytes = serializer.writer;
        self.writer.append(&mut bytes);
    }

    fn get_serializer(&mut self) -> (r: Serializer) {
        Serializer::new(self.serializer_file_version)
    }

    fn get_deserializer(&self) -> (r: Deserializer<'_>) {
        let d = Deserializer::new(self.reader.as_slice(), self.deserializer_file_version);
        assert(d.rest() =~= self.reader@);
        d
    }

    fn notify_close(&mut self) {
    }
}

} // verus!
