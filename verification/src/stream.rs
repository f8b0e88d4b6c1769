//! Byte sources and byte sinks: the two capabilities that the codec works
//! on, and an in-memory implementation of each.

use vstd::prelude::*;

verus! {

/// The kinds of transport failure that the standard library tells apart. The
/// enum is declared with its variants, so that a kind can be named here.
#[verifier::external_type_specification]
pub struct ExErrorKind(std::io::ErrorKind);

/// Something that hands out bytes in order: it can supply exactly as many
/// bytes as are asked for, or fail.
pub trait ByteSource {
    /// The bytes that the source has yet to hand out.
    spec fn view(&self) -> Seq<u8>;

    /// Fills `buf` with the next bytes of the source.
    ///
    /// With at least `buf.len()` bytes pending the call succeeds and takes
    /// exactly that many. With fewer it fails, and the source is drained.
    fn read_exact(&mut self, buf: &mut [u8]) -> (r: Result<(), std::io::Error>)
        ensures
            final(buf)@.len() == old(buf)@.len(),
            took(old(self)@, final(self)@, old(buf)@.len(), r is Ok),
            r is Ok ==> final(buf)@ == old(self)@.take(old(buf)@.len() as int),
    ;
}

/// What a byte sink stands for: the bytes that it has accepted, and how many
/// more it accepts.
pub struct SinkView {
    pub written: Seq<u8>,
    pub room: nat,
}

/// Something that takes bytes in order: it can accept all the bytes that it
/// is given, or fail.
pub trait ByteSink {
    /// The bytes that the sink has accepted, and the room that is left.
    spec fn view(&self) -> SinkView;

    /// Writes all of `bytes` to the sink.
    ///
    /// With room for all the bytes the call succeeds and the sink holds them
    /// after what it held before. With less room it fails, and the sink holds
    /// what it held before.
    fn write_all(&mut self, bytes: &[u8]) -> (r: Result<(), std::io::Error>)
        ensures
            put(old(self)@, final(self)@, bytes@, r is Ok),
    ;
}

/// How a read of `n` bytes that ended with success (`ok`) or failure changes
/// what a source has pending. It succeeds exactly when `n` bytes are pending,
/// and then takes exactly those. When it fails, nothing is left pending.
pub open spec fn took(before: Seq<u8>, after: Seq<u8>, n: nat, ok: bool) -> bool {
    if n <= before.len() {
        ok && after == before.skip(n as int)
    } else {
        !ok && after == Seq::<u8>::empty()
    }
}

/// How a write of `bytes` that ended with success (`ok`) or failure changes
/// a sink. It succeeds exactly when the sink has room for all the bytes, and
/// then appends exactly those. When it fails, the sink is as it was.
pub open spec fn put(before: SinkView, after: SinkView, bytes: Seq<u8>, ok: bool) -> bool {
    if bytes.len() <= before.room {
        &&& ok
        &&& after.written == before.written + bytes
        &&& after.room == before.room - bytes.len()
    } else {
        !ok && after == before
    }
}

/// Calls `std::io::Error::from` on an error kind. Nothing is claimed of the
/// error that comes back.
#[verifier::external_body]
fn io_error(kind: std::io::ErrorKind) -> std::io::Error {
    std::io::Error::from(kind)
}

/// A byte source over bytes held in memory.
pub struct ByteReader {
    data: Vec<u8>,
    pos: usize,
}

impl ByteReader {
    #[verifier::type_invariant]
    spec fn well_formed(self) -> bool {
        self.pos <= self.data@.len()
    }

    /// A source that hands out `data` from its first byte on.
    pub fn new(data: Vec<u8>) -> (reader: ByteReader)
        ensures
            reader@ == data@,
    {
        ByteReader { data, pos: 0 }
    }

    /// How many bytes are yet to be handed out.
    pub fn remaining(&self) -> (n: usize)
        ensures
            n == self@.len(),
    {
        proof {
            use_type_invariant(self);
        }
        self.data.len() - self.pos
    }
}

impl ByteSource for ByteReader {
    closed spec fn view(&self) -> Seq<u8> {
        self.data@.skip(self.pos as int)
    }

    fn read_exact(&mut self, buf: &mut [u8]) -> (r: Result<(), std::io::Error>) {
        proof {
            use_type_invariant(&*self);
        }
        let n: usize = buf.len();
        if self.data.len() - self.pos < n {
            self.pos = self.data.len();
            assert(self@ =~= Seq::<u8>::empty());
            return Err(io_error(std::io::ErrorKind::UnexpectedEof));
        }
        let start: usize = self.pos;
        let mut i: usize = 0;
        while i < n
            invariant
                i <= n,
                n == buf@.len(),
                start + n <= self.data@.len() <= usize::MAX,
                forall|k: int| 0 <= k < i ==> buf@[k] == self.data@[start + k],
            decreases n - i,
        {
            buf[i] = self.data[start + i];
            i += 1;
        }
        self.pos = start + n;
        assert(buf@ =~= old(self)@.take(n as int));
        assert(self@ =~= old(self)@.skip(n as int));
        Ok(())
    }
}

/// A byte sink that keeps in memory what it is given, up to a limit.
pub struct ByteWriter {
    data: Vec<u8>,
    room: usize,
}

impl ByteWriter {
    /// An empty sink that accepts as many bytes as memory can address.
    pub fn new() -> (writer: ByteWriter)
        ensures
            writer@.written == Seq::<u8>::empty(),
            writer@.room == usize::MAX,
    {
        ByteWriter { data: Vec::new(), room: usize::MAX }
    }

    /// An empty sink that accepts `limit` bytes and no more.
    pub fn with_limit(limit: usize) -> (writer: ByteWriter)
        ensures
            writer@.written == Seq::<u8>::empty(),
            writer@.room == limit,
    {
        ByteWriter { data: Vec::new(), room: limit }
    }

    /// The bytes that the sink has accepted.
    pub fn as_slice(&self) -> (bytes: &[u8])
        ensures
            bytes@ == self@.written,
    {
        self.data.as_slice()
    }

    /// Gives up the sink for the bytes that it has accepted.
    pub fn into_inner(self) -> (bytes: Vec<u8>)
        ensures
            bytes@ == self@.written,
    {
        self.data
    }
}

impl ByteSink for ByteWriter {
    closed spec fn view(&self) -> SinkView {
        SinkView { written: self.data@, room: self.room as nat }
    }

    fn write_all(&mut self, bytes: &[u8]) -> (r: Result<(), std::io::Error>) {
        let n: usize = bytes.len();
        if self.room < n {
            return Err(io_error(std::io::ErrorKind::WriteZero));
        }
        self.data.extend_from_slice(bytes);
        self.room = self.room - n;
        assert(self.data@ =~= old(self).data@ + bytes@);
        Ok(())
    }
}

} // verus!
