use vstd::prelude::*;
use vstd::slice::slice_subrange;
use crate::error::{Error, ErrorKind};
use crate::text::string_of;

verus! {

#[verifier::external_type_specification]
#[verifier::external_body]
pub struct ExSha3State(sha3::Sha3_256);

/// The SHA3-256 digest of a byte string.
pub uninterp spec fn sha3_256(data: Seq<u8>) -> Seq<u8>;

/// The bytes that a hashing state has taken in so far, in order.
pub uninterp spec fn absorbed(state: sha3::Sha3_256) -> Seq<u8>;

/// `Sha3_256::default`: a state that has taken in nothing.
#[verifier::external_body]
pub(crate) fn state_new() -> (state: sha3::Sha3_256)
    ensures
        absorbed(state) == Seq::<u8>::empty(),
{
    sha3::Sha3_256::default()
}

/// `digest::Update::update`: the state takes in the bytes after those that it
/// holds.
#[verifier::external_body]
pub(crate) fn state_update(state: &mut sha3::Sha3_256, data: &[u8])
    ensures
        absorbed(*final(state)) == absorbed(*old(state)) + data@,
{
    sha3::digest::Update::update(state, data)
}

/// `digest::Digest::finalize`: the digest of all that the state has taken in.
#[verifier::external_body]
pub(crate) fn state_finish(state: sha3::Sha3_256) -> (out: [u8; 32])
    ensures
        out@ == sha3_256(absorbed(state)),
{
    sha3::Digest::finalize(state).into()
}

/// Number of bytes in a content hash.
pub const HASH_LEN: usize = 32;

/// Number of bytes that are fed to the hash at a time.
pub const CHUNK_SIZE: usize = 4096;

/// The identity of a file's content: the SHA3-256 digest of its bytes.
#[derive(Clone, Debug, PartialEq, Eq)]
pub struct Sha3 {
    hash: [u8; 32],
}

impl View for Sha3 {
    type V = Seq<u8>;

    closed spec fn view(&self) -> Seq<u8> {
        self.hash@
    }
}

/// A content hash that is being computed piece by piece.
pub struct Sha3Stream {
    state: sha3::Sha3_256,
}

impl View for Sha3Stream {
    type V = Seq<u8>;

    /// The bytes fed so far.
    closed spec fn view(&self) -> Seq<u8> {
        absorbed(self.state)
    }
}

/// The pieces of a byte stream one after another.
pub open spec fn concat(chunks: Seq<Vec<u8>>) -> Seq<u8>
    decreases chunks.len(),
{
    if chunks.len() == 0 {
        Seq::<u8>::empty()
    } else {
        concat(chunks.drop_last()) + chunks.last()@
    }
}

pub open spec fn hex_digit(n: int) -> char {
    if n < 10 {
        (('0' as u8) + n) as char
    } else {
        (('a' as u8) + (n - 10)) as char
    }
}

/// Two lower-case hexadecimal digits for each byte.
pub open spec fn hex(bytes: Seq<u8>) -> Seq<char> {
    Seq::new(
        2 * bytes.len(),
        |i: int|
            if i % 2 == 0 {
                hex_digit(bytes[i / 2] as int / 16)
            } else {
                hex_digit(bytes[i / 2] as int % 16)
            },
    )
}

fn hex_char(n: u8) -> (c: char)
    requires
        n < 16,
    ensures
        c == hex_digit(n as int),
{
    if n < 10 {
        (('0' as u8) + n) as char
    } else {
        (('a' as u8) + (n - 10)) as char
    }
}

impl Sha3Stream {
    /// A stream into which nothing has been fed.
    pub fn new() -> (s: Sha3Stream)
        ensures
            s@ == Seq::<u8>::empty(),
    {
        Sha3Stream { state: state_new() }
    }

    /// Feeds the next piece of the byte stream.
    pub fn update(&mut self, chunk: &[u8])
        ensures
            final(self)@ == old(self)@ + chunk@,
    {
        state_update(&mut self.state, chunk);
    }

    /// The hash of everything fed.
    pub fn finish(self) -> (h: Sha3)
        ensures
            h@ == sha3_256(self@),
    {
        Sha3 { hash: state_finish(self.state) }
    }
}

impl Sha3 {
    /// The bytes of the hash.
    pub fn as_ref(&self) -> (bytes: &[u8])
        ensures
            bytes@ == self@,
            bytes@.len() == HASH_LEN,
    {
        self.hash.as_slice()
    }

    /// The hash that 32 bytes spell. A slice of any other length is refused
    /// with `DecodeFailure`.
    pub fn try_from_slice(value: &[u8]) -> (r: Result<Sha3, Error>)
        ensures
            r is Ok <==> value@.len() == HASH_LEN,
            r is Ok ==> r->Ok_0@ == value@,
            r is Err ==> r->Err_0.kind == ErrorKind::DecodeFailure,
    {
        if value.len() != 32 {
            return Err(Error::new(ErrorKind::DecodeFailure));
        }
        let mut hash: [u8; 32] = [0u8; 32];
        let mut i: usize = 0;
        while i < 32
            invariant
                i <= 32,
                value@.len() == 32,
                forall|j: int| 0 <= j < i ==> hash@[j] == value@[j],
            decreases 32 - i,
        {
            hash[i] = value[i];
            i += 1;
        }
        assert(hash@ =~= value@);
        Ok(Sha3 { hash })
    }

    /// The hash of a byte string, fed to the hash in pieces of `CHUNK_SIZE`
    /// bytes.
    pub fn from_bytes(data: &[u8]) -> (h: Sha3)
        ensures
            h@ == sha3_256(data@),
    {
        let mut stream = Sha3Stream::new();
        let mut fed: usize = 0;
        assert(data@.take(0) =~= Seq::<u8>::empty());
        while fed < data.len()
            invariant
                fed <= data.len(),
                stream@ == data@.take(fed as int),
            decreases data.len() - fed,
        {
            let end: usize = if data.len() - fed > CHUNK_SIZE {
                fed + CHUNK_SIZE
            } else {
                data.len()
            };
            stream.update(slice_subrange(data, fed, end));
            assert(data@.take(fed as int) + data@.subrange(fed as int, end as int) =~= data@.take(
                end as int,
            ));
            fed = end;
        }
        assert(data@.take(fed as int) =~= data@);
        stream.finish()
    }

    /// The hash of a byte stream that comes in pieces: the hash of the pieces
    /// put together, however the stream was cut.
    pub fn from_chunks(chunks: &Vec<Vec<u8>>) -> (h: Sha3)
        ensures
            h@ == sha3_256(concat(chunks@)),
    {
        let mut stream = Sha3Stream::new();
        let mut i: usize = 0;
        while i < chunks.len()
            invariant
                i <= chunks.len(),
                stream@ == concat(chunks@.take(i as int)),
            decreases chunks.len() - i,
        {
            stream.update(chunks[i].as_slice());
            proof {
                let next = chunks@.take(i + 1);
                assert(next.drop_last() == chunks@.take(i as int));
                assert(next.last() == chunks@[i as int]);
            }
            i += 1;
        }
        assert(chunks@.take(i as int) == chunks@);
        stream.finish()
    }

    /// The hash in lower-case hexadecimal, two digits a byte.
    pub fn to_hex(&self) -> (text: String)
        ensures
            text@ == hex(self@),
    {
        let mut out: Vec<char> = Vec::new();
        let mut i: usize = 0;
        while i < 32
            invariant
                i <= 32,
                out@.len() == 2 * i,
                forall|j: int| 0 <= j < 2 * i ==> out@[j] == hex(self@)[j],
            decreases 32 - i,
        {
            let b: u8 = self.hash[i];
            out.push(hex_char(b / 16));
            out.push(hex_char(b % 16));
            i += 1;
        }
        assert(out@ =~= hex(self@));
        string_of(&out)
    }
}

/// Equal contents have equal hashes, whole or in pieces: the hash is a
/// function of the bytes alone.
pub proof fn lemma_hash_deterministic(a: Seq<u8>, b: Seq<u8>)
    requires
        a == b,
    ensures
        sha3_256(a) == sha3_256(b),
{
}

/// Cutting a stream in two pieces does not change what is hashed.
pub proof fn lemma_concat_two(first: Vec<u8>, second: Vec<u8>)
    ensures
        concat(seq![first, second]) == first@ + second@,
{
    let two = seq![first, second];
    let one = seq![first];
    assert(two.drop_last() =~= one);
    assert(one.drop_last() =~= Seq::<Vec<u8>>::empty());
    assert(concat(one) =~= first@) by {
        assert(concat(one.drop_last()) =~= Seq::<u8>::empty());
    }
    assert(concat(two) == concat(one) + second@);
}

} // verus!
