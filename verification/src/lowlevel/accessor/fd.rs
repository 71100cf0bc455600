//! The raw accessor: resilient minimum-length reads of a device or status
//! file.
//!
//! The system calls belong to the caller. The library validates the handle
//! that `open` returned and decides, chunk after chunk, whether a read goes
//! on, ends or fails, and what text it yields.

use vstd::math::min;
use vstd::prelude::*;
use vstd::slice::slice_subrange;
use vstd::string::*;
use vstd::utf8::{decode_utf8, valid_utf8};

verus! {

/// Size of every chunk that a read asks of the descriptor.
pub const BYTES_PER_READ: usize = 50;

/// What can go wrong on a descriptor.
#[derive(Clone, Copy, Debug, PartialEq, Eq, Structural)]
pub enum FdError {
    OpenError,
    ReadError,
    WriteError,
}

impl FdError {
    /// The human-readable text of the error.
    pub open spec fn text(self) -> Seq<char> {
        match self {
            FdError::OpenError => "Failed to open file descriptor"@,
            FdError::ReadError => "Failed to read from file descriptor"@,
            FdError::WriteError => "Failed to write to file descriptor"@,
        }
    }

    /// The human-readable text of the error, as a string.
    pub fn message(&self) -> (s: String)
        ensures
            s@ == self.text(),
    {
        match self {
            FdError::OpenError => String::from_str("Failed to open file descriptor"),
            FdError::ReadError => String::from_str("Failed to read from file descriptor"),
            FdError::WriteError => String::from_str("Failed to write to file descriptor"),
        }
    }
}

/// Whether a character has the Unicode property White_Space, which is what
/// `char::is_whitespace` reports and what `str::trim` strips.
pub uninterp spec fn white_space(c: char) -> bool;

/// What `String::from_utf8_lossy` makes of a byte sequence: its characters,
/// with every ill-formed part replaced by U+FFFD.
pub uninterp spec fn utf8_lossy(bytes: Seq<u8>) -> Seq<char>;

/// `s` without its leading white space.
pub open spec fn strip_start(s: Seq<char>) -> Seq<char>
    decreases s.len(),
{
    if s.len() > 0 && white_space(s.first()) {
        strip_start(s.drop_first())
    } else {
        s
    }
}

/// `s` without its trailing white space.
pub open spec fn strip_end(s: Seq<char>) -> Seq<char>
    decreases s.len(),
{
    if s.len() > 0 && white_space(s.last()) {
        strip_end(s.drop_last())
    } else {
        s
    }
}

/// `s` without its leading and trailing white space.
pub open spec fn trimmed(s: Seq<char>) -> Seq<char> {
    strip_end(strip_start(s))
}

/// The text that a read returns for the bytes it has accumulated.
pub open spec fn read_text(data: Seq<u8>) -> Seq<char> {
    trimmed(utf8_lossy(data))
}

/// Calls `String::from_utf8_lossy`. The result is a function of the bytes
/// alone, named `utf8_lossy`; where the bytes are well-formed UTF-8 it is
/// the text they encode.
#[verifier::external_body]
fn lossy_text(bytes: &[u8]) -> (text: String)
    ensures
        text@ == utf8_lossy(bytes@),
        valid_utf8(bytes@) ==> text@ == decode_utf8(bytes@),
{
    String::from_utf8_lossy(bytes).into_owned()
}

/// Calls `str::trim`, which returns the part of `s` that is left when the
/// leading and the trailing characters with the property White_Space are
/// removed.
#[verifier::external_body]
fn trim_text(s: &str) -> (t: &str)
    ensures
        t@ == trimmed(s@),
        t@.len() > 0 ==> !white_space(t@.first()) && !white_space(t@.last()),
{
    s.trim()
}

/// Turns accumulated bytes into the text of the read: decoded leniently,
/// then trimmed.
fn text_of(data: &Vec<u8>) -> (text: String)
    ensures
        text@ == read_text(data@),
        valid_utf8(data@) ==> text@ == trimmed(decode_utf8(data@)),
{
    let decoded = lossy_text(data.as_slice());
    String::from_str(trim_text(decoded.as_str()))
}

/// A read in progress, as a value: the length asked for and the bytes
/// accumulated so far.
pub struct ReadProgress {
    pub min_len: nat,
    pub data: Seq<u8>,
}

impl ReadProgress {
    /// A read in progress has taken whole chunks only and still lacks
    /// bytes.
    pub open spec fn wants_more(self) -> bool {
        self.data.len() % (BYTES_PER_READ as nat) == 0 && self.data.len() < self.min_len
    }
}

/// What one chunk does to a read.
pub enum ChunkEffect {
    /// The channel reported an error.
    Failed,
    /// The chunk was full and more bytes are wanted.
    Continues(ReadProgress),
    /// The read is over with these bytes.
    Ends(Seq<u8>),
}

/// The effect of a chunk read that returned `ret` and left its bytes at the
/// start of `buffer`. A negative `ret` fails the read. A chunk shorter than
/// asked for is the natural end of the data: its bytes are kept and nothing
/// more is read. A full chunk is kept whole, and the read goes on while it
/// has fewer bytes than it was asked for.
pub open spec fn after_chunk(progress: ReadProgress, ret: int, buffer: Seq<u8>) -> ChunkEffect {
    if ret < 0 {
        ChunkEffect::Failed
    } else if ret < BYTES_PER_READ {
        ChunkEffect::Ends(progress.data + buffer.take(ret))
    } else if progress.data.len() + buffer.len() < progress.min_len {
        ChunkEffect::Continues(
            ReadProgress { min_len: progress.min_len, data: progress.data + buffer },
        )
    } else {
        ChunkEffect::Ends(progress.data + buffer)
    }
}

/// What a chunk read at `offset` returns from a target that holds `source`:
/// the bytes from there on, [`BYTES_PER_READ`] of them at most.
pub open spec fn source_chunk(source: Seq<u8>, offset: nat) -> Seq<u8> {
    if offset >= source.len() {
        Seq::empty()
    } else if source.len() - offset < BYTES_PER_READ {
        source.subrange(offset as int, source.len() as int)
    } else {
        source.subrange(offset as int, offset + BYTES_PER_READ)
    }
}

/// A chunk buffer that starts with `chunk`.
pub open spec fn buffer_holding(chunk: Seq<u8>) -> Seq<u8> {
    chunk + Seq::new((BYTES_PER_READ - chunk.len()) as nat, |i: int| 0u8)
}

/// How a read went: the bytes it ended with and the chunks it asked for.
pub struct ReadRun {
    pub data: Seq<u8>,
    pub chunks: nat,
}

/// How the read `progress` goes on over a target that holds `source` and
/// answers every chunk read without error.
pub open spec fn run_over(progress: ReadProgress, source: Seq<u8>) -> ReadRun
    decreases progress.min_len - progress.data.len(),
{
    let chunk = source_chunk(source, progress.data.len());
    match after_chunk(progress, chunk.len() as int, buffer_holding(chunk)) {
        ChunkEffect::Continues(next) => {
            let rest = run_over(next, source);
            ReadRun { data: rest.data, chunks: rest.chunks + 1 }
        },
        ChunkEffect::Ends(data) => ReadRun { data, chunks: 1 },
        ChunkEffect::Failed => ReadRun { data: progress.data, chunks: 1 },
    }
}

/// Number of whole chunks that hold at least `min_len` bytes.
pub open spec fn chunks_wanted(min_len: nat) -> nat {
    (min_len + BYTES_PER_READ - 1) as nat / (BYTES_PER_READ as nat)
}

proof fn lemma_run_from(progress: ReadProgress, source: Seq<u8>, taken: nat)
    requires
        progress.data == source.take(BYTES_PER_READ * taken),
        BYTES_PER_READ * taken <= source.len(),
        BYTES_PER_READ * taken < progress.min_len,
    ensures
        run_over(progress, source).data == source.take(
            min(source.len() as int, BYTES_PER_READ * chunks_wanted(progress.min_len)),
        ),
        run_over(progress, source).chunks + taken == min(
            chunks_wanted(progress.min_len) as int,
            source.len() as int / (BYTES_PER_READ as int) + 1,
        ),
    decreases progress.min_len - progress.data.len(),
{
    let offset = progress.data.len();
    let chunk = source_chunk(source, offset);
    let buffer = buffer_holding(chunk);
    assert(offset == BYTES_PER_READ * taken);
    if chunk.len() < BYTES_PER_READ {
        assert(buffer.take(chunk.len() as int) =~= chunk);
        assert(progress.data + chunk =~= source.take(source.len() as int));
    } else {
        assert(buffer =~= chunk);
        assert(progress.data + chunk =~= source.take(BYTES_PER_READ * (taken + 1)));
        if offset + BYTES_PER_READ < progress.min_len {
            let next = ReadProgress { min_len: progress.min_len, data: progress.data + buffer };
            lemma_run_from(next, source, taken + 1);
        }
    }
}

/// A read of at least `min_len` bytes, over a target that holds `source`
/// and answers every chunk read without error, ends with a prefix of
/// `source`: all of it, or as many whole chunks as hold `min_len` bytes,
/// whichever is less. It asks for that many chunks, or for one more than
/// `source` has whole chunks, whichever is less, and for none after a short
/// one.
pub proof fn lemma_read_takes_prefix(min_len: nat, source: Seq<u8>)
    requires
        min_len > 0,
    ensures
        run_over(ReadProgress { min_len, data: Seq::empty() }, source).data == source.take(
            min(source.len() as int, BYTES_PER_READ * chunks_wanted(min_len)),
        ),
        run_over(ReadProgress { min_len, data: Seq::empty() }, source).chunks == min(
            chunks_wanted(min_len) as int,
            source.len() as int / (BYTES_PER_READ as int) + 1,
        ),
{
    let start = ReadProgress { min_len, data: Seq::empty() };
    assert(start.data =~= source.take(0));
    lemma_run_from(start, source, 0);
}

/// A read that waits for its next chunk.
#[derive(Debug)]
pub struct RawRead {
    min_len: usize,
    data: Vec<u8>,
}

impl View for RawRead {
    type V = ReadProgress;

    closed spec fn view(&self) -> ReadProgress {
        ReadProgress { min_len: self.min_len as nat, data: self.data@ }
    }
}

/// Where a read stands after a step.
#[derive(Debug)]
pub enum ReadStep {
    /// The caller reads the next chunk of [`BYTES_PER_READ`] bytes at
    /// [`RawRead::offset`] and reports it with [`RawRead::on_chunk`].
    Chunk(RawRead),
    /// The read is over and this is its text.
    Done(String),
}

impl RawRead {
    #[verifier::type_invariant]
    spec fn in_progress(self) -> bool {
        self@.wants_more()
    }

    /// Distance from the start of the target at which the next chunk is
    /// read. It is zero for the first chunk of every read.
    pub fn offset(&self) -> (offset: usize)
        ensures
            offset == self@.data.len(),
    {
        self.data.len()
    }

    /// Takes the outcome of the chunk read: `ret` is what the read call
    /// returned, `buffer` the buffer it filled.
    pub fn on_chunk(self, ret: isize, buffer: &[u8; BYTES_PER_READ]) -> (step: Result<
        ReadStep,
        FdError,
    >)
        ensures
            match after_chunk(self@, ret as int, buffer@) {
                ChunkEffect::Failed => step == Err::<ReadStep, FdError>(FdError::ReadError),
                ChunkEffect::Continues(progress) => step matches Ok(ReadStep::Chunk(next))
                    && next@ == progress && progress.wants_more(),
                ChunkEffect::Ends(data) => step matches Ok(ReadStep::Done(text)) && text@
                    == read_text(data) && (valid_utf8(data) ==> text@ == trimmed(
                    decode_utf8(data),
                )),
            },
    {
        proof {
            use_type_invariant(&self);
        }
        let RawRead { min_len, mut data } = self;
        if ret < 0 {
            return Err(FdError::ReadError);
        } else if ret < BYTES_PER_READ as isize {
            let taken = slice_subrange(buffer.as_slice(), 0, ret as usize);
            data.extend_from_slice(taken);
            assert(data@ == self@.data + buffer@.take(ret as int));
            return Ok(ReadStep::Done(text_of(&data)));
        }
        data.extend_from_slice(buffer.as_slice());
        assert(data@ == self@.data + buffer@);
        if data.len() < min_len {
            Ok(ReadStep::Chunk(RawRead { min_len, data }))
        } else {
            Ok(ReadStep::Done(text_of(&data)))
        }
    }
}

/// An open descriptor, exclusively owned.
#[derive(Debug)]
pub struct Fd {
    fd: i32,
}

impl View for Fd {
    type V = int;

    closed spec fn view(&self) -> int {
        self.fd as int
    }
}

impl Fd {
    #[verifier::type_invariant]
    spec fn is_open(self) -> bool {
        self.fd >= 0
    }

    /// Accepts the handle that the open call returned. A negative handle
    /// means that the open failed.
    pub fn new(handle: i32) -> (fd: Result<Fd, FdError>)
        ensures
            handle < 0 ==> fd == Err::<Fd, FdError>(FdError::OpenError),
            handle >= 0 ==> (fd matches Ok(opened) && opened@ == handle),
    {
        if handle < 0 {
            return Err(FdError::OpenError);
        }
        Ok(Fd { fd: handle })
    }

    /// The handle, for the caller's system calls.
    pub fn descriptor(&self) -> (handle: i32)
        ensures
            handle == self@,
            handle >= 0,
    {
        proof {
            use_type_invariant(self);
        }
        self.fd
    }

    /// Begins a read of at least `min_len` bytes from the start of the
    /// target. A read of no bytes is over at once, with an empty text.
    pub fn read(&self, min_len: usize) -> (step: ReadStep)
        ensures
            min_len == 0 ==> (step matches ReadStep::Done(text) && text@ == read_text(
                Seq::<u8>::empty(),
            ) && text@ == Seq::<char>::empty()),
            min_len > 0 ==> (step matches ReadStep::Chunk(first) && first@ == (ReadProgress {
                min_len: min_len as nat,
                data: Seq::<u8>::empty(),
            }) && first@.wants_more()),
    {
        let data: Vec<u8> = Vec::new();
        if 0 < min_len {
            ReadStep::Chunk(RawRead { min_len, data })
        } else {
            let text = text_of(&data);
            assert(text@ == Seq::<char>::empty()) by {
                assert(valid_utf8(data@));
                assert(decode_utf8(data@) =~= Seq::<char>::empty());
            }
            ReadStep::Done(text)
        }
    }
}

} // verus!
