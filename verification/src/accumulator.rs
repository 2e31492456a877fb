//! The byte accumulator: a streamed body is gathered in memory, moved to a
//! temporary file once it reaches a threshold, and cut off at a size cap.
//!
//! The accumulator decides; the caller owns the file. Each chunk is offered,
//! the accumulator answers with the step to take, and the caller reports how a
//! file operation ended.

use vstd::prelude::*;
use crate::text::append_bytes;

verus! {

/// The default spill threshold: 8 KiB.
pub const SPILL_THRESHOLD: usize = 8192;

/// The floor of a size cap that is set: 1 MiB.
pub const MIN_SIZE_BYTES: usize = 1_048_576;

/// The size cap that stands for an override that is no number: 1 GiB.
pub const DEFAULT_MAX_SIZE_BYTES: usize = 1_073_741_824;

// ---------------------------------------------------------------------------
// The size cap
// ---------------------------------------------------------------------------

/// The number that a text of decimal digits denotes.
pub open spec fn decimal_value(digits: Seq<char>) -> nat
    decreases digits.len(),
{
    if digits.len() == 0 {
        0
    } else {
        10 * decimal_value(digits.drop_last()) + ((digits.last() as u32 - '0' as u32) as nat)
    }
}

/// Every character is a decimal digit.
pub open spec fn all_digits(digits: Seq<char>) -> bool {
    forall|i: int| 0 <= i < digits.len() ==> '0' <= #[trigger] digits[i] && digits[i] <= '9'
}

/// What parsing `s` as a `usize` gives: an optional `+`, then digits only, and
/// a value that fits.
pub open spec fn parsed_usize(s: Seq<char>) -> Option<usize> {
    let digits = if s.len() > 0 && s[0] == '+' {
        s.skip(1)
    } else {
        s
    };
    if digits.len() > 0 && all_digits(digits) && decimal_value(digits) <= usize::MAX {
        Some(decimal_value(digits) as usize)
    } else {
        None
    }
}

/// `str::parse::<usize>`: the text is an optional `+` sign followed by decimal
/// digits only; anything else, and a value that does not fit, is refused.
#[verifier::external_body]
fn parse_usize(s: &str) -> (r: Option<usize>)
    ensures
        r == parsed_usize(s@),
{
    s.parse::<usize>().ok()
}

/// The size cap that an override gives: none when there is no override or it
/// says 0, else the number it holds, raised to the floor; an override that is
/// no number stands for 1 GiB.
pub open spec fn size_cap(setting: Option<Seq<char>>) -> usize {
    match setting {
        None => 0,
        Some(s) => {
            let b = match parsed_usize(s) {
                Some(n) => n,
                None => DEFAULT_MAX_SIZE_BYTES,
            };
            size_cap_of(b)
        },
    }
}

/// A cap of 0 means no cap; any other cap is at least the floor.
pub open spec fn size_cap_of(b: usize) -> usize {
    if b == 0 {
        0
    } else if b < MIN_SIZE_BYTES {
        MIN_SIZE_BYTES
    } else {
        b
    }
}

/// Clamp a size cap: 0 stays 0 and means unlimited, anything else is raised
/// to the floor of 1 MiB.
pub fn clamp_size_cap(b: usize) -> (r: usize)
    ensures
        r == size_cap_of(b),
{
    if b == 0 {
        0
    } else if b < MIN_SIZE_BYTES {
        MIN_SIZE_BYTES
    } else {
        b
    }
}

/// The text of an optional string slice.
pub open spec fn setting_text(setting: Option<&str>) -> Option<Seq<char>> {
    match setting {
        Some(s) => Some(s@),
        None => None,
    }
}

/// The size cap for fetched bodies, from the text of the override that the
/// caller read from its surroundings: 0 means unlimited.
pub fn max_size_bytes(setting: Option<&str>) -> (r: usize)
    ensures
        r == size_cap(setting_text(setting)),
{
    match setting {
        None => 0,
        Some(s) => {
            let b = match parse_usize(s) {
                Some(n) => n,
                None => DEFAULT_MAX_SIZE_BYTES,
            };
            clamp_size_cap(b)
        },
    }
}

// ---------------------------------------------------------------------------
// The accumulator
// ---------------------------------------------------------------------------

/// Where the temporary file of an accumulation stands.
#[derive(Debug, Clone, Copy, PartialEq, Eq, Structural)]
pub enum FileState {
    /// No file was asked for.
    NoFile,
    /// The caller was asked to create the file and has not reported yet.
    Creating,
    /// The file holds the start of the body and takes the chunks that follow.
    Open,
    /// The file holds the start of the body; a write failed, what follows is
    /// kept in memory.
    Closed,
    /// The file could not be created or written: everything is in memory.
    Abandoned,
}

/// What the caller does with the chunk it offered.
#[derive(Debug, Clone, Copy, PartialEq, Eq, Structural)]
pub enum Step {
    /// Nothing: the chunk is in the memory buffer.
    Buffered,
    /// Create the temporary file, write the pending bytes to it, and report
    /// with `spilled`.
    Spill,
    /// Append the chunk to the temporary file, and report with `appended`.
    Append,
    /// Stop reading: the chunk would pass the size cap and is left out.
    Stop,
}

/// What an accumulator holds.
pub struct AccumulatorView {
    /// Every byte taken so far, in the order it came.
    pub accepted: Seq<u8>,
    /// The bytes that were reported as written to the file.
    pub on_disk: Seq<u8>,
    /// The bytes in the memory buffer.
    pub in_memory: Seq<u8>,
    /// Where the file stands.
    pub file: FileState,
    /// Whether the size cap ended the accumulation.
    pub stopped: bool,
    /// The size cap; 0 means none.
    pub max_bytes: usize,
    /// The buffered length at which the body moves to the file.
    pub spill_threshold: usize,
}

impl AccumulatorView {
    /// The file holds the start of the body.
    pub open spec fn uses_file(self) -> bool {
        self.file == FileState::Open || self.file == FileState::Closed
    }

    /// What holds of every accumulator: memory follows the file, and the cap
    /// is kept.
    pub open spec fn wf(self) -> bool {
        &&& self.accepted == self.on_disk + self.in_memory
        &&& self.accepted.len() <= usize::MAX
        &&& self.max_bytes > 0 ==> self.accepted.len() <= self.max_bytes
        &&& !self.uses_file() ==> self.on_disk.len() == 0
        &&& self.file == FileState::Open ==> self.in_memory.len() == 0
    }

    /// Whether a chunk of `more` bytes is left out: it would pass the cap, or
    /// the count of bytes would no longer fit the machine.
    pub open spec fn cuts_off(self, more: nat) -> bool {
        ||| self.stopped
        ||| self.max_bytes > 0 && self.accepted.len() + more > self.max_bytes
        ||| self.accepted.len() + more > usize::MAX
    }

    /// The step that answers a chunk of `more` bytes.
    pub open spec fn step_for(self, more: nat) -> Step {
        if self.cuts_off(more) {
            Step::Stop
        } else if self.file == FileState::Open {
            Step::Append
        } else if self.file == FileState::NoFile && self.in_memory.len() + more
            >= self.spill_threshold {
            Step::Spill
        } else {
            Step::Buffered
        }
    }

    /// The accumulator after `chunk` was offered.
    pub open spec fn after_offer(self, chunk: Seq<u8>) -> AccumulatorView {
        match self.step_for(chunk.len()) {
            Step::Stop => AccumulatorView { stopped: true, ..self },
            Step::Append => self,
            Step::Spill => AccumulatorView {
                accepted: self.accepted + chunk,
                in_memory: self.in_memory + chunk,
                file: FileState::Creating,
                ..self
            },
            Step::Buffered => AccumulatorView {
                accepted: self.accepted + chunk,
                in_memory: self.in_memory + chunk,
                ..self
            },
        }
    }

    /// The accumulator after the caller reported on the file's creation.
    pub open spec fn after_spilled(self, ok: bool) -> AccumulatorView {
        if self.file != FileState::Creating {
            self
        } else if ok {
            AccumulatorView {
                on_disk: self.in_memory,
                in_memory: Seq::empty(),
                file: FileState::Open,
                ..self
            }
        } else {
            AccumulatorView { file: FileState::Abandoned, ..self }
        }
    }

    /// The accumulator after the caller reported on appending `chunk`.
    pub open spec fn after_appended(self, chunk: Seq<u8>, ok: bool) -> AccumulatorView {
        if self.step_for(chunk.len()) != Step::Append {
            self
        } else if ok {
            AccumulatorView {
                accepted: self.accepted + chunk,
                on_disk: self.on_disk + chunk,
                ..self
            }
        } else {
            AccumulatorView {
                accepted: self.accepted + chunk,
                in_memory: self.in_memory + chunk,
                file: FileState::Closed,
                ..self
            }
        }
    }

    /// The body that comes out when the file read back gives `file`.
    pub open spec fn body(self, file: Option<Seq<u8>>) -> Seq<u8> {
        match file {
            Some(f) if self.uses_file() => f + self.in_memory,
            _ => self.in_memory,
        }
    }
}

/// Gathers a streamed body.
pub struct Accumulator {
    max_bytes: usize,
    spill_threshold: usize,
    buffer: Vec<u8>,
    disk_len: usize,
    file: FileState,
    stopped: bool,
    on_disk: Ghost<Seq<u8>>,
}

impl View for Accumulator {
    type V = AccumulatorView;

    closed spec fn view(&self) -> AccumulatorView {
        AccumulatorView {
            accepted: self.on_disk@ + self.buffer@,
            on_disk: self.on_disk@,
            in_memory: self.buffer@,
            file: self.file,
            stopped: self.stopped,
            max_bytes: self.max_bytes,
            spill_threshold: self.spill_threshold,
        }
    }
}

impl Accumulator {
    /// What holds of every accumulator that this module hands out.
    pub closed spec fn wf(&self) -> bool {
        &&& self@.wf()
        &&& self.disk_len == self.on_disk@.len()
    }

    /// An empty accumulator. A `max_bytes` of `None` or of 0 sets no cap.
    pub fn new(max_bytes: Option<usize>, spill_threshold: usize) -> (acc: Accumulator)
        ensures
            acc.wf(),
            acc@.accepted == Seq::<u8>::empty(),
            acc@.on_disk == Seq::<u8>::empty(),
            acc@.in_memory == Seq::<u8>::empty(),
            acc@.file == FileState::NoFile,
            !acc@.stopped,
            acc@.max_bytes == (match max_bytes {
                Some(n) => n,
                None => 0,
            }),
            acc@.spill_threshold == spill_threshold,
    {
        let acc = Accumulator {
            max_bytes: match max_bytes {
                Some(n) => n,
                None => 0,
            },
            spill_threshold,
            buffer: Vec::new(),
            disk_len: 0,
            file: FileState::NoFile,
            stopped: false,
            on_disk: Ghost(Seq::empty()),
        };
        assert(acc@.accepted =~= Seq::<u8>::empty());
        acc
    }

    /// An accumulator that never asks for a file: the raw backend.
    pub fn in_memory(max_bytes: Option<usize>) -> (acc: Accumulator)
        ensures
            acc.wf(),
            acc@.accepted == Seq::<u8>::empty(),
            acc@.in_memory == Seq::<u8>::empty(),
            acc@.on_disk == Seq::<u8>::empty(),
            acc@.file == FileState::Abandoned,
            !acc@.stopped,
            acc@.max_bytes == (match max_bytes {
                Some(n) => n,
                None => 0,
            }),
    {
        let acc = Accumulator {
            max_bytes: match max_bytes {
                Some(n) => n,
                None => 0,
            },
            spill_threshold: 0,
            buffer: Vec::new(),
            disk_len: 0,
            file: FileState::Abandoned,
            stopped: false,
            on_disk: Ghost(Seq::empty()),
        };
        assert(acc@.accepted =~= Seq::<u8>::empty());
        acc
    }

    /// The count of bytes taken so far.
    pub fn len(&self) -> (n: usize)
        requires
            self.wf(),
        ensures
            n == self@.accepted.len(),
    {
        self.disk_len + self.buffer.len()
    }

    /// Where the file stands.
    pub fn file(&self) -> (f: FileState)
        ensures
            f == self@.file,
    {
        self.file
    }

    /// Whether the size cap ended the accumulation.
    pub fn stopped(&self) -> (b: bool)
        ensures
            b == self@.stopped,
    {
        self.stopped
    }

    /// Whether the caller has a file to read back and delete at the end.
    pub fn uses_file(&self) -> (b: bool)
        ensures
            b == self@.uses_file(),
    {
        match self.file {
            FileState::Open => true,
            FileState::Closed => true,
            _ => false,
        }
    }

    /// The bytes in the memory buffer: what `Step::Spill` asks the caller to
    /// write to the new file.
    pub fn pending(&self) -> (b: &[u8])
        ensures
            b@ == self@.in_memory,
    {
        self.buffer.as_slice()
    }

    /// Offer the next chunk of the stream, and learn what to do with it.
    pub fn offer(&mut self, chunk: &[u8]) -> (step: Step)
        requires
            old(self).wf(),
        ensures
            final(self).wf(),
            step == old(self)@.step_for(chunk@.len()),
            final(self)@ == old(self)@.after_offer(chunk@),
    {
        let more = chunk.len();
        let total = self.disk_len + self.buffer.len();
        let cut = self.stopped || match total.checked_add(more) {
            Some(sum) => self.max_bytes > 0 && sum > self.max_bytes,
            None => true,
        };
        if cut {
            self.stopped = true;
            return Step::Stop;
        }
        match self.file {
            FileState::Open => Step::Append,
            FileState::NoFile => {
                let spill = self.buffer.len() + more >= self.spill_threshold;
                append_bytes(&mut self.buffer, chunk);
                proof {
                    assert(self.on_disk@ + (old(self).buffer@ + chunk@) =~= (self.on_disk@ + old(
                        self,
                    ).buffer@) + chunk@);
                }
                if spill {
                    self.file = FileState::Creating;
                    Step::Spill
                } else {
                    Step::Buffered
                }
            },
            _ => {
                append_bytes(&mut self.buffer, chunk);
                proof {
                    assert(self.on_disk@ + (old(self).buffer@ + chunk@) =~= (self.on_disk@ + old(
                        self,
                    ).buffer@) + chunk@);
                }
                Step::Buffered
            },
        }
    }

    /// Report how creating the file and writing the pending bytes ended. On
    /// failure the body stays in memory and no file is used again.
    pub fn spilled(&mut self, ok: bool)
        requires
            old(self).wf(),
        ensures
            final(self).wf(),
            final(self)@ == old(self)@.after_spilled(ok),
    {
        match self.file {
            FileState::Creating => {
                if ok {
                    proof {
                        self.on_disk = Ghost(self.buffer@);
                    }
                    self.disk_len = self.buffer.len();
                    self.buffer.clear();
                    self.file = FileState::Open;
                    proof {
                        assert(self.on_disk@ + self.buffer@ =~= old(self).on_disk@ + old(
                            self,
                        ).buffer@);
                    }
                } else {
                    self.file = FileState::Abandoned;
                }
            },
            _ => {},
        }
    }

    /// Report how appending `chunk` to the file ended. On failure the chunk
    /// and all that follows is kept in memory, after what the file holds.
    pub fn appended(&mut self, chunk: &[u8], ok: bool)
        requires
            old(self).wf(),
        ensures
            final(self).wf(),
            final(self)@ == old(self)@.after_appended(chunk@, ok),
    {
        let more = chunk.len();
        let total = self.disk_len + self.buffer.len();
        let cut = self.stopped || match total.checked_add(more) {
            Some(sum) => self.max_bytes > 0 && sum > self.max_bytes,
            None => true,
        };
        if cut {
            return ;
        }
        match self.file {
            FileState::Open => {
                if ok {
                    proof {
                        self.on_disk = Ghost(self.on_disk@ + chunk@);
                        assert(self.on_disk@ + self.buffer@ =~= (old(self).on_disk@ + old(
                            self,
                        ).buffer@) + chunk@);
                    }
                    self.disk_len = self.disk_len + more;
                } else {
                    append_bytes(&mut self.buffer, chunk);
                    self.file = FileState::Closed;
                    proof {
                        assert(self.on_disk@ + self.buffer@ =~= (old(self).on_disk@ + old(
                            self,
                        ).buffer@) + chunk@);
                    }
                }
            },
            _ => {},
        }
    }

    /// End the accumulation. `file` holds what reading the temporary file back
    /// gave, or `None` where there is no file or it could not be read.
    pub fn finish(self, file: Option<Vec<u8>>) -> (body: Vec<u8>)
        requires
            self.wf(),
        ensures
            body@ == self@.body(bytes_of(file)),
    {
        let uses_file = self.uses_file();
        match file {
            Some(mut f) => {
                if uses_file {
                    append_bytes(&mut f, self.buffer.as_slice());
                    f
                } else {
                    self.buffer
                }
            },
            None => self.buffer,
        }
    }
}

/// The bytes of an optional buffer.
pub open spec fn bytes_of(file: Option<Vec<u8>>) -> Option<Seq<u8>> {
    match file {
        Some(f) => Some(f@),
        None => None,
    }
}

// ---------------------------------------------------------------------------
// A whole stream
// ---------------------------------------------------------------------------

/// The bytes of `chunks`, one after the other.
pub open spec fn concat(chunks: Seq<Seq<u8>>) -> Seq<u8>
    decreases chunks.len(),
{
    if chunks.len() == 0 {
        Seq::empty()
    } else {
        chunks[0] + concat(chunks.drop_first())
    }
}

/// Whether a chunk of `more` bytes is left out after `have` bytes under the
/// cap `max`.
pub open spec fn over_cap(max: usize, have: nat, more: nat) -> bool {
    (max > 0 && have + more > max) || have + more > usize::MAX
}

/// `have`, then the chunks of `chunks` up to the first that would pass the cap.
pub open spec fn taken(max: usize, have: Seq<u8>, chunks: Seq<Seq<u8>>) -> Seq<u8>
    decreases chunks.len(),
{
    if chunks.len() == 0 || over_cap(max, have.len(), chunks[0].len()) {
        have
    } else {
        taken(max, have + chunks[0], chunks.drop_first())
    }
}

/// The body that a stream of chunks gives under a size cap: the chunks in
/// order, up to the first that would pass the cap.
pub open spec fn accumulated(chunks: Seq<Seq<u8>>, max: usize) -> Seq<u8> {
    taken(max, Seq::empty(), chunks)
}

/// The byte contents of a sequence of buffers.
pub open spec fn chunk_views(chunks: Seq<Vec<u8>>) -> Seq<Seq<u8>> {
    chunks.map_values(|c: Vec<u8>| c@)
}

/// Whether a stream is moved out of the memory buffer on the way: with a
/// threshold, where the body reaches it; with a threshold of 0, where the
/// first chunk is taken at all.
pub open spec fn spills(chunks: Seq<Seq<u8>>, max: usize, spill_threshold: usize) -> bool {
    if spill_threshold > 0 {
        accumulated(chunks, max).len() >= spill_threshold
    } else {
        chunks.len() > 0 && !over_cap(max, 0, chunks[0].len())
    }
}

/// What came of a stream.
pub struct Accumulated {
    /// The body.
    pub bytes: Vec<u8>,
    /// Whether the body was moved out of the memory buffer on the way.
    pub spilled: bool,
}

/// Accumulate a whole stream whose spill store never fails: the store is
/// handed in and out as bytes, so the body that comes back is the body that
/// went in.
pub fn accumulate(chunks: &Vec<Vec<u8>>, max_bytes: Option<usize>, spill_threshold: usize) -> (r:
    Accumulated)
    ensures
        r.bytes@ == accumulated(
            chunk_views(chunks@),
            match max_bytes {
                Some(n) => n,
                None => 0,
            },
        ),
        r.spilled == spills(
            chunk_views(chunks@),
            match max_bytes {
                Some(n) => n,
                None => 0,
            },
            spill_threshold,
        ),
        r.spilled ==> r.bytes@.len() >= spill_threshold,
        spill_threshold > 0 ==> r.spilled == (r.bytes@.len() >= spill_threshold),
{
    let ghost all = chunk_views(chunks@);
    let ghost max = match max_bytes {
        Some(n) => n,
        None => 0usize,
    };
    let mut acc = Accumulator::new(max_bytes, spill_threshold);
    let mut store: Vec<u8> = Vec::new();
    let mut i: usize = 0;
    assert(all.skip(0) =~= all);
    while i < chunks.len()
        invariant_except_break
            !acc@.stopped,
            taken(max, acc@.accepted, all.skip(i as int)) == accumulated(all, max),
        invariant
            i <= chunks@.len(),
            all == chunk_views(chunks@),
            acc.wf(),
            acc@.max_bytes == max,
            acc@.spill_threshold == spill_threshold,
            acc@.file == FileState::NoFile || acc@.file == FileState::Open,
            acc@.file == FileState::Open ==> acc@.accepted.len() >= spill_threshold,
            spill_threshold > 0 && acc@.file == FileState::NoFile ==> acc@.accepted.len()
                < spill_threshold,
            i == 0 ==> acc@.accepted.len() == 0 && acc@.file == FileState::NoFile,
            spill_threshold == 0 && i > 0 ==> acc@.file == FileState::Open && !over_cap(
                max,
                0,
                all[0].len(),
            ),
            store@ == acc@.on_disk,
        ensures
            acc@.accepted == accumulated(all, max),
            spill_threshold == 0 ==> (acc@.file == FileState::Open) == (all.len() > 0 && !over_cap(
                max,
                0,
                all[0].len(),
            )),
        decreases chunks@.len() - i,
    {
        let chunk = chunks[i].as_slice();
        proof {
            let rest = all.skip(i as int);
            assert(rest[0] == chunk@);
            assert(rest.drop_first() =~= all.skip(i + 1));
        }
        match acc.offer(chunk) {
            Step::Stop => {
                break ;
            },
            Step::Buffered => {},
            Step::Spill => {
                append_bytes(&mut store, acc.pending());
                acc.spilled(true);
            },
            Step::Append => {
                append_bytes(&mut store, chunk);
                acc.appended(chunk, true);
            },
        }
        i = i + 1;
        proof {
            if i == chunks@.len() {
                assert(all.skip(i as int).len() == 0);
            }
        }
    }
    let spilled = acc.uses_file();
    proof {
        assert(acc@.accepted == acc@.on_disk + acc@.in_memory);
        if !acc@.uses_file() {
            assert(acc@.on_disk + acc@.in_memory =~= acc@.in_memory);
        }
    }
    let bytes = acc.finish(Some(store));
    Accumulated { bytes, spilled }
}

// ---------------------------------------------------------------------------
// Laws
// ---------------------------------------------------------------------------

/// A body that stays under the spill threshold never asks for a file: the
/// answer to a chunk is `Spill` only where the buffer would reach the
/// threshold with it.
pub proof fn lemma_no_file_below_threshold(acc: AccumulatorView, chunk: Seq<u8>)
    requires
        acc.wf(),
        acc.in_memory.len() + chunk.len() < acc.spill_threshold,
    ensures
        acc.step_for(chunk.len()) != Step::Spill,
        acc.after_offer(chunk).file == acc.file,
{
}

/// In memory the body only grows, by exactly the chunk that was taken.
pub proof fn lemma_memory_path_exact(acc: AccumulatorView, chunk: Seq<u8>)
    requires
        acc.wf(),
        acc.step_for(chunk.len()) == Step::Buffered,
    ensures
        acc.after_offer(chunk).accepted == acc.accepted + chunk,
        acc.after_offer(chunk).body(None) == acc.body(None) + chunk,
        acc.after_offer(chunk).wf(),
{
    assert(acc.on_disk + (acc.in_memory + chunk) =~= (acc.on_disk + acc.in_memory) + chunk);
}

/// The way through the file loses nothing and keeps the order: where the file
/// gives back what was written to it, the body is every byte taken, in order.
pub proof fn lemma_round_trip_lossless(acc: AccumulatorView)
    requires
        acc.wf(),
    ensures
        acc.body(Some(acc.on_disk)) == acc.accepted,
        !acc.uses_file() ==> acc.body(None) == acc.accepted,
{
    if !acc.uses_file() {
        assert(acc.on_disk + acc.in_memory =~= acc.in_memory);
    }
}

/// The accumulator after a caller that follows the steps has fed it `chunks`,
/// with `ok[i]` telling how the file operation for the chunk `i` ended, where
/// there was one.
pub open spec fn fed(acc: AccumulatorView, chunks: Seq<Seq<u8>>, ok: Seq<bool>) -> AccumulatorView
    decreases chunks.len(),
{
    if chunks.len() == 0 || ok.len() != chunks.len() {
        acc
    } else {
        let chunk = chunks[0];
        match acc.step_for(chunk.len()) {
            Step::Stop => acc.after_offer(chunk),
            Step::Buffered => fed(acc.after_offer(chunk), chunks.drop_first(), ok.drop_first()),
            Step::Spill => fed(
                acc.after_offer(chunk).after_spilled(ok[0]),
                chunks.drop_first(),
                ok.drop_first(),
            ),
            Step::Append => fed(
                acc.after_appended(chunk, ok[0]),
                chunks.drop_first(),
                ok.drop_first(),
            ),
        }
    }
}

/// Whatever file operation fails, nothing is lost and nothing changes place:
/// the accumulator has taken the chunks in order up to the cut, and the body
/// is exactly that where the file gives back what was written to it.
pub proof fn lemma_failures_lose_nothing(acc: AccumulatorView, chunks: Seq<Seq<u8>>, ok: Seq<bool>)
    requires
        acc.wf(),
        !acc.stopped,
        acc.file != FileState::Creating,
        ok.len() == chunks.len(),
    ensures
        fed(acc, chunks, ok).wf(),
        fed(acc, chunks, ok).accepted == taken(acc.max_bytes, acc.accepted, chunks),
        fed(acc, chunks, ok).body(Some(fed(acc, chunks, ok).on_disk)) == taken(
            acc.max_bytes,
            acc.accepted,
            chunks,
        ),
    decreases chunks.len(),
{
    if chunks.len() == 0 {
        lemma_round_trip_lossless(acc);
    } else {
        let chunk = chunks[0];
        let rest = chunks.drop_first();
        let oks = ok.drop_first();
        assert(acc.on_disk + (acc.in_memory + chunk) =~= (acc.on_disk + acc.in_memory) + chunk);
        match acc.step_for(chunk.len()) {
            Step::Stop => {
                lemma_round_trip_lossless(acc.after_offer(chunk));
            },
            Step::Buffered => {
                lemma_failures_lose_nothing(acc.after_offer(chunk), rest, oks);
            },
            Step::Spill => {
                let next = acc.after_offer(chunk).after_spilled(ok[0]);
                assert(next.accepted == next.on_disk + next.in_memory) by {
                    assert(next.in_memory + Seq::<u8>::empty() =~= next.in_memory);
                    assert(acc.on_disk =~= Seq::<u8>::empty());
                    if ok[0] {
                        assert(next.on_disk + next.in_memory =~= acc.in_memory + chunk);
                    }
                    assert(acc.on_disk + (acc.in_memory + chunk) =~= acc.in_memory + chunk);
                }
                lemma_failures_lose_nothing(next, rest, oks);
            },
            Step::Append => {
                assert(acc.in_memory =~= Seq::<u8>::empty());
                assert((acc.on_disk + chunk) + acc.in_memory =~= (acc.on_disk + acc.in_memory)
                    + chunk);
                lemma_failures_lose_nothing(acc.after_appended(chunk, ok[0]), rest, oks);
            },
        }
    }
}

/// Under a cap of `max` bytes no more than `max` bytes are taken, whatever
/// the chunks.
pub proof fn lemma_cap_respected(max: usize, have: Seq<u8>, chunks: Seq<Seq<u8>>)
    requires
        max > 0,
        have.len() <= max,
    ensures
        taken(max, have, chunks).len() <= max,
    decreases chunks.len(),
{
    if chunks.len() == 0 || over_cap(max, have.len(), chunks[0].len()) {
    } else {
        lemma_cap_respected(max, have + chunks[0], chunks.drop_first());
    }
}

/// Under a cap, the body of a stream is no longer than the cap.
pub proof fn lemma_accumulated_within_cap(chunks: Seq<Seq<u8>>, max: usize)
    requires
        max > 0,
    ensures
        accumulated(chunks, max).len() <= max,
{
    lemma_cap_respected(max, Seq::empty(), chunks);
}

/// Without a cap every chunk is taken, as long as the count of bytes fits the
/// machine.
pub proof fn lemma_unlimited_takes_all(have: Seq<u8>, chunks: Seq<Seq<u8>>)
    requires
        have.len() + concat(chunks).len() <= usize::MAX,
    ensures
        taken(0, have, chunks) == have + concat(chunks),
    decreases chunks.len(),
{
    if chunks.len() == 0 {
        assert(have + concat(chunks) =~= have);
    } else {
        lemma_unlimited_takes_all(have + chunks[0], chunks.drop_first());
        assert((have + chunks[0]) + concat(chunks.drop_first()) =~= have + concat(chunks));
    }
}

/// Without a cap the body of a stream is the whole input.
pub proof fn lemma_accumulated_unlimited(chunks: Seq<Seq<u8>>)
    requires
        concat(chunks).len() <= usize::MAX,
    ensures
        accumulated(chunks, 0) == concat(chunks),
{
    lemma_unlimited_takes_all(Seq::empty(), chunks);
    assert(Seq::<u8>::empty() + concat(chunks) =~= concat(chunks));
}

/// What is taken is a prefix of the input: the chunks in order, cut at a
/// chunk boundary.
pub proof fn lemma_taken_is_prefix(max: usize, have: Seq<u8>, chunks: Seq<Seq<u8>>)
    ensures
        crate::text::is_prefix(taken(max, have, chunks), have + concat(chunks)),
        crate::text::is_prefix(have, taken(max, have, chunks)),
    decreases chunks.len(),
{
    let whole = have + concat(chunks);
    if chunks.len() == 0 || over_cap(max, have.len(), chunks[0].len()) {
        assert(whole.subrange(0, have.len() as int) =~= have);
        assert(have.subrange(0, have.len() as int) =~= have);
    } else {
        let next = have + chunks[0];
        lemma_taken_is_prefix(max, next, chunks.drop_first());
        let t = taken(max, next, chunks.drop_first());
        assert(next + concat(chunks.drop_first()) =~= whole);
        assert(t.subrange(0, have.len() as int) =~= t.subrange(0, next.len() as int).subrange(
            0,
            have.len() as int,
        ));
        assert(next.subrange(0, have.len() as int) =~= have);
    }
}

} // verus!
