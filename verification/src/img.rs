//! Image loading helpers: decisions around the image decoder's stream callbacks
//!
//! The decoder pulls bytes through a read callback that fills its buffer as much as the
//! stream allows. The filling loop is driven by the caller: `ReadProgress::start` opens it and
//! `read_as_much` takes each outcome of a read into the rest of the buffer.

use vstd::prelude::*;

verus! {

/// How far filling a buffer has come: bytes read so far and bytes still free
#[derive(Debug, Clone, Copy, PartialEq, Eq, Structural)]
pub struct ReadProgress {
    pub read: usize,
    pub remaining: usize,
}

/// Outcome of one read into the free part of the buffer
#[derive(Debug, Clone, Copy, PartialEq, Eq, Structural)]
pub enum ReadEvent {
    /// The reader put this many bytes at the start of the free part
    Read(usize),
    /// The read was interrupted and can be retried
    Interrupted,
    /// The read failed with any other error
    Failed,
}

/// What to do next
#[derive(Debug, Clone, Copy, PartialEq, Eq, Structural)]
pub enum ReadStep {
    /// Read again into the free part described here
    Continue(ReadProgress),
    /// Filling is over; this many bytes were read
    Done(usize),
    /// Filling failed with the reader's error
    Fail,
}

impl ReadProgress {
    /// First step of filling a buffer of `len` bytes: nothing to do for an empty buffer
    pub fn start(len: usize) -> (r: ReadStep)
        ensures
            len == 0 ==> r == ReadStep::Done(0),
            len > 0 ==> r == ReadStep::Continue(ReadProgress { read: 0, remaining: len }),
    {
        if len == 0 {
            ReadStep::Done(0)
        } else {
            ReadStep::Continue(ReadProgress { read: 0, remaining: len })
        }
    }
}

/// Next step of filling a buffer as much as possible. A read of zero bytes ends the filling, a
/// read of `n` bytes moves `n` bytes from free to read and ends it when nothing is free, an
/// interrupted read is retried, any other error fails. A reader never reports more bytes than
/// it was given room for.
pub fn read_as_much(progress: ReadProgress, event: ReadEvent) -> (r: ReadStep)
    requires
        progress.read + progress.remaining <= usize::MAX,
        event matches ReadEvent::Read(n) ==> n <= progress.remaining,
    ensures
        r == read_as_much_spec(progress, event),
{
    match event {
        ReadEvent::Read(n) => {
            if n == 0 {
                ReadStep::Done(progress.read)
            } else {
                let next = ReadProgress {
                    read: progress.read + n,
                    remaining: progress.remaining - n,
                };
                if next.remaining == 0 {
                    ReadStep::Done(next.read)
                } else {
                    ReadStep::Continue(next)
                }
            }
        },
        ReadEvent::Interrupted => ReadStep::Continue(progress),
        ReadEvent::Failed => ReadStep::Fail,
    }
}

/// Filling keeps the total fixed and never reports more than the buffer holds: each step from
/// an unfinished progress of `total` bytes continues with a progress of `total` bytes, and a finished
/// filling read at most `total` bytes.
pub proof fn lemma_read_as_much_bounded(progress: ReadProgress, event: ReadEvent)
    requires
        progress.read + progress.remaining <= usize::MAX,
        progress.remaining > 0,
        event matches ReadEvent::Read(n) ==> n <= progress.remaining,
    ensures
        read_as_much_spec(progress, event) matches ReadStep::Continue(p) ==> p.read + p.remaining == progress.read
            + progress.remaining && p.remaining > 0,
        read_as_much_spec(progress, event) matches ReadStep::Done(k) ==> k <= progress.read + progress.remaining,
{
}

/// The step `read_as_much` takes, as a function
pub open spec fn read_as_much_spec(progress: ReadProgress, event: ReadEvent) -> ReadStep {
    match event {
        ReadEvent::Read(n) => if n == 0 {
            ReadStep::Done(progress.read)
        } else if n == progress.remaining {
            ReadStep::Done((progress.read + n) as usize)
        } else {
            ReadStep::Continue(
                ReadProgress {
                    read: (progress.read + n) as usize,
                    remaining: (progress.remaining - n) as usize,
                },
            )
        },
        ReadEvent::Interrupted => ReadStep::Continue(progress),
        ReadEvent::Failed => ReadStep::Fail,
    }
}

/// Where filling a buffer stands after a sequence of read outcomes: the step reached when a
/// step ends the filling, or the progress after all of them
pub open spec fn run_reads(progress: ReadProgress, events: Seq<ReadEvent>) -> ReadStep
    decreases events.len(),
{
    if events.len() == 0 {
        ReadStep::Continue(progress)
    } else {
        match read_as_much_spec(progress, events[0]) {
            ReadStep::Continue(p) => run_reads(p, events.drop_first()),
            other => other,
        }
    }
}

/// Whether a sequence of read outcomes comes from a reader of a stream with `left` bytes still
/// to give: no read fails, a read at the end of the stream gives 0 bytes, and any other read
/// gives at least one byte and at most what is free and what is left
pub open spec fn reads_of_stream(progress: ReadProgress, left: nat, events: Seq<ReadEvent>) -> bool
    decreases events.len(),
{
    if events.len() == 0 {
        true
    } else {
        match events[0] {
            ReadEvent::Interrupted => reads_of_stream(progress, left, events.drop_first()),
            ReadEvent::Failed => false,
            ReadEvent::Read(n) => {
                &&& if left == 0 {
                    n == 0
                } else {
                    0 < n && n <= progress.remaining && n <= left
                }
                &&& (0 < n && n < progress.remaining) ==> reads_of_stream(
                    ReadProgress {
                        read: (progress.read + n) as usize,
                        remaining: (progress.remaining - n) as usize,
                    },
                    (left - n) as nat,
                    events.drop_first(),
                )
            },
        }
    }
}

/// Smaller of two numbers
pub open spec fn min_nat(a: nat, b: nat) -> nat {
    if a <= b {
        a
    } else {
        b
    }
}

/// Filling a buffer reads as much as the stream allows: when the reads of a stream with `left`
/// bytes end the filling, the bytes read are the bytes read before plus the smaller of the free
/// space and what the stream had left. Interrupted reads are retried and change nothing.
pub proof fn lemma_fill_reads_min(progress: ReadProgress, left: nat, events: Seq<ReadEvent>)
    requires
        progress.read + progress.remaining <= usize::MAX,
        progress.remaining > 0,
        reads_of_stream(progress, left, events),
    ensures
        run_reads(progress, events) matches ReadStep::Done(k) ==> k == progress.read + min_nat(
            progress.remaining as nat,
            left,
        ),
        !(run_reads(progress, events) is Fail),
    decreases events.len(),
{
    if events.len() > 0 {
        match events[0] {
            ReadEvent::Interrupted => {
                lemma_fill_reads_min(progress, left, events.drop_first());
            },
            ReadEvent::Failed => {},
            ReadEvent::Read(n) => {
                if 0 < n && n < progress.remaining {
                    let next = ReadProgress {
                        read: (progress.read + n) as usize,
                        remaining: (progress.remaining - n) as usize,
                    };
                    lemma_fill_reads_min(next, (left - n) as nat, events.drop_first());
                }
            },
        }
    }
}

/// Arguments of the decoder's load call derived from an optional forced size
#[derive(Debug, Clone, Copy, PartialEq, Eq, Structural)]
pub struct LoadRequest {
    pub force_w: i32,
    pub force_h: i32,
    pub do_zoom: bool,
}

/// With a forced size the decoder crops to it (each side read as a signed 32-bit value);
/// without one it gets -1 for both sides and no cropping
pub fn load_request(force_size: Option<[u32; 2]>) -> (r: LoadRequest)
    ensures
        r.do_zoom == force_size is Some,
        force_size matches Some(s) ==> r.force_w == s[0] as i32 && r.force_h == s[1] as i32,
        force_size is None ==> r.force_w == -1 && r.force_h == -1,
{
    match force_size {
        Some(size) => LoadRequest { force_w: size[0] as i32, force_h: size[1] as i32, do_zoom: true },
        None => LoadRequest { force_w: -1, force_h: -1, do_zoom: false },
    }
}

/// Byte length and size of a decoded image, as the decoder's signed outputs read unsigned
pub fn loaded_image(len: i32, w: i32, h: i32) -> (r: (u32, [u32; 2]))
    ensures
        r.0 == len as u32,
        r.1[0] == w as u32,
        r.1[1] == h as u32,
{
    (len as u32, [w as u32, h as u32])
}

} // verus!
