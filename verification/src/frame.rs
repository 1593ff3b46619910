use vstd::prelude::*;

use crate::constants::{HEAD, TAIL};
use crate::error::Error;

verus! {

/// Length of every frame the sensor sends.
pub const REPLY_LEN: usize = 10;

/// The sum of the bytes of `s`, as a natural number.
pub open spec fn byte_sum(s: Seq<u8>) -> nat
    decreases s.len(),
{
    if s.len() == 0 {
        0
    } else {
        byte_sum(s.drop_last()) + s.last() as nat
    }
}

/// The SDS011 checksum of `s`: the low byte of the sum of its bytes.
pub open spec fn checksum_of(s: Seq<u8>) -> u8 {
    (byte_sum(s) % 256) as u8
}

/// Computes the checksum of `bytes[start..end]`.
pub fn checksum(bytes: &[u8], start: usize, end: usize) -> (r: u8)
    requires
        start <= end <= bytes@.len(),
    ensures
        r == checksum_of(bytes@.subrange(start as int, end as int)),
{
    let mut acc: u8 = 0;
    let mut i = start;
    while i < end
        invariant
            start <= i <= end,
            end <= bytes@.len(),
            acc == checksum_of(bytes@.subrange(start as int, i as int)),
        decreases end - i,
    {
        let b = bytes[i];
        proof {
            let prev = bytes@.subrange(start as int, i as int);
            let next = bytes@.subrange(start as int, i + 1);
            assert(next.drop_last() =~= prev);
            assert(next.last() == b);
            let a = byte_sum(prev) as int;
            vstd::arithmetic::div_mod::lemma_add_mod_noop(a, b as int, 256);
            assert((b as int) % 256 == b as int);
        }
        acc = acc.wrapping_add(b);
        i = i + 1;
    }
    acc
}

/// Whether a frame could start at index `i` of `s`: ten bytes from there
/// begin with `HEAD` and end with `TAIL`.
pub open spec fn window_at(s: Seq<u8>, i: int) -> bool {
    &&& 0 <= i
    &&& i + REPLY_LEN <= s.len()
    &&& s[i] == HEAD
    &&& s[i + 9] == TAIL
}

/// The first index at or after `from` at which a frame could start.
pub open spec fn first_window_from(s: Seq<u8>, from: int) -> Option<int>
    decreases s.len() - from,
{
    if from < 0 || from + REPLY_LEN > s.len() {
        None
    } else if window_at(s, from) {
        Some(from)
    } else {
        first_window_from(s, from + 1)
    }
}

/// A ten-byte frame whose checksum byte matches its data bytes `2..8`.
pub open spec fn checksum_ok(frame: Seq<u8>) -> bool {
    frame.len() == REPLY_LEN && checksum_of(frame.subrange(2, 8)) == frame[8]
}

/// What one read yields: the ten bytes at the first `HEAD`..`TAIL` window,
/// if there is one and its checksum holds; nothing otherwise (the window is
/// not searched past).
pub open spec fn spec_scan(s: Seq<u8>) -> Option<Seq<u8>> {
    match first_window_from(s, 0) {
        Some(i) => {
            let frame = s.subrange(i, i + REPLY_LEN);
            if checksum_ok(frame) {
                Some(frame)
            } else {
                None
            }
        },
        None => None,
    }
}

proof fn lemma_first_window_bounds(s: Seq<u8>, from: int)
    ensures
        first_window_from(s, from) matches Some(i) ==> from <= i && window_at(s, i),
    decreases s.len() - from,
{
    if !(from < 0 || from + REPLY_LEN > s.len()) && !window_at(s, from) {
        lemma_first_window_bounds(s, from + 1);
    }
}

/// Finds the first index of `bytes` at which a `HEAD`..`TAIL` window starts.
pub fn find_window(bytes: &[u8]) -> (r: Option<usize>)
    ensures
        r matches Some(i) ==> first_window_from(bytes@, 0) == Some(i as int),
        r is None ==> first_window_from(bytes@, 0) is None,
{
    let len = bytes.len();
    if len < REPLY_LEN {
        return None;
    }
    let mut i: usize = 0;
    while i <= len - REPLY_LEN
        invariant
            len == bytes@.len(),
            REPLY_LEN <= len,
            i <= len - REPLY_LEN + 1,
            first_window_from(bytes@, 0) == first_window_from(bytes@, i as int),
        decreases len - i,
    {
        if bytes[i] == HEAD && bytes[i + 9] == TAIL {
            return Some(i);
        }
        i = i + 1;
    }
    None
}

/// Extracts the frame that one read yields (see `spec_scan`).
pub fn scan_frame(bytes: &[u8]) -> (r: Option<[u8; 10]>)
    ensures
        r matches Some(f) ==> spec_scan(bytes@) == Some(f@),
        r is None ==> spec_scan(bytes@) is None,
{
    match find_window(bytes) {
        None => None,
        Some(start) => {
            proof {
                lemma_first_window_bounds(bytes@, 0);
            }
            let mut frame = [0u8; 10];
            let mut k: usize = 0;
            while k < REPLY_LEN
                invariant
                    start + REPLY_LEN <= bytes@.len(),
                    bytes@.len() == bytes.len(),
                    k <= REPLY_LEN,
                    frame@.len() == REPLY_LEN,
                    forall|j: int| 0 <= j < k ==> frame@[j] == bytes@[start + j],
                decreases REPLY_LEN - k,
            {
                frame[k] = bytes[start + k];
                k = k + 1;
            }
            assert(frame@ =~= bytes@.subrange(start as int, start + REPLY_LEN));
            let sum = checksum(&frame, 2, 8);
            if sum == frame[8] {
                Some(frame)
            } else {
                None
            }
        },
    }
}

/// The most reads spent on trying to receive one frame.
pub const MAX_READ_ATTEMPTS: usize = 5;

/// The size of the buffer that each read fills.
pub const READ_BUFFER_LEN: usize = 20;

/// The attempt count after one more read, which never passes `MAX_READ_ATTEMPTS`.
pub open spec fn next_attempts(attempts: nat) -> nat {
    if attempts < MAX_READ_ATTEMPTS {
        attempts + 1
    } else {
        attempts
    }
}

/// What to do after one read while waiting for a frame.
#[derive(Debug, Clone, Copy, PartialEq, Eq)]
pub enum ReadStep {
    /// A frame with a valid checksum arrived.
    Frame([u8; 10]),
    /// Nothing usable arrived; read again.
    Retry,
    /// Give up with this error.
    Failed(Error),
}

/// Counts the reads spent on receiving one frame from the sensor, and decides
/// after each read whether a frame arrived, another read is due, or the
/// exchange has failed.
#[derive(Debug)]
pub struct FrameReader {
    attempts: usize,
}

impl FrameReader {
    /// The number of reads counted so far.
    pub closed spec fn attempts(&self) -> nat {
        self.attempts as nat
    }

    /// A reader that has not read yet.
    pub fn new() -> (r: FrameReader)
        ensures
            r.attempts() == 0,
    {
        FrameReader { attempts: 0 }
    }

    fn count_attempt(&mut self)
        ensures
            final(self).attempts() == next_attempts(old(self).attempts()),
    {
        if self.attempts < MAX_READ_ATTEMPTS {
            self.attempts = self.attempts + 1;
        }
    }

    /// Takes the bytes that one read delivered.
    pub fn on_bytes(&mut self, received: &[u8]) -> (r: ReadStep)
        ensures
            final(self).attempts() == next_attempts(old(self).attempts()),
            match r {
                ReadStep::Frame(f) => spec_scan(received@) == Some(f@),
                ReadStep::Retry => spec_scan(received@) is None && final(self).attempts()
                    < MAX_READ_ATTEMPTS,
                ReadStep::Failed(e) => spec_scan(received@) is None && final(self).attempts()
                    >= MAX_READ_ATTEMPTS && e == Error::ReadFailure,
            },
    {
        self.count_attempt();
        match scan_frame(received) {
            Some(f) => ReadStep::Frame(f),
            None => {
                if self.attempts < MAX_READ_ATTEMPTS {
                    ReadStep::Retry
                } else {
                    ReadStep::Failed(Error::ReadFailure)
                }
            },
        }
    }

    /// Takes a failed read: the exchange fails at once.
    pub fn on_read_error(&mut self) -> (r: ReadStep)
        ensures
            final(self).attempts() == next_attempts(old(self).attempts()),
            r == ReadStep::Failed(Error::ReadFailure),
    {
        self.count_attempt();
        ReadStep::Failed(Error::ReadFailure)
    }
}

} // verus!
