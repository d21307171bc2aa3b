//! A scan of the heads of an encoded item, made before the bytes go to the
//! decoder.
//!
//! The decoder doubles the length that a map's head gives, and it reads a
//! string whose head gives the length 2^64 - 1 as one of indefinite length
//! when it validates and as one of definite length when it iterates. Bytes
//! are taken only if no head that the decoder comes to is of either sort.
//! The scan goes from head to head as the validation does, up to the place
//! where the validation ends.

use vstd::prelude::*;

verus! {

/// What the last head was, as far as the next one depends on it.
#[derive(Clone, Copy, Debug, PartialEq, Eq)]
pub enum Before {
    /// No tag: an item begins.
    Item,
    /// The tag 24 and no other: a byte string that follows holds an
    /// encoded item, whose heads the validation reads too.
    Embedding,
    /// Any other tag, or a second one.
    Tag,
}

/// What a head means for the scan.
pub enum Step {
    /// The scan ends: with `false`, the bytes are not taken; with `true`,
    /// the validation ends here as well.
    Stop(bool),
    /// The next head stands at this position.
    Go(int, Before),
}

/// Number of bytes that spell the argument after a head's first byte.
pub open spec fn arg_width(info: int) -> int {
    if info == 24 {
        1
    } else if info == 25 {
        2
    } else if info == 26 {
        4
    } else if info == 27 {
        8
    } else {
        0
    }
}

/// The argument of the head at `at`, which is there in full.
pub open spec fn arg_value(bytes: Seq<u8>, at: int, info: int) -> int {
    if info < 24 {
        info
    } else if info == 24 {
        bytes[at + 1] as int
    } else if info == 25 {
        bytes[at + 1] * 0x100 + bytes[at + 2]
    } else if info == 26 {
        bytes[at + 1] * 0x100_0000 + bytes[at + 2] * 0x1_0000 + bytes[at + 3] * 0x100 + bytes[at
            + 4]
    } else if info == 27 {
        bytes[at + 1] * 0x100_0000_0000_0000 + bytes[at + 2] * 0x1_0000_0000_0000 + bytes[at + 3]
            * 0x100_0000_0000 + bytes[at + 4] * 0x1_0000_0000 + bytes[at + 5] * 0x100_0000
            + bytes[at + 6] * 0x1_0000 + bytes[at + 7] * 0x100 + bytes[at + 8]
    } else {
        0
    }
}

/// What the head at `at` means, where `0 <= at < bytes.len()`.
pub open spec fn step(bytes: Seq<u8>, at: int, before: Before) -> Step {
    let major = bytes[at] / 32;
    let info = (bytes[at] % 32) as int;
    let after = at + 1 + arg_width(info);
    if 28 <= info <= 30 || after > bytes.len() {
        // no head that the decoder reads
        Step::Stop(true)
    } else {
        let arg = arg_value(bytes, at, info);
        if major == 6 {
            if info == 31 {
                Step::Stop(true)
            } else if before == Before::Item && arg == 24 {
                Step::Go(after, Before::Embedding)
            } else {
                Step::Go(after, Before::Tag)
            }
        } else if major == 2 || major == 3 {
            if info == 27 && arg == u64::MAX {
                // read as of indefinite length here and of definite length there
                Step::Stop(false)
            } else if major == 2 && before == Before::Embedding {
                if info == 31 {
                    // an embedded item in fragments: its heads are not in these bytes
                    Step::Stop(false)
                } else {
                    Step::Go(after, Before::Item)
                }
            } else if info == 31 {
                Step::Go(after, Before::Item)
            } else if after + arg > bytes.len() {
                Step::Stop(true)
            } else {
                Step::Go(after + arg, Before::Item)
            }
        } else if major == 5 && info == 27 && 0x8000_0000_0000_0000 <= arg < u64::MAX {
            // twice this length fits no machine word
            Step::Stop(false)
        } else {
            Step::Go(after, Before::Item)
        }
    }
}

/// Whether the scan from the head at `at` on finds nothing to refuse.
pub open spec fn heads_fit_from(bytes: Seq<u8>, at: int, before: Before) -> bool
    decreases bytes.len() - at,
{
    if at < 0 || at >= bytes.len() {
        true
    } else {
        match step(bytes, at, before) {
            Step::Stop(fit) => fit,
            Step::Go(next, then) => if next > at {
                heads_fit_from(bytes, next, then)
            } else {
                true
            },
        }
    }
}

/// Whether the bytes are taken: no head that the decoder comes to is a
/// map's with a length from 2^63 on, a string's with the length 2^64 - 1,
/// or that of an embedded item in fragments.
pub open spec fn heads_fit(bytes: Seq<u8>) -> bool {
    heads_fit_from(bytes, 0, Before::Item)
}

/// A step of the scan, with the position as a machine word.
enum Next {
    Stop(bool),
    Go(usize, Before),
}

/// The argument of the head at `at`.
fn argument(bytes: &[u8], at: usize, info: u8) -> (arg: u64)
    requires
        info <= 31,
        at + 1 + arg_width(info as int) <= bytes.len(),
    ensures
        arg == arg_value(bytes@, at as int, info as int),
{
    if info < 24 {
        info as u64
    } else if info == 24 {
        bytes[at + 1] as u64
    } else if info == 25 {
        (bytes[at + 1] as u64) * 0x100 + (bytes[at + 2] as u64)
    } else if info == 26 {
        (bytes[at + 1] as u64) * 0x100_0000 + (bytes[at + 2] as u64) * 0x1_0000 + (bytes[at
            + 3] as u64) * 0x100 + (bytes[at + 4] as u64)
    } else if info == 27 {
        (bytes[at + 1] as u64) * 0x100_0000_0000_0000 + (bytes[at + 2] as u64)
            * 0x1_0000_0000_0000 + (bytes[at + 3] as u64) * 0x100_0000_0000 + (bytes[at
            + 4] as u64) * 0x1_0000_0000 + (bytes[at + 5] as u64) * 0x100_0000 + (bytes[at
            + 6] as u64) * 0x1_0000 + (bytes[at + 7] as u64) * 0x100 + (bytes[at + 8] as u64)
    } else {
        0
    }
}

/// What the head at `at` means.
fn step_at(bytes: &[u8], at: usize, before: Before) -> (next: Next)
    requires
        at < bytes.len(),
    ensures
        match next {
            Next::Stop(fit) => step(bytes@, at as int, before) == Step::Stop(fit),
            Next::Go(position, then) => step(bytes@, at as int, before) == Step::Go(
                position as int,
                then,
            ) && at < position <= bytes.len(),
        },
{
    let major: u8 = bytes[at] / 32;
    let info: u8 = bytes[at] % 32;
    let width: usize = if info == 24 {
        1
    } else if info == 25 {
        2
    } else if info == 26 {
        4
    } else if info == 27 {
        8
    } else {
        0
    };
    if (28 <= info && info <= 30) || bytes.len() - at - 1 < width {
        return Next::Stop(true);
    }
    let after: usize = at + 1 + width;
    let arg: u64 = argument(bytes, at, info);
    let item = match before {
        Before::Item => true,
        _ => false,
    };
    let embedding = match before {
        Before::Embedding => true,
        _ => false,
    };
    if major == 6 {
        if info == 31 {
            Next::Stop(true)
        } else if item && arg == 24 {
            Next::Go(after, Before::Embedding)
        } else {
            Next::Go(after, Before::Tag)
        }
    } else if major == 2 || major == 3 {
        if info == 27 && arg == 0xffff_ffff_ffff_ffff {
            Next::Stop(false)
        } else if major == 2 && embedding {
            if info == 31 {
                Next::Stop(false)
            } else {
                Next::Go(after, Before::Item)
            }
        } else if info == 31 {
            Next::Go(after, Before::Item)
        } else if arg > (bytes.len() - after) as u64 {
            Next::Stop(true)
        } else {
            Next::Go(after + (arg as usize), Before::Item)
        }
    } else if major == 5 && info == 27 && 0x8000_0000_0000_0000 <= arg && arg
        < 0xffff_ffff_ffff_ffff {
        Next::Stop(false)
    } else {
        Next::Go(after, Before::Item)
    }
}

/// Whether the bytes are taken.
pub fn scan_heads(bytes: &[u8]) -> (fit: bool)
    ensures
        fit == heads_fit(bytes@),
{
    let mut at: usize = 0;
    let mut before = Before::Item;
    while at < bytes.len()
        invariant
            at <= bytes.len(),
            heads_fit_from(bytes@, at as int, before) == heads_fit(bytes@),
        decreases bytes.len() - at,
    {
        match step_at(bytes, at, before) {
            Next::Stop(fit) => {
                return fit;
            },
            Next::Go(position, then) => {
                at = position;
                before = then;
            },
        }
    }
    true
}

} // verus!
