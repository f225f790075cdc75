//! The line-reading primitive: bytes are taken one at a time from the
//! transport until a delimiter is seen or a read times out.
//!
//! A timed-out read is deliberately not an error: whatever partial
//! content has accumulated is returned as a successful (possibly
//! empty) line, and only a later parse of that line can fail the
//! acquisition. Any other read error fails the acquisition at once.

use vstd::prelude::*;

verus! {

/// One outcome of a single-byte read from the transport.
#[derive(Clone, Copy, PartialEq, Eq, Structural, Debug)]
pub enum ReadEvent {
    /// A byte arrived.
    Byte(u8),
    /// The read timed out before a byte arrived.
    TimedOut,
    /// The read failed with something other than a timeout.
    Failed,
}

/// What the line reader decides after one read outcome.
#[derive(Clone, Copy, PartialEq, Eq, Structural, Debug)]
pub enum LineStep {
    /// Keep reading bytes.
    Continue,
    /// The line is complete: the delimiter was seen or the read timed out.
    Done,
    /// Fail with an I/O error.
    Fail,
}

/// Result of reading one line from a finite trace of read outcomes.
pub ghost enum LineOutcome {
    /// A complete (possibly empty) line, without the delimiter.
    Line(Seq<u8>),
    /// A non-timeout read failure.
    Failed,
    /// The trace ended before the reader came to a decision. A real
    /// transport always answers with a byte, a timeout or a failure,
    /// so a sufficiently long trace never ends here.
    Incomplete,
}

/// The meaning of reading one line, given the trace of read outcomes
/// the transport will produce and the content `acc` read so far.
pub open spec fn read_until_spec(evs: Seq<ReadEvent>, del: u8, acc: Seq<u8>) -> LineOutcome
    decreases evs.len(),
{
    if evs.len() == 0 {
        LineOutcome::Incomplete
    } else {
        match evs[0] {
            ReadEvent::Byte(b) => if b == del {
                LineOutcome::Line(acc)
            } else {
                read_until_spec(evs.drop_first(), del, acc.push(b))
            },
            ReadEvent::TimedOut => LineOutcome::Line(acc),
            ReadEvent::Failed => LineOutcome::Failed,
        }
    }
}

/// Feed one read outcome to the line reader. The accumulated line
/// grows only when an ordinary byte arrives; the delimiter itself is
/// not kept.
pub fn read_until_step(acc: &mut Vec<u8>, ev: ReadEvent, del: u8) -> (r: LineStep)
    ensures
        match ev {
            ReadEvent::Byte(b) => if b == del {
                r == LineStep::Done && final(acc)@ == old(acc)@
            } else {
                r == LineStep::Continue && final(acc)@ == old(acc)@.push(b)
            },
            ReadEvent::TimedOut => r == LineStep::Done && final(acc)@ == old(acc)@,
            ReadEvent::Failed => r == LineStep::Fail && final(acc)@ == old(acc)@,
        },
{
    match ev {
        ReadEvent::Byte(b) => {
            if b == del {
                LineStep::Done
            } else {
                acc.push(b);
                LineStep::Continue
            }
        },
        ReadEvent::TimedOut => LineStep::Done,
        ReadEvent::Failed => LineStep::Fail,
    }
}

/// The exec counterpart of `LineOutcome`.
pub enum LineResult {
    Line(Vec<u8>),
    Failed,
    Incomplete,
}

impl View for LineResult {
    type V = LineOutcome;

    open spec fn view(&self) -> LineOutcome {
        match self {
            LineResult::Line(v) => LineOutcome::Line(v@),
            LineResult::Failed => LineOutcome::Failed,
            LineResult::Incomplete => LineOutcome::Incomplete,
        }
    }
}

/// Read one line out of a finite trace of read outcomes.
pub fn read_until_from(evs: &Vec<ReadEvent>, del: u8) -> (r: LineResult)
    ensures
        r@ == read_until_spec(evs@, del, Seq::<u8>::empty()),
{
    let mut acc: Vec<u8> = Vec::new();
    let mut idx: usize = 0;
    proof {
        assert(evs@.skip(0) =~= evs@);
    }
    while idx < evs.len()
        invariant
            idx <= evs@.len(),
            read_until_spec(evs@, del, Seq::<u8>::empty()) == read_until_spec(
                evs@.skip(idx as int),
                del,
                acc@,
            ),
        decreases evs@.len() - idx,
    {
        let ev = evs[idx];
        proof {
            assert(evs@.skip(idx as int)[0] == evs@[idx as int]);
            assert(evs@.skip(idx as int).drop_first() =~= evs@.skip(idx as int + 1));
        }
        let step = read_until_step(&mut acc, ev, del);
        match step {
            LineStep::Continue => {
                idx = idx + 1;
            },
            LineStep::Done => {
                return LineResult::Line(acc);
            },
            LineStep::Fail => {
                return LineResult::Failed;
            },
        }
    }
    proof {
        assert(evs@.skip(idx as int) =~= Seq::<ReadEvent>::empty());
    }
    LineResult::Incomplete
}

/// A read that times out before any byte has arrived completes with an
/// empty successful line rather than an error, and an empty line never
/// matches the data-line grammar, so the acquisition then fails only
/// at the parse step.
pub proof fn lemma_timeout_with_nothing_read(evs: Seq<ReadEvent>, del: u8)
    requires
        evs.len() > 0,
        evs[0] == ReadEvent::TimedOut,
    ensures
        read_until_spec(evs, del, Seq::<u8>::empty()) == LineOutcome::Line(Seq::<u8>::empty()),
        crate::parse::parse_line_spec(Seq::<u8>::empty()) is None,
{
}

} // verus!
