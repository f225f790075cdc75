//! The acquisition protocol, as a state machine from plain values to
//! plain values.
//!
//! One acquisition cycle against the sensor is: open the transport,
//! send `STA\r\n`, read and discard one banner line, read one data
//! line, parse it, and send `STP\r\n` before finishing. The machine
//! below makes every decision of that cycle; the harness around it
//! only performs the requested action on the serial port and feeds the
//! outcome back as the next event.
//!
//! Error policy (uniform on every path): a failed open finishes with
//! `DeviceUnavailable` at once; a failed start-command write finishes
//! with `IoError` at once, the transport being unusable; after the
//! start command has gone out, every exit path — read failure, parse
//! failure or success — still requests one best-effort stop command
//! whose own failure does not change the result already determined.

use crate::parse::{parse_line, parse_line_spec};
use crate::reading::{AcquisitionError, ReadingVal, UDCO2SStat, reading_fits};
use vstd::prelude::*;
use vstd::string::StringExecFns;

verus! {

/// A handle on the sensor: the path of the serial device to open.
pub struct UDCO2S {
    pub dev: String,
}

impl UDCO2S {
    pub fn new(dev: &str) -> (r: Self)
        ensures
            r.dev@ == dev@,
    {
        UDCO2S { dev: String::from_str(dev) }
    }
}

/// The two commands the protocol sends, each written as the literal
/// followed by `\r\n`: `Start` begins streaming, `Stop` ends it.
#[derive(Clone, Copy, PartialEq, Eq, Structural, Debug)]
pub enum Command {
    Start,
    Stop,
}

/// What the transport answered to the action last requested.
#[derive(Clone, Copy, PartialEq, Eq, Structural, Debug)]
pub enum DriverEvent {
    /// The transport was opened and configured.
    Opened,
    /// The transport could not be opened or configured.
    OpenFailed,
    /// The requested command was written in full.
    WriteDone,
    /// The write failed.
    WriteFailed,
    /// A single-byte read yielded this byte.
    Byte(u8),
    /// A single-byte read timed out.
    ReadTimedOut,
    /// A single-byte read failed with something other than a timeout.
    ReadFailed,
}

/// What the machine asks the harness to do next.
pub enum DriverAction {
    /// Open the serial device and apply the fixed line parameters.
    OpenPort,
    /// Write the given command to the transport.
    WriteCommand(Command),
    /// Read a single byte, waiting at most the read timeout.
    ReadByte,
    /// The cycle is over; hand this result to the caller.
    Finish(Result<UDCO2SStat, AcquisitionError>),
}

/// The machine's position within one acquisition cycle.
pub enum DriverState {
    /// Nothing done yet; the transport must be opened.
    Idle,
    /// Transport open; the start command must be written.
    Starting,
    /// Reading the banner line; the bytes seen so far.
    Banner(Vec<u8>),
    /// Reading the data line; the bytes seen so far.
    Data(Vec<u8>),
    /// Result determined; the best-effort stop command must be written.
    Stopping(Result<UDCO2SStat, AcquisitionError>),
    /// The cycle is over.
    Done(Result<UDCO2SStat, AcquisitionError>),
}

/// Mathematical content of an acquisition result.
pub open spec fn result_view(r: Result<UDCO2SStat, AcquisitionError>) -> Result<
    ReadingVal,
    AcquisitionError,
> {
    match r {
        Ok(stat) => Ok(stat@),
        Err(e) => Err(e),
    }
}

/// Mathematical content of a machine state.
pub ghost enum StateView {
    Idle,
    Starting,
    Banner(Seq<u8>),
    Data(Seq<u8>),
    Stopping(Result<ReadingVal, AcquisitionError>),
    Done(Result<ReadingVal, AcquisitionError>),
}

impl View for DriverState {
    type V = StateView;

    open spec fn view(&self) -> StateView {
        match self {
            DriverState::Idle => StateView::Idle,
            DriverState::Starting => StateView::Starting,
            DriverState::Banner(acc) => StateView::Banner(acc@),
            DriverState::Data(acc) => StateView::Data(acc@),
            DriverState::Stopping(r) => StateView::Stopping(result_view(*r)),
            DriverState::Done(r) => StateView::Done(result_view(*r)),
        }
    }
}

/// Mathematical content of a requested action.
pub ghost enum ActionView {
    OpenPort,
    WriteCommand(Command),
    ReadByte,
    Finish(Result<ReadingVal, AcquisitionError>),
}

impl View for DriverAction {
    type V = ActionView;

    open spec fn view(&self) -> ActionView {
        match self {
            DriverAction::OpenPort => ActionView::OpenPort,
            DriverAction::WriteCommand(c) => ActionView::WriteCommand(*c),
            DriverAction::ReadByte => ActionView::ReadByte,
            DriverAction::Finish(r) => ActionView::Finish(result_view(*r)),
        }
    }
}

/// What a completed data line decides: the parsed reading when the
/// line matches the grammar and its numbers fit the machine types,
/// a parse failure otherwise.
pub open spec fn data_result(line: Seq<u8>) -> Result<ReadingVal, AcquisitionError> {
    match parse_line_spec(line) {
        Some(v) => if reading_fits(v) {
            Ok(v)
        } else {
            Err(AcquisitionError::ParseFailure)
        },
        None => Err(AcquisitionError::ParseFailure),
    }
}

/// The action requested in each state.
pub open spec fn action_spec(s: StateView) -> ActionView {
    match s {
        StateView::Idle => ActionView::OpenPort,
        StateView::Starting => ActionView::WriteCommand(Command::Start),
        StateView::Banner(_) => ActionView::ReadByte,
        StateView::Data(_) => ActionView::ReadByte,
        StateView::Stopping(_) => ActionView::WriteCommand(Command::Stop),
        StateView::Done(r) => ActionView::Finish(r),
    }
}

/// The transition relation of the acquisition cycle. Line delimiter is
/// `\n` (byte 0x0a); a timed-out read completes the line being read,
/// exactly as the line-reading primitive does.
pub open spec fn step_spec(s: StateView, ev: DriverEvent) -> StateView {
    match s {
        StateView::Idle => if ev == DriverEvent::Opened {
            StateView::Starting
        } else {
            StateView::Done(Err(AcquisitionError::DeviceUnavailable))
        },
        StateView::Starting => if ev == DriverEvent::WriteDone {
            StateView::Banner(Seq::<u8>::empty())
        } else {
            StateView::Done(Err(AcquisitionError::IoError))
        },
        StateView::Banner(acc) => match ev {
            DriverEvent::Byte(b) => if b == 0x0a {
                StateView::Data(Seq::<u8>::empty())
            } else {
                StateView::Banner(acc.push(b))
            },
            DriverEvent::ReadTimedOut => StateView::Data(Seq::<u8>::empty()),
            _ => StateView::Stopping(Err(AcquisitionError::IoError)),
        },
        StateView::Data(acc) => match ev {
            DriverEvent::Byte(b) => if b == 0x0a {
                StateView::Stopping(data_result(acc))
            } else {
                StateView::Data(acc.push(b))
            },
            DriverEvent::ReadTimedOut => StateView::Stopping(data_result(acc)),
            _ => StateView::Stopping(Err(AcquisitionError::IoError)),
        },
        StateView::Stopping(r) => StateView::Done(r),
        StateView::Done(r) => StateView::Done(r),
    }
}

/// The action to perform in the given state.
pub fn driver_action(state: &DriverState) -> (a: DriverAction)
    ensures
        a@ == action_spec(state@),
{
    match state {
        DriverState::Idle => DriverAction::OpenPort,
        DriverState::Starting => DriverAction::WriteCommand(Command::Start),
        DriverState::Banner(_) => DriverAction::ReadByte,
        DriverState::Data(_) => DriverAction::ReadByte,
        DriverState::Stopping(_) => DriverAction::WriteCommand(Command::Stop),
        DriverState::Done(r) => DriverAction::Finish(*r),
    }
}

/// Decide the acquisition result from the completed data line.
pub fn finish_data(line: &Vec<u8>) -> (r: Result<UDCO2SStat, AcquisitionError>)
    ensures
        result_view(r) == data_result(line@),
{
    match parse_line(line) {
        Some(stat) => Ok(stat),
        None => Err(AcquisitionError::ParseFailure),
    }
}

/// Advance the acquisition cycle by one transport answer.
pub fn driver_step(state: DriverState, ev: DriverEvent) -> (next: DriverState)
    ensures
        next@ == step_spec(state@, ev),
{
    match state {
        DriverState::Idle => match ev {
            DriverEvent::Opened => DriverState::Starting,
            _ => DriverState::Done(Err(AcquisitionError::DeviceUnavailable)),
        },
        DriverState::Starting => match ev {
            DriverEvent::WriteDone => DriverState::Banner(Vec::new()),
            _ => DriverState::Done(Err(AcquisitionError::IoError)),
        },
        DriverState::Banner(mut acc) => match ev {
            DriverEvent::Byte(b) => {
                if b == 0x0a {
                    DriverState::Data(Vec::new())
                } else {
                    acc.push(b);
                    DriverState::Banner(acc)
                }
            },
            DriverEvent::ReadTimedOut => DriverState::Data(Vec::new()),
            _ => DriverState::Stopping(Err(AcquisitionError::IoError)),
        },
        DriverState::Data(mut acc) => match ev {
            DriverEvent::Byte(b) => {
                if b == 0x0a {
                    DriverState::Stopping(finish_data(&acc))
                } else {
                    acc.push(b);
                    DriverState::Data(acc)
                }
            },
            DriverEvent::ReadTimedOut => DriverState::Stopping(finish_data(&acc)),
            _ => DriverState::Stopping(Err(AcquisitionError::IoError)),
        },
        DriverState::Stopping(r) => DriverState::Done(r),
        DriverState::Done(r) => DriverState::Done(r),
    }
}

/// Where the machine lands after a trace of transport answers.
pub open spec fn run_spec(s: StateView, evs: Seq<DriverEvent>) -> StateView
    decreases evs.len(),
{
    if evs.len() == 0 {
        s
    } else {
        run_spec(step_spec(s, evs[0]), evs.drop_first())
    }
}

/// A finished cycle stays finished, whatever else the transport says.
pub proof fn lemma_done_is_absorbing(rv: Result<ReadingVal, AcquisitionError>, evs: Seq<
    DriverEvent,
>)
    ensures
        run_spec(StateView::Done(rv), evs) == StateView::Done(rv),
    decreases evs.len(),
{
    if evs.len() > 0 {
        lemma_done_is_absorbing(rv, evs.drop_first());
    }
}

/// Run one whole acquisition cycle over a finite trace of transport
/// answers, from the initial state until the machine finishes; `None`
/// when the trace ends first. A real transport answers every request,
/// so a sufficiently long trace never ends first.
pub fn run_acquisition(events: &Vec<DriverEvent>) -> (r: Option<
    Result<UDCO2SStat, AcquisitionError>,
>)
    ensures
        ({
            let end = run_spec(StateView::Idle, events@);
            match r {
                Some(res) => end == StateView::Done(result_view(res)),
                None => !(end is Done),
            }
        }),
{
    let mut state = DriverState::Idle;
    let mut idx: usize = 0;
    proof {
        assert(events@.skip(0) =~= events@);
    }
    while idx < events.len()
        invariant
            idx <= events@.len(),
            run_spec(StateView::Idle, events@) == run_spec(state@, events@.skip(idx as int)),
        decreases events@.len() - idx,
    {
        match &state {
            DriverState::Done(res) => {
                proof {
                    lemma_done_is_absorbing(result_view(*res), events@.skip(idx as int));
                }
                return Some(*res);
            },
            _ => {},
        }
        let ev = events[idx];
        proof {
            assert(events@.skip(idx as int)[0] == events@[idx as int]);
            assert(events@.skip(idx as int).drop_first() =~= events@.skip(idx as int + 1));
        }
        state = driver_step(state, ev);
        idx = idx + 1;
    }
    proof {
        assert(events@.skip(idx as int) =~= Seq::<DriverEvent>::empty());
    }
    match &state {
        DriverState::Done(res) => Some(*res),
        _ => None,
    }
}

/// The transport is opened at most once per acquisition cycle: only
/// the initial state requests an open, and no transition ever leads
/// back to the initial state.
pub proof fn lemma_open_at_most_once(s: StateView, ev: DriverEvent)
    ensures
        !(step_spec(s, ev) is Idle),
        action_spec(s) is OpenPort <==> s is Idle,
{
}

} // verus!
