use udco2s::driver::{
    driver_action, driver_step, finish_data, run_acquisition, Command, DriverAction, DriverEvent,
    DriverState, UDCO2S,
};
use udco2s::line::{read_until_from, LineResult, ReadEvent};
use udco2s::reading::{AcquisitionError, Decimal, UDCO2SStat};

fn bytes(s: &str) -> Vec<u8> {
    s.bytes().collect()
}

/// Run one acquisition cycle against a scripted transport, recording
/// how often each kind of action was requested.
fn run_cycle(script: Vec<DriverEvent>) -> (Result<UDCO2SStat, AcquisitionError>, usize, usize) {
    let mut state = DriverState::Idle;
    let mut opens = 0usize;
    let mut writes = 0usize;
    let mut events = script.into_iter();
    loop {
        match driver_action(&state) {
            DriverAction::Finish(r) => return (r, opens, writes),
            DriverAction::OpenPort => opens += 1,
            DriverAction::WriteCommand(_) => writes += 1,
            DriverAction::ReadByte => {}
        }
        let ev = events.next().expect("transport script exhausted");
        state = driver_step(state, ev);
    }
}

fn byte_events(s: &str) -> Vec<DriverEvent> {
    s.bytes().map(DriverEvent::Byte).collect()
}

#[test]
fn full_cycle_parses_data_line() {
    let mut script = vec![DriverEvent::Opened, DriverEvent::WriteDone];
    script.extend(byte_events("OK STA\r\n"));
    script.extend(byte_events("CO2=415,HUM=45.2,TMP=23.1\r\n"));
    script.push(DriverEvent::WriteDone);
    let (result, opens, writes) = run_cycle(script);
    assert_eq!(
        result,
        Ok(UDCO2SStat {
            co2ppm: 415,
            humidity: Decimal { negative: false, whole: 45, frac: 2, frac_len: 1 },
            temperature: Decimal { negative: false, whole: 23, frac: 1, frac_len: 1 },
        })
    );
    assert_eq!(opens, 1);
    assert_eq!(writes, 2); // one start command, one stop command
}

#[test]
fn open_failure_is_device_unavailable() {
    let (result, opens, writes) = run_cycle(vec![DriverEvent::OpenFailed]);
    assert_eq!(result, Err(AcquisitionError::DeviceUnavailable));
    assert_eq!(opens, 1);
    assert_eq!(writes, 0); // no stop attempt on an unopened transport
}

#[test]
fn start_write_failure_is_io_error_without_stop() {
    let (result, _, writes) = run_cycle(vec![DriverEvent::Opened, DriverEvent::WriteFailed]);
    assert_eq!(result, Err(AcquisitionError::IoError));
    assert_eq!(writes, 1); // only the failed start command
}

#[test]
fn read_failure_is_io_error_with_best_effort_stop() {
    let mut script = vec![DriverEvent::Opened, DriverEvent::WriteDone];
    script.extend(byte_events("banner\n"));
    script.push(DriverEvent::ReadFailed);
    script.push(DriverEvent::WriteDone);
    let (result, _, writes) = run_cycle(script);
    assert_eq!(result, Err(AcquisitionError::IoError));
    assert_eq!(writes, 2); // the stop command was still attempted
}

#[test]
fn stop_write_failure_keeps_the_result() {
    let mut script = vec![DriverEvent::Opened, DriverEvent::WriteDone];
    script.extend(byte_events("banner\n"));
    script.extend(byte_events("CO2=600,HUM=50.0,TMP=20.0\n"));
    script.push(DriverEvent::WriteFailed);
    let (result, _, _) = run_cycle(script);
    assert_eq!(result.map(|s| s.co2ppm), Ok(600));
}

#[test]
fn malformed_data_line_is_parse_failure() {
    let mut script = vec![DriverEvent::Opened, DriverEvent::WriteDone];
    script.extend(byte_events("banner\n"));
    script.extend(byte_events("CO2=415,HUM=45.2\n"));
    script.push(DriverEvent::WriteDone);
    let (result, _, writes) = run_cycle(script);
    assert_eq!(result, Err(AcquisitionError::ParseFailure));
    assert_eq!(writes, 2); // the stop command is sent on the error path too
}

#[test]
fn timed_out_reads_give_empty_lines_and_parse_failure() {
    // Both reads time out with nothing received: the empty banner is
    // discarded, the empty data line fails only at the parse step.
    let script = vec![
        DriverEvent::Opened,
        DriverEvent::WriteDone,
        DriverEvent::ReadTimedOut,
        DriverEvent::ReadTimedOut,
        DriverEvent::WriteDone,
    ];
    let (result, _, _) = run_cycle(script);
    assert_eq!(result, Err(AcquisitionError::ParseFailure));
}

#[test]
fn partial_data_line_then_timeout_still_parses() {
    let mut script = vec![DriverEvent::Opened, DriverEvent::WriteDone];
    script.extend(byte_events("banner\n"));
    script.extend(byte_events("CO2=415,HUM=45.2,TMP=23.1"));
    script.push(DriverEvent::ReadTimedOut); // line ends by timeout, not newline
    script.push(DriverEvent::WriteDone);
    let (result, _, _) = run_cycle(script);
    assert_eq!(result.map(|s| s.co2ppm), Ok(415));
}

#[test]
fn start_command_precedes_stop_command() {
    let mut state = DriverState::Idle;
    assert!(matches!(driver_action(&state), DriverAction::OpenPort));
    state = driver_step(state, DriverEvent::Opened);
    assert!(matches!(driver_action(&state), DriverAction::WriteCommand(Command::Start)));
    state = driver_step(state, DriverEvent::WriteDone);
    assert!(matches!(driver_action(&state), DriverAction::ReadByte));
    state = driver_step(state, DriverEvent::ReadTimedOut); // empty banner
    state = driver_step(state, DriverEvent::ReadTimedOut); // empty data line
    assert!(matches!(driver_action(&state), DriverAction::WriteCommand(Command::Stop)));
    state = driver_step(state, DriverEvent::WriteDone);
    assert!(matches!(driver_action(&state), DriverAction::Finish(Err(AcquisitionError::ParseFailure))));
}

#[test]
fn finish_data_maps_parse_outcomes() {
    assert_eq!(finish_data(&bytes("")), Err(AcquisitionError::ParseFailure));
    assert_eq!(
        finish_data(&bytes("CO2=1,HUM=2.3,TMP=4.5")).map(|s| s.co2ppm),
        Ok(1)
    );
}

#[test]
fn run_acquisition_agrees_with_stepping() {
    let mut script = vec![DriverEvent::Opened, DriverEvent::WriteDone];
    script.extend(byte_events("banner\n"));
    script.extend(byte_events("CO2=415,HUM=45.2,TMP=23.1\n"));
    script.push(DriverEvent::WriteDone);
    let (stepped, _, _) = run_cycle(script.clone());
    assert_eq!(run_acquisition(&script), Some(stepped));
}

#[test]
fn run_acquisition_reports_a_short_trace() {
    assert_eq!(run_acquisition(&vec![DriverEvent::Opened]), None);
    assert_eq!(
        run_acquisition(&vec![DriverEvent::OpenFailed]),
        Some(Err(AcquisitionError::DeviceUnavailable))
    );
}

#[test]
fn read_until_timeout_with_nothing_read_is_empty_success() {
    match read_until_from(&vec![ReadEvent::TimedOut], b'\n') {
        LineResult::Line(l) => assert_eq!(l, Vec::<u8>::new()),
        _ => panic!("expected an empty successful line"),
    }
}

#[test]
fn read_until_stops_at_delimiter() {
    let evs = vec![
        ReadEvent::Byte(b'a'),
        ReadEvent::Byte(b'b'),
        ReadEvent::Byte(b'\n'),
        ReadEvent::Byte(b'z'),
    ];
    match read_until_from(&evs, b'\n') {
        LineResult::Line(l) => assert_eq!(l, bytes("ab")),
        _ => panic!("expected a line"),
    }
}

#[test]
fn read_until_timeout_keeps_partial_content() {
    let evs = vec![ReadEvent::Byte(b'a'), ReadEvent::TimedOut];
    match read_until_from(&evs, b'\n') {
        LineResult::Line(l) => assert_eq!(l, bytes("a")),
        _ => panic!("expected a line"),
    }
}

#[test]
fn read_until_propagates_hard_failures() {
    let evs = vec![ReadEvent::Byte(b'a'), ReadEvent::Failed];
    assert!(matches!(read_until_from(&evs, b'\n'), LineResult::Failed));
}

#[test]
fn read_until_reports_an_exhausted_trace() {
    assert!(matches!(read_until_from(&Vec::new(), b'\n'), LineResult::Incomplete));
}

#[test]
fn sensor_handle_remembers_device_path() {
    let sensor = UDCO2S::new("/dev/ttyACM0");
    assert_eq!(sensor.dev, "/dev/ttyACM0");
}
