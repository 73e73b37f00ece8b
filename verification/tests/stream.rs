use num_complex::Complex32;
use uhd_usrp::metadata::{RawTxMetadata, UHD_RX_METADATA_ERROR_CODE_TIMEOUT};
use uhd_usrp::stream::command::RawStreamCommand;
use uhd_usrp::stream::{transfer_result, RxStartCommand, StreamCommand, StreamMode, StreamState};
use uhd_usrp::{
    ArrayBuffer, EmptyBuf, RxErrorCode, RxMetadata, RxStream, StreamArgs, TimeSpec, TxMetadata,
    TxMetadataBuilder, TxStream, UhdError,
};

#[test]
fn stream_mode_codes() {
    assert_eq!(StreamMode::StartContinuous.code(), 'a' as u32);
    assert_eq!(StreamMode::StopContinuous.code(), 'o' as u32);
    assert_eq!(StreamMode::NumSampsAndDone.code(), 'd' as u32);
    assert_eq!(StreamMode::NumSampsAndMore.code(), 'm' as u32);
}

#[test]
fn start_command_without_time_streams_now() {
    let stream: RxStream<Complex32> = RxStream::new(1, 512);
    let cmd = stream.start_command().command();
    assert_eq!(cmd.mode, StreamMode::StartContinuous);
    assert_eq!(cmd.num_samps, usize::MAX);
    assert_eq!(cmd.time, None);
    assert!(cmd.stream_now());
    assert_eq!(
        cmd.to_raw(),
        RawStreamCommand {
            stream_mode: 97,
            num_samps: usize::MAX,
            stream_now: true,
            time_spec_full_secs: 0,
            time_spec_frac_bits: 0,
        }
    );
}

#[test]
fn start_command_with_time_and_limit() {
    let at = TimeSpec::try_from_parts(2, 0, 0.5f64.to_bits()).unwrap();
    let mut builder = RxStartCommand::new();
    builder.with_time(at).with_limit(1000, true);
    assert_eq!(builder.n_samples(), 1000);
    assert_eq!(builder.stream_mode(), StreamMode::NumSampsAndDone);
    let cmd = builder.command();
    assert!(!cmd.stream_now());
    assert_eq!(
        cmd.to_raw(),
        RawStreamCommand {
            stream_mode: 100,
            num_samps: 1000,
            stream_now: false,
            time_spec_full_secs: 2,
            time_spec_frac_bits: 0.5f64.to_bits(),
        }
    );
    let mut more = RxStartCommand::new();
    more.with_limit(64, false);
    assert_eq!(more.stream_mode(), StreamMode::NumSampsAndMore);
    assert_eq!(more.command().num_samps, 64);
}

#[test]
fn a_supplied_zero_time_is_a_scheduled_time() {
    let mut builder = RxStartCommand::new();
    builder.with_time(TimeSpec::zero());
    let raw = builder.command().to_raw();
    assert!(!raw.stream_now);
    assert_eq!(raw.time_spec_full_secs, 0);
    assert_eq!(raw.time_spec_frac_bits, 0);
}

#[test]
fn stop_command() {
    let stream: RxStream<Complex32> = RxStream::new(2, 100);
    let cmd = stream.stop_now();
    assert_eq!(cmd, StreamCommand::stop());
    assert_eq!(cmd.mode, StreamMode::StopContinuous);
    assert_eq!(cmd.num_samps, 0);
    let raw = cmd.to_raw();
    assert_eq!(raw.stream_mode, 111);
    assert!(!raw.stream_now);
    assert_eq!((raw.time_spec_full_secs, raw.time_spec_frac_bits), (0, 0));
}

#[test]
fn stream_reports_what_it_was_opened_with() {
    let rx: RxStream<Complex32> = RxStream::new(2, 364);
    assert_eq!(rx.channels(), 2);
    assert_eq!(rx.max_samples_per_channel(), 364);
    assert_eq!(rx.max_samples_per_buffer(), 364);
    let tx: TxStream<Complex32> = TxStream::new(3, 200);
    assert_eq!(tx.channels(), 3);
    assert_eq!(tx.max_samples_per_channel(), 200);
    assert_eq!(tx.max_samples_per_buffer(), 200);
}

#[test]
fn receive_buffer_must_have_the_channels_of_the_stream() {
    let stream: RxStream<i16> = RxStream::new(2, 512);
    let good: ArrayBuffer<i16> = ArrayBuffer::new(2, 512);
    assert_eq!(stream.check_buffer(&good), Ok(512));
    let short: ArrayBuffer<i16> = ArrayBuffer::new(2, 10);
    assert_eq!(stream.check_buffer(&short), Ok(10));
    let wrong: ArrayBuffer<i16> = ArrayBuffer::new(3, 512);
    assert_eq!(stream.check_buffer(&wrong), Err(UhdError::Index));
    assert_eq!(stream.check_buffer(&vec![0i16; 512]), Err(UhdError::Index));
    assert_eq!(stream.check_buffer(&EmptyBuf), Err(UhdError::Index));
    let single: RxStream<i16> = RxStream::new(1, 512);
    assert_eq!(single.check_buffer(&vec![0i16; 512]), Ok(512));
    let memory = [0i16; 64];
    assert_eq!(single.check_buffer(&memory[..]), Ok(64));
    assert_eq!(single.check_buffer(&memory[..10]), Ok(10));
    assert_eq!(stream.check_buffer(&memory[..]), Err(UhdError::Index));
}

#[test]
fn send_with_unequal_slices_is_an_index_error() {
    let stream: TxStream<i16> = TxStream::new(3, 512);
    let a = [0i16; 4];
    let b = [0i16; 5];
    let c = [0i16; 4];
    assert_eq!(stream.check_slices(&[&a, &b, &c]), Err(UhdError::Index));
    assert_eq!(stream.check_slices(&[&a, &c, &b]), Err(UhdError::Index));
    assert_eq!(stream.check_slices(&[&b, &a, &a]), Err(UhdError::Index));
}

#[test]
fn send_with_equal_slices_gives_their_length() {
    let stream: TxStream<i16> = TxStream::new(3, 512);
    let a = [0i16; 4];
    let c = [1i16; 4];
    assert_eq!(stream.check_slices(&[&a, &c, &a]), Ok(4));
    assert_eq!(stream.check_slices(&[&a]), Ok(4));
    let none: [i16; 0] = [];
    assert_eq!(stream.check_slices(&[&none, &none]), Ok(0));
    assert_eq!(stream.check_slices(&[]), Err(UhdError::Index));
}

#[test]
fn transfer_result_translates_the_status() {
    assert_eq!(transfer_result(0, 512, 512), Ok(512));
    assert_eq!(transfer_result(0, 17, 512), Ok(17));
    assert_eq!(transfer_result(0, 0, 512), Ok(0));
    assert_eq!(transfer_result(0, 0, 0), Ok(0));
    assert_eq!(transfer_result(10, 512, 512), Err(UhdError::Index));
    assert_eq!(transfer_result(30, 0, 512), Err(UhdError::Io));
    assert_eq!(transfer_result(12345, 7, 512), Err(UhdError::Unknown));
    assert_eq!(transfer_result(0, 513, 512), Err(UhdError::Unknown));
    assert_eq!(transfer_result(10, 513, 512), Err(UhdError::Index));
}

#[test]
fn bounded_stream_delivers_its_count_and_falls_idle() {
    let max = 512usize;
    let mut builder = RxStartCommand::new();
    builder.with_limit(1000, true);
    let mut state = StreamState::idle().on_command(&builder.command());
    assert_eq!(state, StreamState::Bounded { remaining: 1000, and_done: true });
    let mut received = 0usize;
    let mut calls = 0;
    while state.is_streaming() {
        let n = state.pending(max);
        assert!(n > 0 && n <= max);
        received += n;
        state = state.on_received(n);
        calls += 1;
    }
    assert_eq!(received, 1000);
    assert_eq!(calls, 2);
    assert_eq!(state, StreamState::Idle);
    assert_eq!(state.pending(max), 0);
    assert_eq!(state.on_received(0), StreamState::Idle);
}

#[test]
fn bounded_stream_with_partial_reads() {
    let mut state = StreamState::Bounded { remaining: 1000, and_done: true };
    for n in [512usize, 0, 100, 388] {
        assert!(n <= state.pending(512));
        state = state.on_received(n);
    }
    assert_eq!(state, StreamState::Idle);
}

#[test]
fn and_more_waits_for_the_next_command() {
    let mut builder = RxStartCommand::new();
    builder.with_limit(10, false);
    let state = StreamState::idle().on_command(&builder.command());
    let state = state.on_received(10);
    assert_eq!(state, StreamState::Bounded { remaining: 0, and_done: false });
    assert!(state.is_streaming());
    assert_eq!(state.pending(512), 0);
    assert_eq!(state.on_command(&StreamCommand::stop()), StreamState::Idle);
}

#[test]
fn continuous_stream_runs_until_stopped() {
    let request = StreamArgs::<Complex32>::new().channels(&[0]).into_request();
    assert_eq!(request.cpu_format, "fc32");
    assert_eq!(request.channels, vec![0]);
    let stream: RxStream<Complex32> = RxStream::new(1, 512);
    let mut state = StreamState::idle().on_command(&stream.start_command().command());
    assert_eq!(state, StreamState::Continuous);
    let buff: ArrayBuffer<Complex32> = ArrayBuffer::new(1, 512);
    for n in [512usize, 512, 0, 17, 512, 1, 0, 512, 512, 300] {
        let asked = stream.check_buffer(&buff).unwrap();
        assert_eq!(asked, 512);
        assert!(n <= state.pending(asked));
        assert_eq!(transfer_result(0, n, asked), Ok(n));
        state = state.on_received(n);
        assert!(state.is_streaming());
    }
    state = state.on_command(&stream.stop_now());
    assert_eq!(state, StreamState::Idle);
    assert_eq!(state.pending(512), 0);
    let md = RxMetadata { raw_error_code: UHD_RX_METADATA_ERROR_CODE_TIMEOUT, ..RxMetadata::new() };
    assert!(md.is_timeout());
    assert_eq!(md.error_code(), Ok(RxErrorCode::Timeout));
    assert_eq!(state.on_command(&stream.stop_now()), StreamState::Idle);
}

#[test]
fn teardown_always_stops() {
    for state in [
        StreamState::Idle,
        StreamState::Continuous,
        StreamState::Bounded { remaining: 5, and_done: true },
        StreamState::Bounded { remaining: 0, and_done: false },
    ] {
        let (cmd, next) = state.on_teardown();
        assert_eq!(cmd, StreamCommand::stop());
        assert_eq!(next, StreamState::Idle);
    }
}

#[test]
fn zero_samples_and_done_is_idle_at_once() {
    let mut builder = RxStartCommand::new();
    builder.with_limit(0, true);
    assert_eq!(StreamState::idle().on_command(&builder.command()), StreamState::Idle);
}

#[test]
fn rx_error_codes() {
    let all = [
        (0x0u32, RxErrorCode::NoError),
        (0x1, RxErrorCode::Timeout),
        (0x2, RxErrorCode::LateCommand),
        (0x4, RxErrorCode::BrokenChain),
        (0x8, RxErrorCode::Overflow),
        (0xc, RxErrorCode::Alignment),
        (0xf, RxErrorCode::BadPacket),
    ];
    for (code, kind) in all {
        assert_eq!(RxErrorCode::try_from_primitive(code), Some(kind));
        assert_eq!(kind.code(), code);
    }
    for code in [3u32, 5, 6, 7, 9, 0xd, 0x10, u32::MAX] {
        assert_eq!(RxErrorCode::try_from_primitive(code), None);
        let md = RxMetadata { raw_error_code: code, ..RxMetadata::new() };
        assert_eq!(md.error_code(), Err(UhdError::Unknown));
        assert!(!md.is_timeout());
    }
}

#[test]
fn rx_metadata_fields() {
    let md = RxMetadata::new();
    assert_eq!(md.time_spec(), None);
    assert!(!md.start_of_burst());
    assert!(!md.end_of_burst());
    assert!(!md.more_fragments());
    assert_eq!(md.fragment_offset(), 0);
    assert!(!md.out_of_sequence());
    assert_eq!(md.error_code(), Ok(RxErrorCode::NoError));
    let t = TimeSpec::from_secs(5);
    let md = RxMetadata {
        time_spec: Some(t),
        start_of_burst: true,
        end_of_burst: true,
        more_fragments: true,
        fragment_offset: 12,
        out_of_sequence: true,
        raw_error_code: 8,
    };
    assert_eq!(md.time_spec(), Some(t));
    assert!(md.start_of_burst() && md.end_of_burst() && md.more_fragments());
    assert_eq!(md.fragment_offset(), 12);
    assert!(md.out_of_sequence());
    assert_eq!(md.error_code(), Ok(RxErrorCode::Overflow));
}

#[test]
fn tx_metadata_builder() {
    let md = TxMetadata::new();
    assert_eq!(md.time_spec(), None);
    assert!(!md.start_of_burst());
    assert!(!md.end_of_burst());
    assert_eq!(
        md.to_raw(),
        RawTxMetadata {
            has_time_spec: false,
            full_secs: 0,
            frac_bits: 0,
            start_of_burst: false,
            end_of_burst: false
        }
    );
    let t = TimeSpec::try_from_parts(3, 0, 0.25f64.to_bits()).unwrap();
    let md = TxMetadataBuilder::new()
        .with_time_spec(t)
        .with_start_of_burst(true)
        .with_end_of_burst(true)
        .build();
    assert_eq!(md.time_spec(), Some(t));
    assert!(md.start_of_burst());
    assert!(md.end_of_burst());
    assert_eq!(
        md.to_raw(),
        RawTxMetadata {
            has_time_spec: true,
            full_secs: 3,
            frac_bits: 0.25f64.to_bits(),
            start_of_burst: true,
            end_of_burst: true
        }
    );
    let mut md = md;
    md.set_end_of_burst(false);
    md.set_start_of_burst(false);
    md.set_time_spec(None);
    assert_eq!(md, TxMetadata::new());
}
