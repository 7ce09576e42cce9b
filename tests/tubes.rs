use std::time::Duration;

use prawn::context::{access, Context};
use prawn::logging::{level_to_val, should_log, LogLevel};
use prawn::timer::{timeout_to_duration, TimeoutVal};
use prawn::tubes::buffer::{BufData, Buffer};
use prawn::tubes::process::{check_argv, disables_aslr, Error, ProcessConfig};
use prawn::tubes::{
    context_timeout, find_needle, finish_recv, line_of, needs_fill, pump_step, strip_line,
    raw_recv_result, PollOutcome, PumpAction, RawRecv, ReadOutcome, RecvUntil, UntilStep,
};

#[test]
fn test_context() {
    let mut ctx = Context::default();
    access(&mut ctx, |ctx| {
        ctx.aslr = false;
    });
    let aslr = access(&mut ctx, |ctx| ctx.aslr);
    assert!(!aslr);
}

#[test]
fn context_defaults() {
    let ctx = Context::default();
    assert!(ctx.aslr);
    assert_eq!(ctx.log_level, LogLevel::Info);
    assert!(matches!(context_timeout(&ctx), TimeoutVal::Default));
}

#[test]
fn log_levels_are_ordered() {
    assert_eq!(level_to_val(LogLevel::Debug), 0);
    assert_eq!(level_to_val(LogLevel::Critical), 4);
    let mut ctx = Context::default();
    assert!(!should_log(&ctx, LogLevel::Debug));
    assert!(should_log(&ctx, LogLevel::Info));
    assert!(should_log(&ctx, LogLevel::Critical));
    ctx.log_level = LogLevel::Debug;
    assert!(should_log(&ctx, LogLevel::Debug));
    ctx.log_level = LogLevel::Error;
    assert!(!should_log(&ctx, LogLevel::Warning));
}

#[test]
fn timeouts_resolve() {
    let mut ctx = Context::default();
    let d = Duration::from_millis(500);
    assert_eq!(timeout_to_duration(TimeoutVal::Duration(d), &ctx), d);
    assert_eq!(timeout_to_duration(TimeoutVal::Default, &ctx), Duration::from_millis(100));
    assert_eq!(timeout_to_duration(TimeoutVal::Forever, &ctx), Duration::MAX);
    ctx.timeout = TimeoutVal::Duration(Duration::from_secs(3));
    assert_eq!(timeout_to_duration(TimeoutVal::Default, &ctx), Duration::from_secs(3));
    ctx.timeout = TimeoutVal::Forever;
    assert_eq!(timeout_to_duration(TimeoutVal::Default, &ctx), Duration::MAX);
}

#[test]
fn needle_search_finds_first() {
    assert_eq!(find_needle(b"testing!\ntesting2!\n", b"!"), Some(7));
    assert_eq!(find_needle(b"abcabc", b"bc"), Some(1));
    assert_eq!(find_needle(b"abcabc", b"cab"), Some(2));
    assert_eq!(find_needle(b"abc", b"abc"), Some(0));
    assert_eq!(find_needle(b"abc", b"abcd"), None);
    assert_eq!(find_needle(b"", b"x"), None);
    assert_eq!(find_needle(b"aaab", b"ab"), Some(2));
}

#[test]
fn recv_prefers_buffered_bytes() {
    let mut buf = Buffer::default();
    buf.add(&mut BufData::ByteVec(b"testing\n".to_vec()));
    assert!(!needs_fill(&buf, Some(4)));
    assert_eq!(finish_recv(&mut buf, Some(4), vec![]), b"test".to_vec());
    assert!(!needs_fill(&buf, Some(4)));
    assert_eq!(finish_recv(&mut buf, Some(4), vec![]), b"ing\n".to_vec());
    assert!(needs_fill(&buf, Some(1)));
    assert_eq!(finish_recv(&mut buf, Some(1), vec![]), Vec::<u8>::new());
}

#[test]
fn recv_takes_at_most_the_request() {
    let mut buf = Buffer::default();
    buf.add(&mut BufData::ByteVec(b"ab".to_vec()));
    assert!(needs_fill(&buf, Some(5)));
    assert_eq!(finish_recv(&mut buf, Some(5), b"cdefg".to_vec()), b"abcde".to_vec());
    assert_eq!(buf.data, b"fg".to_vec());
    assert_eq!(finish_recv(&mut buf, None, b"h".to_vec()), b"fgh".to_vec());
}

#[test]
fn recv_until_over_two_lines() {
    let mut buf = Buffer::default();
    let mut wait = RecvUntil::start(&mut buf, b"!");
    assert!(matches!(wait.step(&mut buf, false), UntilStep::Pending));
    wait.feed(line_of(b"testing!"));
    wait.feed(line_of(b"testing2!"));
    match wait.step(&mut buf, false) {
        UntilStep::Found(p) => assert_eq!(p, b"testing!".to_vec()),
        _ => panic!("needle not found"),
    }
    assert_eq!(buf.get(1), b"\n".to_vec());
    let mut wait = RecvUntil::start(&mut buf, b"\n");
    match wait.step(&mut buf, false) {
        UntilStep::Found(p) => {
            assert_eq!(p, b"testing2!\n".to_vec());
            assert_eq!(strip_line(p), b"testing2!".to_vec());
        },
        _ => panic!("newline not found"),
    }
    assert!(buf.is_empty());
}

#[test]
fn recv_until_timeout_keeps_bytes() {
    let mut buf = Buffer::default();
    buf.add(&mut BufData::ByteVec(b"abc".to_vec()));
    let mut wait = RecvUntil::start(&mut buf, b"zz");
    assert!(buf.is_empty());
    wait.feed(b"def".to_vec());
    buf.add(&mut BufData::ByteVec(b"ghi".to_vec()));
    assert!(matches!(wait.step(&mut buf, true), UntilStep::TimedOut));
    assert_eq!(buf.data, b"abcdefghi".to_vec());
}

#[test]
fn lines_are_framed_and_stripped() {
    assert_eq!(line_of(b"testing!"), b"testing!\n".to_vec());
    assert_eq!(line_of(b""), b"\n".to_vec());
    assert_eq!(strip_line(b"abc\n".to_vec()), b"abc".to_vec());
    assert_eq!(strip_line(Vec::new()), Vec::<u8>::new());
}

#[test]
fn pump_decisions() {
    assert!(matches!(pump_step(PollOutcome::Data(b"x".to_vec()), true), PumpAction::Continue(d) if d == b"x".to_vec()));
    assert!(matches!(pump_step(PollOutcome::Data(b"x".to_vec()), false), PumpAction::Stop));
    assert!(matches!(pump_step(PollOutcome::Failed, true), PumpAction::Continue(d) if d.is_empty()));
    assert!(matches!(pump_step(PollOutcome::Failed, false), PumpAction::Stop));
    assert!(matches!(pump_step(PollOutcome::Closed("gone".to_string()), true), PumpAction::Fail(m) if m == "gone"));
}

#[test]
fn process_checks() {
    assert!(check_argv(&vec!["/bin/cat".to_string()]).is_ok());
    match check_argv(&vec![]) {
        Err(Error::ArgsError(m)) => assert_eq!(m, "Process argv was empty!"),
        _ => panic!("empty argv accepted"),
    }
    assert!(!disables_aslr(&ProcessConfig::default()));
    assert!(disables_aslr(&ProcessConfig { aslr: false }));
}

#[test]
fn sent_line_comes_back_whole() {
    let mut buf = Buffer::default();
    assert!(needs_fill(&buf, Some(9)));
    let echoed = line_of(b"testing!");
    assert_eq!(finish_recv(&mut buf, Some(9), echoed), b"testing!\n".to_vec());
    assert!(buf.is_empty());
}

#[test]
fn raw_receive_outcomes() {
    assert!(matches!(raw_recv_result(ReadOutcome::TimedOut, vec![]), RawRecv::Bytes(b) if b.is_empty()));
    assert!(matches!(raw_recv_result(ReadOutcome::TimedOut, b"ab".to_vec()), RawRecv::Bytes(b) if b == b"ab".to_vec()));
    assert!(matches!(raw_recv_result(ReadOutcome::Returned, b"x".to_vec()), RawRecv::Bytes(b) if b == b"x".to_vec()));
    assert!(matches!(raw_recv_result(ReadOutcome::Returned, vec![]), RawRecv::Exited));
    let e = std::io::Error::other("broken");
    assert!(matches!(raw_recv_result(ReadOutcome::Failed(e), vec![]), RawRecv::Failed(f) if f.to_string() == "broken"));
}
