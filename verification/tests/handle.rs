use std::collections::VecDeque;
use std::io::{Cursor, ErrorKind, Read, Seek, SeekFrom, Write};
use std::sync::{Arc, Mutex};
use std::task::Context;

use async_file::file::{CloseStep, FlushStep, ReadStep, SeekStep, WriteStep};
use async_file::pump::{pump_continue, read_pump_outcome, write_pump_outcome};
use async_file::{File, SeekPos};
use async_task::Runnable;
use std::future::Future;

const CAP: usize = 8 * 1024 * 1024;

type Queue = Arc<Mutex<VecDeque<Runnable>>>;

fn new_queue() -> Queue {
    Arc::new(Mutex::new(VecDeque::new()))
}

fn scheduler(q: &Queue) -> impl Fn(Runnable) + Send + Sync + 'static {
    let q = q.clone();
    move |runnable| q.lock().unwrap().push_back(runnable)
}

fn run_all(q: &Queue) {
    loop {
        let next = q.lock().unwrap().pop_front();
        match next {
            Some(runnable) => {
                runnable.run();
            }
            None => break,
        }
    }
}

fn to_seek_from(p: SeekPos) -> SeekFrom {
    match p {
        SeekPos::Start(n) => SeekFrom::Start(n),
        SeekPos::Current(n) => SeekFrom::Current(n),
        SeekPos::End(n) => SeekFrom::End(n),
    }
}

fn read_pump<F: Read + Send + 'static>(
    mut writer: piper::Writer,
    mut file: F,
) -> impl Future<Output = (Result<(), std::io::Error>, F)> + Send + 'static {
    async move {
        loop {
            let last = std::future::poll_fn(|cx| writer.poll_fill(cx, &mut file)).await;
            if !pump_continue(&last) {
                return (read_pump_outcome(last), file);
            }
        }
    }
}

fn write_pump<F: Write + Send + 'static>(
    mut reader: piper::Reader,
    mut file: F,
) -> impl Future<Output = (Result<(), std::io::Error>, F)> + Send + 'static {
    async move {
        loop {
            let last = std::future::poll_fn(|cx| reader.poll_drain(cx, &mut file)).await;
            if !pump_continue(&last) {
                let drain = last.map(|_| ());
                let flush = file.flush();
                return (write_pump_outcome(drain, flush), file);
            }
        }
    }
}

fn read_once<F: Read + Send + 'static>(
    h: &mut File<F>,
    q: &Queue,
    buf: &mut Vec<u8>,
) -> Result<usize, std::io::Error> {
    let waker = waker_fn::waker_fn(|| {});
    loop {
        let mut cx = Context::from_waker(&waker);
        assert!(h.can_poll_read());
        match h.poll_read(&mut cx, buf) {
            ReadStep::NeedsSpawn => {
                let file = h.take_file();
                let (reader, writer) = piper::pipe(CAP);
                let (runnable, task) = async_task::spawn(read_pump(writer, file), scheduler(q));
                runnable.schedule();
                h.enter_reading(reader, task);
            }
            ReadStep::Pending => run_all(q),
            ReadStep::Done(n) => return Ok(n),
            ReadStep::Failed(e) => return Err(e),
            ReadStep::Lost => panic!("the background task was lost"),
        }
    }
}

fn write_once<F: Write + Send + 'static>(
    h: &mut File<F>,
    q: &Queue,
    chunk: &[u8],
) -> Result<usize, std::io::Error> {
    let waker = waker_fn::waker_fn(|| {});
    loop {
        let mut cx = Context::from_waker(&waker);
        assert!(h.can_poll_write());
        match h.poll_write(&mut cx, chunk) {
            WriteStep::NeedsSpawn => {
                let file = h.take_file();
                let (reader, writer) = piper::pipe(CAP);
                let (runnable, task) = async_task::spawn(write_pump(reader, file), scheduler(q));
                runnable.schedule();
                h.enter_writing(writer, task);
            }
            WriteStep::Pending => run_all(q),
            WriteStep::Accepted(n) => return Ok(n),
            WriteStep::Failed(e) => return Err(e),
            WriteStep::Lost => panic!("the background task was lost"),
        }
    }
}

fn seek_once<F: Seek + Send + 'static>(
    h: &mut File<F>,
    q: &Queue,
    target: SeekPos,
) -> Result<u64, std::io::Error> {
    let waker = waker_fn::waker_fn(|| {});
    loop {
        let mut cx = Context::from_waker(&waker);
        assert!(h.can_poll_seek());
        match h.poll_seek(&mut cx, target) {
            SeekStep::NeedsSpawn => spawn_seek(h, q, target),
            SeekStep::Pending => run_all(q),
            SeekStep::Done(p) => return Ok(p),
            SeekStep::Failed(e) => return Err(e),
            SeekStep::Lost => panic!("the background task was lost"),
        }
    }
}

fn spawn_seek<F: Seek + Send + 'static>(h: &mut File<F>, q: &Queue, target: SeekPos) {
    let mut file = h.take_file();
    let sf = to_seek_from(target);
    let fut = async move {
        let res = file.seek(sf);
        (res, file)
    };
    let (runnable, task) = async_task::spawn(fut, scheduler(q));
    runnable.schedule();
    h.enter_seeking(target, task);
}

fn flush_once<F>(h: &mut File<F>, q: &Queue) -> Result<(), std::io::Error> {
    let waker = waker_fn::waker_fn(|| {});
    loop {
        let mut cx = Context::from_waker(&waker);
        match h.poll_flush(&mut cx) {
            FlushStep::Pending => run_all(q),
            FlushStep::Done => return Ok(()),
            FlushStep::Failed(e) => return Err(e),
            FlushStep::Lost => panic!("the background task was lost"),
        }
    }
}

fn close_once<F>(h: &mut File<F>, q: &Queue) -> Result<Option<F>, std::io::Error> {
    let waker = waker_fn::waker_fn(|| {});
    loop {
        let mut cx = Context::from_waker(&waker);
        match h.poll_close(&mut cx) {
            CloseStep::Pending => run_all(q),
            CloseStep::Done(slot) => return Ok(slot),
            CloseStep::Failed(e) => return Err(e),
            CloseStep::Lost => panic!("the background task was lost"),
        }
    }
}

fn write_all<F: Write + Send + 'static>(h: &mut File<F>, q: &Queue, mut data: &[u8]) {
    while !data.is_empty() {
        let n = write_once(h, q, data).unwrap();
        assert!(n > 0, "write made no progress");
        data = &data[n..];
    }
}

fn read_exact<F: Read + Send + 'static>(h: &mut File<F>, q: &Queue, want: usize) -> Vec<u8> {
    let mut out = Vec::new();
    while out.len() < want {
        let mut buf = vec![0u8; want - out.len()];
        let n = read_once(h, q, &mut buf).unwrap();
        if n == 0 {
            break;
        }
        out.extend_from_slice(&buf[..n]);
    }
    out
}

struct FailWriter;

impl Write for FailWriter {
    fn write(&mut self, _buf: &[u8]) -> std::io::Result<usize> {
        Err(std::io::Error::new(ErrorKind::Other, "sink is broken"))
    }
    fn flush(&mut self) -> std::io::Result<()> {
        Ok(())
    }
}

struct FailReader;

impl Read for FailReader {
    fn read(&mut self, _buf: &mut [u8]) -> std::io::Result<usize> {
        Err(std::io::Error::new(ErrorKind::Other, "source is broken"))
    }
}

#[test]
fn open_read_and_write() {
    let q = new_queue();
    let mut file = File::new(Cursor::new(Vec::new()));
    write_all(&mut file, &q, b"hello");
    seek_once(&mut file, &q, SeekPos::Start(0)).unwrap();
    let buf = read_exact(&mut file, &q, 5);
    assert_eq!(&buf, b"hello");
    close_once(&mut file, &q).unwrap();
}

#[test]
fn round_trip_bytes() {
    let q = new_queue();
    let mut file = File::new(Cursor::new(Vec::new()));
    let data: Vec<u8> = (0..257u32).map(|i| (i % 256) as u8).collect();
    write_all(&mut file, &q, &data);
    assert_eq!(seek_once(&mut file, &q, SeekPos::Start(0)).unwrap(), 0);
    let back = read_exact(&mut file, &q, data.len());
    assert_eq!(back, data);
}

#[test]
fn round_trip_empty() {
    let q = new_queue();
    let mut file = File::new(Cursor::new(Vec::new()));
    assert_eq!(seek_once(&mut file, &q, SeekPos::Start(0)).unwrap(), 0);
    let mut buf = vec![0u8; 4];
    assert_eq!(read_once(&mut file, &q, &mut buf).unwrap(), 0);
}

#[test]
fn flush_fresh_handle_is_immediate_noop() {
    let q = new_queue();
    let mut file: File<Cursor<Vec<u8>>> = File::new(Cursor::new(Vec::new()));
    let waker = waker_fn::waker_fn(|| {});
    let mut cx = Context::from_waker(&waker);
    match file.poll_flush(&mut cx) {
        FlushStep::Done => {}
        _ => panic!("flush on a fresh handle must succeed on the first poll"),
    }
    assert!(file.is_open());
    assert!(q.lock().unwrap().is_empty(), "no background work may be spawned");
    close_once(&mut file, &q).unwrap();
}

#[test]
fn write_after_partial_read_quiesces_first() {
    let q = new_queue();
    let mut file = File::new(Cursor::new(b"abcdef".to_vec()));
    let mut buf = vec![0u8; 3];
    let n = read_once(&mut file, &q, &mut buf).unwrap();
    assert_eq!(n, 3);
    assert_eq!(&buf, b"abc");
    // The read pump consumed the whole 6-byte resource ahead of the caller, so
    // the interrupting write lands at position 6, not 3.
    write_all(&mut file, &q, b"XYZ");
    let cursor = close_once(&mut file, &q).unwrap().unwrap();
    assert_eq!(cursor.into_inner(), b"abcdefXYZ".to_vec());
}

#[test]
fn seek_retarget_yields_newest_target() {
    let q = new_queue();
    let mut file = File::new(Cursor::new(b"abcdefgh".to_vec()));
    let waker = waker_fn::waker_fn(|| {});

    // Start a seek to 6 but do not let it run yet.
    let mut cx = Context::from_waker(&waker);
    match file.poll_seek(&mut cx, SeekPos::Start(6)) {
        SeekStep::NeedsSpawn => spawn_seek(&mut file, &q, SeekPos::Start(6)),
        _ => panic!("an idle handle asks for a spawn"),
    }
    // Change of mind: ask for 2 while the seek to 6 is still in flight.
    let mut cx = Context::from_waker(&waker);
    match file.poll_seek(&mut cx, SeekPos::Start(2)) {
        SeekStep::Pending => {}
        _ => panic!("the stale seek has not completed yet"),
    }
    run_all(&q);
    // The completed seek went to 6; its result must not be reported for the
    // request for 2, which is answered by a fresh seek.
    let p = seek_once(&mut file, &q, SeekPos::Start(2)).unwrap();
    assert_eq!(p, 2);
    let buf = read_exact(&mut file, &q, 1);
    assert_eq!(&buf, b"c");
}

#[test]
fn seek_current_and_end() {
    let q = new_queue();
    let mut file = File::new(Cursor::new(b"abcdef".to_vec()));
    assert_eq!(seek_once(&mut file, &q, SeekPos::End(-2)).unwrap(), 4);
    assert_eq!(seek_once(&mut file, &q, SeekPos::Current(-3)).unwrap(), 1);
    let buf = read_exact(&mut file, &q, 2);
    assert_eq!(&buf, b"bc");
}

#[test]
fn eof_read_returns_zero_repeatedly() {
    let q = new_queue();
    let mut file = File::new(Cursor::new(b"ab".to_vec()));
    let mut buf = vec![0u8; 10];
    assert_eq!(read_once(&mut file, &q, &mut buf).unwrap(), 2);
    for _ in 0..3 {
        let mut buf = vec![0u8; 10];
        assert_eq!(read_once(&mut file, &q, &mut buf).unwrap(), 0);
        assert!(file.is_open(), "the handle is idle again after end of stream");
    }
    close_once(&mut file, &q).unwrap();
}

#[test]
fn close_releases_resource_and_is_idempotent() {
    let q = new_queue();
    let mut file = File::new(Cursor::new(Vec::new()));
    write_all(&mut file, &q, b"data");
    let slot = close_once(&mut file, &q).unwrap();
    assert!(slot.is_some(), "close hands the resource back");
    assert!(!file.is_open());
    assert!(file.is_released());
    assert!(!file.can_poll_read());
    assert!(!file.can_poll_write());
    assert!(!file.can_poll_seek());
    // Close and flush stay no-op successes on a released handle.
    let again = close_once(&mut file, &q).unwrap();
    assert!(again.is_none());
    flush_once(&mut file, &q).unwrap();
}

#[test]
fn empty_file_scenario() {
    let q = new_queue();
    let mut file = File::new(Cursor::new(Vec::new()));
    let mut buf = vec![0u8; 8];
    assert_eq!(read_once(&mut file, &q, &mut buf).unwrap(), 0);
    write_all(&mut file, &q, b"hello");
    flush_once(&mut file, &q).unwrap();
    assert_eq!(seek_once(&mut file, &q, SeekPos::Start(0)).unwrap(), 0);
    let back = read_exact(&mut file, &q, 5);
    assert_eq!(&back, b"hello");
    let slot = close_once(&mut file, &q).unwrap();
    assert_eq!(slot.unwrap().into_inner(), b"hello".to_vec());
}

#[test]
fn backpressure_keeps_every_byte() {
    let q = new_queue();
    let mut file = File::new(Cursor::new(Vec::new()));
    let chunk_len: usize = 4 * 1024;
    let chunks: usize = 4 * 1024;
    let mut expected: Vec<u8> = Vec::with_capacity(chunk_len * chunks);
    for i in 0..chunks {
        let byte = (i % 251) as u8;
        let chunk = vec![byte; chunk_len];
        write_all(&mut file, &q, &chunk);
        expected.extend_from_slice(&chunk);
    }
    let cursor = close_once(&mut file, &q).unwrap().unwrap();
    let written = cursor.into_inner();
    assert_eq!(written.len(), chunk_len * chunks);
    assert_eq!(written, expected);
}

#[test]
fn write_error_surfaces_on_flush_and_recovers() {
    let q = new_queue();
    let mut file = File::new(FailWriter);
    let n = write_once(&mut file, &q, b"hi").unwrap();
    assert_eq!(n, 2, "the pipe accepts the bytes before the sink fails");
    let err = flush_once(&mut file, &q).unwrap_err();
    assert_eq!(err.kind(), ErrorKind::Other);
    assert!(file.is_open(), "the resource is recovered before the error surfaces");
    let slot = close_once(&mut file, &q).unwrap();
    assert!(slot.is_some());
}

#[test]
fn read_error_recovers_handle() {
    let q = new_queue();
    let mut file = File::new(FailReader);
    let mut buf = vec![0u8; 4];
    let err = read_once(&mut file, &q, &mut buf).unwrap_err();
    assert_eq!(err.kind(), ErrorKind::Other);
    assert!(file.is_open(), "the resource is recovered before the error surfaces");
    close_once(&mut file, &q).unwrap();
}

#[test]
fn state_name_reports_mode() {
    let q = new_queue();
    let mut file = File::new(Cursor::new(b"abcd".to_vec()));
    assert_eq!(file.state_name(), "Idle");
    let mut buf = vec![0u8; 2];
    assert_eq!(read_once(&mut file, &q, &mut buf).unwrap(), 2);
    assert_eq!(file.state_name(), "Reading");
    close_once(&mut file, &q).unwrap();
    assert_eq!(file.state_name(), "Idle");
}

#[derive(Debug)]
struct FlushFailWriter;

impl Write for FlushFailWriter {
    fn write(&mut self, buf: &[u8]) -> std::io::Result<usize> {
        Ok(buf.len())
    }
    fn flush(&mut self) -> std::io::Result<()> {
        Err(std::io::Error::new(ErrorKind::BrokenPipe, "flush is broken"))
    }
}

#[test]
fn pump_decision_rules() {
    assert!(pump_continue(&Ok(3)));
    assert!(!pump_continue(&Ok(0)));
    assert!(!pump_continue(&Err(std::io::Error::new(ErrorKind::Other, "x"))));

    assert!(read_pump_outcome(Ok(0)).is_ok());
    let e = read_pump_outcome(Err(std::io::Error::new(ErrorKind::BrokenPipe, "x"))).unwrap_err();
    assert_eq!(e.kind(), ErrorKind::BrokenPipe);

    assert!(write_pump_outcome(Ok(()), Ok(())).is_ok());
    let e = write_pump_outcome(Ok(()), Err(std::io::Error::new(ErrorKind::BrokenPipe, "f"))).unwrap_err();
    assert_eq!(e.kind(), ErrorKind::BrokenPipe);
    let e = write_pump_outcome(
        Err(std::io::Error::new(ErrorKind::Other, "d")),
        Err(std::io::Error::new(ErrorKind::BrokenPipe, "f")),
    )
    .unwrap_err();
    assert_eq!(e.kind(), ErrorKind::Other, "a drain error outranks the flush result");
    let e = write_pump_outcome(Err(std::io::Error::new(ErrorKind::Other, "d")), Ok(())).unwrap_err();
    assert_eq!(e.kind(), ErrorKind::Other);
}

#[test]
fn flush_failure_is_authoritative_after_clean_drain() {
    let q = new_queue();
    let mut file = File::new(FlushFailWriter);
    assert_eq!(write_once(&mut file, &q, b"hi").unwrap(), 2);
    let err = flush_once(&mut file, &q).unwrap_err();
    assert_eq!(err.kind(), ErrorKind::BrokenPipe);
    assert!(file.is_open());
}

#[test]
fn lost_task_releases_handle() {
    let q = new_queue();
    let waker = waker_fn::waker_fn(|| {});
    let mut file = File::new(Cursor::new(b"ab".to_vec()));
    let mut buf = vec![0u8; 4];
    let mut cx = Context::from_waker(&waker);
    match file.poll_read(&mut cx, &mut buf) {
        ReadStep::NeedsSpawn => {}
        _ => panic!("an idle handle asks for a spawn"),
    }
    let inner = file.take_file();
    let (reader, writer) = piper::pipe(CAP);
    let (runnable, task) = async_task::spawn(read_pump(writer, inner), scheduler(&q));
    // The executor destroys the pump instead of running it.
    drop(runnable);
    file.enter_reading(reader, task);
    let mut cx = Context::from_waker(&waker);
    match file.poll_read(&mut cx, &mut buf) {
        ReadStep::Lost => {}
        _ => panic!("a destroyed task can hand nothing back"),
    }
    assert!(file.is_released(), "the resource went down with the task");
}

#[test]
fn close_releases_even_on_flush_error() {
    let q = new_queue();
    let mut file = File::new(FlushFailWriter);
    assert_eq!(write_once(&mut file, &q, b"hi").unwrap(), 2);
    let err = close_once(&mut file, &q).unwrap_err();
    assert_eq!(err.kind(), ErrorKind::BrokenPipe);
    assert!(file.is_released(), "teardown happens even when the flush failed");
    assert!(close_once(&mut file, &q).unwrap().is_none());
}
