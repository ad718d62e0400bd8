//! Tests that spawn a real child onto the pty. The verified library prepares
//! the descriptors and records the command; the process creation itself is
//! driven here through tokio's process support, standing in for the
//! process-creation shell.

use pty_process::{open, Command, Pty};

/// Read from the master until at least `want` bytes arrived.
fn read_bytes(pty: &Pty, want: usize) -> Vec<u8> {
    let mut got: Vec<u8> = Vec::new();
    while got.len() < want {
        let chunk = pty.read(256).expect("read from pty failed");
        got.extend_from_slice(&chunk);
    }
    got
}

fn runtime() -> tokio::runtime::Runtime {
    tokio::runtime::Builder::new_current_thread()
        .enable_all()
        .build()
        .expect("failed to build runtime")
}

/// One full cycle: open a pty, spawn `cat` onto it, exchange one line, kill
/// and reap the child, drop everything.
fn cat_cycle(rt: &tokio::runtime::Runtime, input: &[u8], expected: &[u8]) {
    let (pty, pts) = open().expect("failed to open pty");
    let mut model = Command::new("cat".to_string());
    let prep = model.prepare_spawn(&pts).expect("prepare_spawn failed");
    let mut cmd = tokio::process::Command::new(model.program().as_str());
    cmd.stdin(prep.stdin.expect("stdin duplicate missing"));
    cmd.stdout(prep.stdout.expect("stdout duplicate missing"));
    cmd.stderr(prep.stderr.expect("stderr duplicate missing"));
    rt.block_on(async {
        let mut child = cmd.spawn().expect("failed to spawn cat");
        let written = pty.write(input).expect("write to master failed");
        assert_eq!(written, input.len());
        let got = read_bytes(&pty, expected.len());
        assert_eq!(&got, expected);
        child.kill().await.expect("failed to kill child");
    });
}

#[test]
fn spawn_cat_echoes_input() {
    // Writing one line to the master yields the line-discipline echo followed
    // by the child's own copy, in order.
    let rt = runtime();
    cat_cycle(&rt, b"foo\n", b"foo\r\nfoo\r\n");
}

#[test]
fn spawn_two_sequential_children() {
    // Two children spawned in sequence onto subordinate handles freshly
    // derived from one still-open pty are each wired correctly, and each
    // exits cleanly.
    let rt = runtime();
    let (pty, _pts) = open().expect("failed to open pty");
    pty.resize(pty_process::Size::new(24, 80)).expect("resize failed");
    for (arg, expected) in [("foo", &b"foo\r\n"[..]), ("bar", &b"bar\r\n"[..])] {
        let fresh = pty.pts().expect("failed to rederive subordinate");
        let mut model = Command::new("echo".to_string()).arg(arg.to_string());
        let prep = model.prepare_spawn(&fresh).expect("prepare_spawn failed");
        let mut cmd = tokio::process::Command::new(model.program().as_str());
        for recorded in model.arg_list() {
            cmd.arg(recorded);
        }
        cmd.stdin(prep.stdin.expect("stdin duplicate missing"));
        cmd.stdout(prep.stdout.expect("stdout duplicate missing"));
        cmd.stderr(prep.stderr.expect("stderr duplicate missing"));
        rt.block_on(async {
            let mut child = cmd.spawn().expect("failed to spawn echo");
            let got = read_bytes(&pty, expected.len());
            assert_eq!(got, expected);
            let status = child.wait().await.expect("failed to reap child");
            assert_eq!(status.code().expect("child had no exit code"), 0);
        });
    }
}

/// The numbers of all descriptors currently open in this process, sorted.
fn fd_snapshot() -> Vec<String> {
    let dirfd = rustix::fs::open(
        "/proc/self/fd",
        rustix::fs::OFlags::RDONLY | rustix::fs::OFlags::DIRECTORY,
        rustix::fs::Mode::empty(),
    )
    .expect("failed to open fd directory");
    let dir = rustix::fs::Dir::read_from(&dirfd).expect("failed to read fd directory");
    let mut names: Vec<String> = Vec::new();
    for entry in dir {
        let entry = entry.expect("bad directory entry");
        let name = entry.file_name().to_string_lossy().into_owned();
        if name != "." && name != ".." {
            names.push(name);
        }
    }
    drop(dirfd);
    names.sort();
    names
}

#[test]
fn spawn_fd_hygiene_over_cycles() {
    // The set of open descriptors before a run of open → spawn → kill → drop
    // cycles equals the set after: nothing leaks and nothing is lost.
    let rt = runtime();
    // Warm-up cycle, so one-time runtime initialization is behind us.
    cat_cycle(&rt, b"x\n", b"x\r\nx\r\n");
    let before = fd_snapshot();
    for _ in 0..3 {
        cat_cycle(&rt, b"foo\n", b"foo\r\nfoo\r\n");
    }
    let after = fd_snapshot();
    assert_eq!(before, after);
}

#[test]
fn spawn_parked_reader_does_not_block_writer() {
    // A reader task already parked on a pending read does not stop a write
    // from making progress: the child replies only after receiving input, so
    // the exchange completes only if the write proceeds while the read waits.
    let rt = runtime();
    let (mut pty, pts) = open().expect("failed to open pty");
    pty.set_nonblocking().expect("set_nonblocking failed");
    let mut model = Command::new("cat".to_string());
    let prep = model.prepare_spawn(&pts).expect("prepare_spawn failed");
    let mut cmd = tokio::process::Command::new(model.program().as_str());
    cmd.stdin(prep.stdin.expect("stdin duplicate missing"));
    cmd.stdout(prep.stdout.expect("stdout duplicate missing"));
    cmd.stderr(prep.stderr.expect("stderr duplicate missing"));
    rt.block_on(async {
        let mut child = cmd.spawn().expect("failed to spawn cat");
        let (read_half, write_half) = pty.into_split();
        let reader = tokio::task::spawn(async move {
            let mut got: Vec<u8> = Vec::new();
            while got.len() < 10 {
                match read_half.try_read(256) {
                    pty_process::ReadAttempt::Data(bytes) => got.extend_from_slice(&bytes),
                    pty_process::ReadAttempt::WouldBlock(_) => tokio::task::yield_now().await,
                    pty_process::ReadAttempt::Failed(code) => {
                        panic!("read failed with code {}", code)
                    }
                }
            }
            got
        });
        // Let the reader park itself on the empty pty first.
        tokio::task::yield_now().await;
        let written = write_half.write(b"foo\n").expect("write failed");
        assert_eq!(written, 4);
        let got = reader.await.expect("reader task failed");
        assert_eq!(&got, b"foo\r\nfoo\r\n");
        child.kill().await.expect("failed to kill child");
    });
}

#[test]
fn spawn_child_with_arguments() {
    // A child given arguments through the command model prints them onto the
    // pty: the recorded argument list is what the child actually receives.
    let rt = runtime();
    let (pty, pts) = open().expect("failed to open pty");
    let mut model = Command::new("echo".to_string()).arg("foo".to_string());
    let prep = model.prepare_spawn(&pts).expect("prepare_spawn failed");
    let mut cmd = tokio::process::Command::new(model.program().as_str());
    for arg in model.arg_list() {
        cmd.arg(arg);
    }
    cmd.stdin(prep.stdin.expect("stdin duplicate missing"));
    cmd.stdout(prep.stdout.expect("stdout duplicate missing"));
    cmd.stderr(prep.stderr.expect("stderr duplicate missing"));
    rt.block_on(async {
        let mut child = cmd.spawn().expect("failed to spawn echo");
        let got = read_bytes(&pty, 5);
        assert_eq!(&got, b"foo\r\n");
        child.wait().await.expect("failed to reap child");
    });
}
