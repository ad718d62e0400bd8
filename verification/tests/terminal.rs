//! Tests of the controlling-terminal behaviour: window-change signal
//! delivery on resize, and session/controlling-terminal wiring. The children
//! here are put into a fresh session with the pty as controlling terminal by
//! the `setsid` utility — the same session-setup sequence the library's
//! pre-exec step performs — because tests cannot install fork-side hooks.

use pty_process::{open, Pty, Size};

/// Read from the master until at least `want` bytes arrived.
fn read_amount(pty: &Pty, want: usize) -> Vec<u8> {
    let mut got: Vec<u8> = Vec::new();
    while got.len() < want {
        let chunk = pty.read(256).expect("read from pty failed");
        got.extend_from_slice(&chunk);
    }
    got
}

fn run() -> tokio::runtime::Runtime {
    tokio::runtime::Builder::new_current_thread()
        .enable_all()
        .build()
        .expect("failed to build runtime")
}

#[test]
fn terminal_resize_delivers_window_change() {
    // A child with a window-change handler installed reports the signal after
    // a resize, before any further output.
    let rt = run();
    let (pty, pts) = open().expect("failed to open pty");
    pty.resize(Size::new(24, 80)).expect("initial resize failed");
    let streams = pts.setup_subprocess().expect("stdio duplicates failed");
    let mut cmd = tokio::process::Command::new("setsid");
    cmd.arg("--ctty");
    cmd.arg("perl");
    cmd.arg("-e");
    cmd.arg("$|++; $SIG{WINCH} = sub { print \"WINCH\\n\" }; print \"started\\n\"; <STDIN>");
    cmd.stdin(streams.0);
    cmd.stdout(streams.1);
    cmd.stderr(streams.2);
    rt.block_on(async {
        let mut child = cmd.spawn().expect("failed to spawn child");
        assert_eq!(&read_amount(&pty, 9), b"started\r\n");
        pty.resize(Size::new(25, 80)).expect("resize failed");
        assert_eq!(&read_amount(&pty, 7), b"WINCH\r\n");
        child.kill().await.expect("failed to kill child");
    });
}

#[test]
fn terminal_child_session_and_ctty() {
    // Inside a child set up the way the spawn protocol prescribes, the
    // session id equals the child's pid, and the controlling terminal
    // resolves to the pty's subordinate device.
    let rt = run();
    let (pty, pts) = open().expect("failed to open pty");
    let streams = pts.setup_subprocess().expect("stdio duplicates failed");
    let mut cmd = tokio::process::Command::new("setsid");
    cmd.arg("--ctty");
    cmd.arg("python3");
    cmd.arg("-c");
    cmd.arg(
        "import os\n\
         print(os.getpid() == os.getsid(0))\n\
         t = os.open('/dev/tty', os.O_RDWR)\n\
         os.write(t, b'ctty\\n')",
    );
    cmd.stdin(streams.0);
    cmd.stdout(streams.1);
    cmd.stderr(streams.2);
    rt.block_on(async {
        let mut child = cmd.spawn().expect("failed to spawn child");
        // The session id report, then a line written through /dev/tty, which
        // resolves to this pty's subordinate and so arrives at the master.
        assert_eq!(&read_amount(&pty, 12), b"True\r\nctty\r\n");
        child.wait().await.expect("failed to reap child");
    });
}
