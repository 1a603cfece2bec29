use vstd::prelude::*;

verus! {

use crate::strutil::{spec_split, split_char};

/// Default terminal width the guest command runs under.
pub const DEFAULT_COLS: u32 = 80;

/// Default terminal height the guest command runs under.
pub const DEFAULT_LINES: u32 = 30;

/// What can go wrong inside the guest supervisor before or during a run.
#[derive(Clone, Copy, PartialEq, Eq, Structural, Debug)]
pub enum DaemonError {
    /// The guest configuration file names no command.
    ConfigError,
    /// An event arrived from a source the supervisor never subscribed to.
    UnexpectedEvent,
}

impl DaemonError {
    /// A human-readable description, emitted to the guest's error stream
    /// before the failure is signalled.
    pub fn message(&self) -> (r: String)
        ensures
            *self == DaemonError::ConfigError ==> r@ == "guest configuration does not specify a command"@,
            *self == DaemonError::UnexpectedEvent ==> r@ == "event from an unknown source"@,
    {
        match self {
            DaemonError::ConfigError => String::from_str(
                "guest configuration does not specify a command",
            ),
            DaemonError::UnexpectedEvent => String::from_str("event from an unknown source"),
        }
    }
}

/// The text of the guest configuration file, split into lines: pieces
/// between newlines, with the empty piece after a trailing newline dropped.
pub open spec fn spec_config_lines(s: Seq<char>) -> Seq<Seq<char>> {
    let parts = spec_split(s, '\n');
    if parts.len() > 0 && parts.last() == Seq::<char>::empty() {
        parts.drop_last()
    } else {
        parts
    }
}

/// The command the supervisor runs in the guest: the program name from the
/// configuration's first line and one argument per further line.
#[derive(Debug)]
pub struct GuestCommand {
    pub name: String,
    pub args: Vec<String>,
}

/// Reads the guest configuration: the first line names the program, every
/// further line is one argument.  A configuration without any line names no
/// command and is rejected before anything is spawned.
pub fn parse_config(s: &str) -> (r: Result<GuestCommand, DaemonError>)
    ensures
        (match r {
            Ok(c) => {
                &&& spec_config_lines(s@).len() > 0
                &&& c.name@ == spec_config_lines(s@)[0]
                &&& c.args.deep_view() == spec_config_lines(s@).skip(1)
            },
            Err(e) => {
                &&& e == DaemonError::ConfigError
                &&& spec_config_lines(s@).len() == 0
            },
        }),
{
    let parts = split_char(s, '\n');
    let ghost pieces = parts.deep_view();
    let ghost lines = spec_config_lines(s@);
    proof {
        assert(pieces.len() >= 1);
    }
    let np: usize = parts.len();
    let last_empty = parts[np - 1].unicode_len() == 0;
    proof {
        if last_empty {
            assert(pieces.last() =~= Seq::<char>::empty());
        }
    }
    let k: usize = if last_empty {
        np - 1
    } else {
        np
    };
    proof {
        assert(lines =~= pieces.take(k as int));
    }
    if k == 0 {
        return Err(DaemonError::ConfigError);
    }
    let name = parts[0].clone();
    proof {
        assert(name@ == pieces[0]);
        assert(lines[0] == pieces[0]);
    }
    let mut args: Vec<String> = Vec::new();
    let ghost mut acc: Seq<Seq<char>> = Seq::empty();
    let mut j: usize = 1;
    while j < k
        invariant
            1 <= j <= k,
            k <= parts.len(),
            pieces == parts.deep_view(),
            args.len() == acc.len(),
            forall|i: int| 0 <= i < acc.len() ==> #[trigger] args@[i]@ == acc[i],
            acc == pieces.subrange(1, j as int),
        decreases k - j,
    {
        let x = parts[j].clone();
        proof {
            assert(x@ == pieces[j as int]);
        }
        args.push(x);
        proof {
            acc = acc.push(pieces[j as int]);
            assert(acc =~= pieces.subrange(1, j + 1));
        }
        j = j + 1;
    }
    proof {
        assert forall|i: int| 0 <= i < acc.len() implies args.deep_view()[i] == acc[i] by {
            assert(args@[i]@ == acc[i]);
        }
        assert(args.deep_view() =~= acc);
        assert(pieces.subrange(1, k as int) =~= lines.skip(1));
    }
    Ok(GuestCommand { name, args })
}

/// Splitting a text that starts with a newline-free line and its newline
/// peels off exactly that line.
proof fn lemma_split_head(line: Seq<char>, rest: Seq<char>)
    requires
        forall|j: int| 0 <= j < line.len() ==> line[j] != '\n',
    ensures
        spec_split(line + seq!['\n'] + rest, '\n') == seq![line] + spec_split(rest, '\n'),
{
    let s = line + seq!['\n'] + rest;
    assert forall|j: int| 0 <= j < line.len() implies s[j] != '\n' by {
        assert(s[j] == line[j]);
    }
    assert(s[line.len() as int] == '\n');
    crate::strutil::lemma_prefix_until_characterisation(s, '\n', line.len() as int);
    assert(s.subrange(0, line.len() as int) =~= line);
    let p = crate::strutil::spec_prefix_until(s, '\n');
    assert(p == line);
    assert(s.skip(p.len() as int + 1) =~= rest);
}

/// The end-recursive join of lines can also be read from the front.
proof fn lemma_joined_head(lines: Seq<Seq<char>>)
    requires
        lines.len() > 0,
    ensures
        crate::writer::spec_joined_lines(lines) == lines[0] + seq!['\n']
            + crate::writer::spec_joined_lines(lines.skip(1)),
    decreases lines.len(),
{
    if lines.len() == 1 {
        assert(lines.drop_last() =~= Seq::<Seq<char>>::empty());
        assert(lines.skip(1) =~= Seq::<Seq<char>>::empty());
        assert(crate::writer::spec_joined_lines(lines) =~= lines[0] + seq!['\n']
            + crate::writer::spec_joined_lines(lines.skip(1)));
    } else {
        let front = lines.drop_last();
        lemma_joined_head(front);
        assert(front.skip(1) =~= lines.skip(1).drop_last());
        assert(front[0] == lines[0]);
        assert(lines.skip(1).last() == lines.last());
        assert(crate::writer::spec_joined_lines(lines) == crate::writer::spec_joined_lines(
            front,
        ) + lines.last() + seq!['\n']);
        assert(crate::writer::spec_joined_lines(lines.skip(1))
            == crate::writer::spec_joined_lines(lines.skip(1).drop_last()) + lines.skip(
            1,
        ).last() + seq!['\n']);
        assert(lines[0] + seq!['\n'] + (crate::writer::spec_joined_lines(front.skip(1))
            + lines.last() + seq!['\n']) =~= (lines[0] + seq!['\n']
            + crate::writer::spec_joined_lines(front.skip(1))) + lines.last() + seq!['\n']);
    }
}

/// Splitting a rendered argument vector gives the arguments back, plus the
/// empty piece after the final newline.
proof fn lemma_split_joined(lines: Seq<Seq<char>>)
    requires
        forall|i: int, j: int|
            0 <= i < lines.len() && 0 <= j < lines[i].len() ==> #[trigger] lines[i][j] != '\n',
    ensures
        spec_split(crate::writer::spec_joined_lines(lines), '\n') == lines + seq![
            Seq::<char>::empty(),
        ],
    decreases lines.len(),
{
    if lines.len() == 0 {
        let e = Seq::<char>::empty();
        assert(crate::writer::spec_joined_lines(lines) == e);
        assert(crate::strutil::spec_prefix_until(e, '\n') =~= e);
        assert(spec_split(e, '\n') == seq![e]);
        assert(lines + seq![e] =~= seq![e]);
    } else {
        lemma_joined_head(lines);
        let tail = lines.skip(1);
        assert forall|i: int, j: int|
            0 <= i < tail.len() && 0 <= j < tail[i].len() implies #[trigger] tail[i][j]
            != '\n' by {
            assert(tail[i] == lines[i + 1]);
        }
        lemma_split_joined(tail);
        lemma_split_head(lines[0], crate::writer::spec_joined_lines(tail));
        assert(seq![lines[0]] + (tail + seq![Seq::<char>::empty()]) =~= lines + seq![
            Seq::<char>::empty(),
        ]);
    }
}

/// Round trip across the guest configuration file: a configuration the host
/// renders from an argument vector whose entries hold no newline parses back
/// into exactly those lines, so the guest runs precisely the command the
/// host wrote.
pub proof fn lemma_config_round_trip(lines: Seq<Seq<char>>)
    requires
        forall|i: int, j: int|
            0 <= i < lines.len() && 0 <= j < lines[i].len() ==> #[trigger] lines[i][j] != '\n',
    ensures
        spec_config_lines(crate::writer::spec_joined_lines(lines)) == lines,
{
    lemma_split_joined(lines);
    let parts = spec_split(crate::writer::spec_joined_lines(lines), '\n');
    assert(parts.last() == Seq::<char>::empty());
    assert(parts.drop_last() =~= lines);
}

/// The environment the guest command is started with: its terminal geometry,
/// terminal type, and the path of its terminal device.
pub fn guest_environment(pty: &str) -> (r: Vec<(String, String)>)
    ensures
        r@.len() == 4,
        r@[0].0@ == "COLUMNS"@ && r@[0].1@ == "80"@,
        r@[1].0@ == "LINES"@ && r@[1].1@ == "30"@,
        r@[2].0@ == "TERM"@ && r@[2].1@ == "xterm-256color"@,
        r@[3].0@ == "TTY"@ && r@[3].1@ == pty@,
{
    let mut v: Vec<(String, String)> = Vec::new();
    v.push((String::from_str("COLUMNS"), String::from_str("80")));
    v.push((String::from_str("LINES"), String::from_str("30")));
    v.push((String::from_str("TERM"), String::from_str("xterm-256color")));
    v.push((String::from_str("TTY"), String::from_str(pty)));
    v
}

/// The supervisor's lifecycle: it starts, relays terminal traffic while the
/// child runs, drains after the terminal closes, and terminates with the
/// child's status.
#[derive(Clone, Copy, PartialEq, Eq, Structural, Debug)]
pub enum DaemonState {
    Starting,
    Running,
    Draining,
    Terminated { code: i32 },
}

/// One observation the event loop reacts to.
#[derive(Clone, Copy, PartialEq, Eq, Structural, Debug)]
pub enum GuestEvent {
    /// The terminal master was readable and a read returned `len` bytes.
    PtyData { len: usize },
    /// The terminal master returned a zero-length read: its peer closed.
    PtyClosed,
    /// The terminal master had no data after all.
    PtyWouldBlock,
    /// The heartbeat timer expired at `sec` seconds.
    TimerFired { sec: i64 },
    /// An event from a source the supervisor never subscribed to.
    UnknownSource,
}

/// The outside work one step asks the event loop to perform.
#[derive(Clone, Copy, PartialEq, Eq, Structural, Debug)]
pub enum GuestAction {
    /// Forward `len` bytes read from the terminal to the guest's own output
    /// and mirror each byte to the debug console port.
    ForwardBytes { len: usize },
    /// Rewrite the heartbeat timer to expire at `sec` seconds.
    RescheduleTimer { sec: i64 },
    /// Force the child to terminate.
    KillChild,
    /// Block until the child's exit status is known.
    WaitChild,
}

/// The bytes one terminal read forwards: everything after the terminal's
/// leading control byte, in exactly the order it was read, for the guest's
/// own output and for the byte-wise mirror to the debug console port.
pub fn forwarded_bytes(packet: &Vec<u8>, len: usize) -> (r: Vec<u8>)
    requires
        1 <= len <= packet.len(),
    ensures
        r@ == packet@.subrange(1, len as int),
{
    let mut out: Vec<u8> = Vec::new();
    let mut i: usize = 1;
    while i < len
        invariant
            1 <= i <= len,
            len <= packet.len(),
            out@ =~= packet@.subrange(1, i as int),
        decreases len - i,
    {
        out.push(packet[i]);
        proof {
            assert(out@ =~= packet@.subrange(1, i + 1));
        }
        i = i + 1;
    }
    out
}

/// The state after an event when the child's exit has (or has not) been
/// observed in the same iteration.
pub open spec fn spec_after_event(child_exit: Option<i32>) -> DaemonState {
    match child_exit {
        Some(code) => DaemonState::Terminated { code },
        None => DaemonState::Running,
    }
}

/// One iteration of the running event loop.  Terminal data is forwarded in
/// order; a would-block read means no data right now; the heartbeat timer is
/// pushed one second ahead; an unknown event source is a protocol violation.
/// A child exit observed in the same iteration always takes effect; a
/// terminal closure with the child still running drains the loop, forcing
/// the child's termination.
pub open spec fn spec_daemon_step(event: GuestEvent, child_exit: Option<i32>) -> Result<
    (DaemonState, Seq<GuestAction>),
    DaemonError,
> {
    match event {
        GuestEvent::UnknownSource => Err(DaemonError::UnexpectedEvent),
        GuestEvent::PtyClosed => match child_exit {
            Some(code) => Ok((DaemonState::Terminated { code }, Seq::empty())),
            None => Ok(
                (DaemonState::Draining, seq![GuestAction::KillChild, GuestAction::WaitChild]),
            ),
        },
        GuestEvent::PtyData { len } => Ok(
            (spec_after_event(child_exit), seq![GuestAction::ForwardBytes { len }]),
        ),
        GuestEvent::PtyWouldBlock => Ok((spec_after_event(child_exit), Seq::empty())),
        GuestEvent::TimerFired { sec } => Ok(
            (
                spec_after_event(child_exit),
                seq![GuestAction::RescheduleTimer { sec: (sec + 1) as i64 }],
            ),
        ),
    }
}

/// Runs one iteration of the event loop over an observed event and the
/// child's non-blocking exit check.
pub fn daemon_step(event: GuestEvent, child_exit: Option<i32>) -> (r: Result<
    (DaemonState, Vec<GuestAction>),
    DaemonError,
>)
    requires
        event matches GuestEvent::TimerFired { sec } ==> sec < i64::MAX,
    ensures
        (match r {
            Ok(p) => {
                &&& spec_daemon_step(event, child_exit) matches Ok(q)
                &&& spec_daemon_step(event, child_exit) == Ok::<
                    (DaemonState, Seq<GuestAction>),
                    DaemonError,
                >((p.0, p.1@))
            },
            Err(e) => spec_daemon_step(event, child_exit) == Err::<
                (DaemonState, Seq<GuestAction>),
                DaemonError,
            >(e),
        }),
{
    match event {
        GuestEvent::UnknownSource => Err(DaemonError::UnexpectedEvent),
        GuestEvent::PtyClosed => match child_exit {
            Some(code) => {
                let acts: Vec<GuestAction> = Vec::new();
                proof {
                    assert(acts@ =~= Seq::<GuestAction>::empty());
                }
                Ok((DaemonState::Terminated { code }, acts))
            },
            None => {
                let mut acts: Vec<GuestAction> = Vec::new();
                acts.push(GuestAction::KillChild);
                acts.push(GuestAction::WaitChild);
                proof {
                    assert(acts@ =~= seq![GuestAction::KillChild, GuestAction::WaitChild]);
                }
                Ok((DaemonState::Draining, acts))
            },
        },
        GuestEvent::PtyData { len } => {
            let mut acts: Vec<GuestAction> = Vec::new();
            acts.push(GuestAction::ForwardBytes { len });
            proof {
                assert(acts@ =~= seq![GuestAction::ForwardBytes { len }]);
            }
            match child_exit {
                Some(code) => Ok((DaemonState::Terminated { code }, acts)),
                None => Ok((DaemonState::Running, acts)),
            }
        },
        GuestEvent::PtyWouldBlock => {
            let acts: Vec<GuestAction> = Vec::new();
            proof {
                assert(acts@ =~= Seq::<GuestAction>::empty());
            }
            match child_exit {
                Some(code) => Ok((DaemonState::Terminated { code }, acts)),
                None => Ok((DaemonState::Running, acts)),
            }
        },
        GuestEvent::TimerFired { sec } => {
            let mut acts: Vec<GuestAction> = Vec::new();
            acts.push(GuestAction::RescheduleTimer { sec: sec + 1 });
            proof {
                assert(acts@ =~= seq![GuestAction::RescheduleTimer { sec: (sec + 1) as i64 }]);
            }
            match child_exit {
                Some(code) => Ok((DaemonState::Terminated { code }, acts)),
                None => Ok((DaemonState::Running, acts)),
            }
        },
    }
}

/// A zero-length terminal read seen before any child exit drains the loop:
/// the supervisor stops consuming events, forces the child's termination,
/// and waits for its status.
pub proof fn lemma_close_without_exit_drains()
    ensures
        spec_daemon_step(GuestEvent::PtyClosed, None) == Ok::<
            (DaemonState, Seq<GuestAction>),
            DaemonError,
        >((DaemonState::Draining, seq![GuestAction::KillChild, GuestAction::WaitChild])),
{
}

/// A child exit observed with the terminal still open terminates the
/// machine with the child's real status, and nothing forces the child's
/// termination.
pub proof fn lemma_exit_with_open_terminal(code: i32, len: usize)
    ensures
        spec_daemon_step(GuestEvent::PtyData { len }, Some(code)) == Ok::<
            (DaemonState, Seq<GuestAction>),
            DaemonError,
        >((DaemonState::Terminated { code }, seq![GuestAction::ForwardBytes { len }])),
        spec_daemon_step(GuestEvent::PtyWouldBlock, Some(code)) == Ok::<
            (DaemonState, Seq<GuestAction>),
            DaemonError,
        >((DaemonState::Terminated { code }, Seq::<GuestAction>::empty())),
        forall|acts: Seq<GuestAction>|
            spec_daemon_step(GuestEvent::PtyData { len }, Some(code)) == Ok::<
                (DaemonState, Seq<GuestAction>),
                DaemonError,
            >((DaemonState::Terminated { code }, acts)) ==> !acts.contains(
                GuestAction::KillChild,
            ),
{
    assert forall|acts: Seq<GuestAction>|
        spec_daemon_step(GuestEvent::PtyData { len }, Some(code)) == Ok::<
            (DaemonState, Seq<GuestAction>),
            DaemonError,
        >((DaemonState::Terminated { code }, acts)) implies !acts.contains(
        GuestAction::KillChild,
    ) by {
        if acts.contains(GuestAction::KillChild) {
            let i = choose|i: int| 0 <= i < acts.len() && acts[i] == GuestAction::KillChild;
            assert(acts =~= seq![GuestAction::ForwardBytes { len }]);
        }
    }
}

/// One write to a hardware signal port.
#[derive(Clone, Copy, PartialEq, Eq, Structural, Debug)]
pub struct PortWrite {
    pub port: u16,
    pub value: u16,
}

/// A child exit status counts as success exactly when it is zero.
pub open spec fn spec_child_success(code: i32) -> bool {
    code == 0
}

/// Decides the verdict the supervisor signals for a child exit status.
pub fn child_success(code: i32) -> (r: bool)
    ensures
        r == spec_child_success(code),
{
    code == 0
}

/// The port writes that signal the run's verdict to the host: a halt
/// request, followed by the completion code the emulator turns into its own
/// exit status.
pub open spec fn spec_signal_writes(success: bool) -> Seq<PortWrite> {
    seq![
        PortWrite { port: 0x604, value: 0x2000 },
        PortWrite {
            port: 0x501,
            value: if success {
                51u16 / 2
            } else {
                53u16 / 2
            },
        },
    ]
}

/// Encodes the run's verdict as hardware port writes.
pub fn signal_writes(success: bool) -> (r: Vec<PortWrite>)
    ensures
        r@ == spec_signal_writes(success),
{
    let mut v: Vec<PortWrite> = Vec::new();
    v.push(PortWrite { port: 0x604, value: 0x2000 });
    v.push(
        PortWrite {
            port: 0x501,
            value: if success {
                51u16 / 2
            } else {
                53u16 / 2
            },
        },
    );
    proof {
        assert(v@ =~= spec_signal_writes(success));
    }
    v
}

/// The emulator's exit device turns a completion code into the emulator's
/// own process exit status: twice the code plus one.
pub open spec fn spec_emulator_exit_status(completion: u16) -> int {
    2 * completion + 1
}

/// End to end: a child that exits zero is signalled as success, the
/// completion code makes the emulator exit with status `51`, and the host
/// maps that to result `0`; any other child exit is signalled as failure,
/// surfaces as emulator status `53`, and maps to result `1`.
pub proof fn lemma_guest_signal_round_trip(child_code: i32)
    ensures
        ({
            let success = spec_child_success(child_code);
            let w = spec_signal_writes(success).last();
            &&& w.port == 0x501
            &&& spec_emulator_exit_status(w.value) == if success {
                51int
            } else {
                53int
            }
            &&& crate::exec::spec_run_result_code(
                Some(spec_emulator_exit_status(w.value) as i32),
            ) == if success {
                0i32
            } else {
                1i32
            }
        }),
{
}

/// An empty guest configuration has no lines at all, so startup rejects it
/// with a configuration error before anything is spawned.
pub proof fn lemma_empty_config_rejected()
    ensures
        spec_config_lines(Seq::<char>::empty()).len() == 0,
{
    assert(crate::strutil::spec_prefix_until(Seq::<char>::empty(), '\n') =~= Seq::<
        char,
    >::empty());
}

} // verus!
