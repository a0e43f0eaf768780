//! What the command-line client says and decides: result lines, event lines, notifications
//! of new releases, and the state of its event listeners.

use vstd::prelude::*;

use crate::client::{AptEvent, FetchStatus, Fetched, Flow, RefreshOp, Signal};
use crate::codename::Codename;
use crate::eol::{spec_long_date, valid_date, CalendarDate, EolDate, EolStatus, long_date};
use crate::text::{char_index, chars_of, index_of_char, slice, string_of};
use crate::version::{decimal, decimal_exec, parse_u8, parse_u8_exec, parse_version, ParsedVersion};

verus! {

pub const FETCH_RESULT_STR: &'static str = "Package fetch status";

pub const FETCH_RESULT_SUCCESS: &'static str = "cargo has been loaded successfully";

pub const FETCH_RESULT_ERROR: &'static str = "package-fetching aborted";

pub const RECOVERY_RESULT_STR: &'static str = "Recovery upgrade status";

pub const RECOVERY_RESULT_SUCCESS: &'static str = "recovery partition refueled and ready to go";

pub const RECOVERY_RESULT_ERROR: &'static str = "recovery upgrade aborted";

pub const UPGRADE_RESULT_STR: &'static str = "Release upgrade status";

pub const UPGRADE_RESULT_SUCCESS: &'static str = "systems are go for launch: reboot now";

pub const UPGRADE_RESULT_ERROR: &'static str = "release upgrade aborted";

/// How a piece of terminal output is painted.
#[derive(Clone, Copy, Debug, PartialEq, Eq, Structural)]
pub enum Paint {
    Plain,
    /// Bold cyan.
    Primary,
    /// Bold blue.
    Secondary,
    /// Bold green.
    Info,
    /// Bold red.
    Error,
    /// Dimmed bold red.
    ErrorDesc,
}

/// A piece of output and its paint.
#[derive(Clone, Debug)]
pub struct Piece {
    pub paint: Paint,
    pub text: String,
}

/// Output for the terminal: its pieces, and whether the line ends after them (a progress
/// line does not, so that the next one overwrites it).
#[derive(Clone, Debug)]
pub struct Output {
    pub pieces: Vec<Piece>,
    pub newline: bool,
}

pub open spec fn pieces_view(s: Seq<Piece>) -> Seq<(Paint, Seq<char>)> {
    Seq::new(s.len(), |i: int| (s[i].paint, s[i].text@))
}

impl Output {
    pub open spec fn view(&self) -> (Seq<(Paint, Seq<char>)>, bool) {
        (pieces_view(self.pieces@), self.newline)
    }
}

fn push_piece(pieces: &mut Vec<Piece>, paint: Paint, text: String)
    ensures
        pieces_view(final(pieces)@) == pieces_view(old(pieces)@).push((paint, text@)),
{
    pieces.push(Piece { paint, text });
    assert(pieces_view(pieces@) =~= pieces_view(old(pieces)@).push((paint, text@)));
}

fn push_str(pieces: &mut Vec<Piece>, paint: Paint, text: &str)
    ensures
        pieces_view(final(pieces)@) == pieces_view(old(pieces)@).push((paint, text@)),
{
    let mut t = String::new();
    t.append(text);
    push_piece(pieces, paint, t);
}

fn push_number(pieces: &mut Vec<Piece>, paint: Paint, n: u64)
    ensures
        pieces_view(final(pieces)@) == pieces_view(old(pieces)@).push((paint, decimal(n as nat))),
{
    let digits = decimal_exec(n);
    push_piece(pieces, paint, string_of(&digits));
}

/// The pieces of a result line: the event, then the success text, or the error text and
/// the reason.
pub open spec fn spec_result_line(
    status: u8,
    event: Seq<char>,
    success: Seq<char>,
    error: Seq<char>,
    why: Seq<char>,
) -> Seq<(Paint, Seq<char>)> {
    seq![(Paint::Info, event), (Paint::Plain, ": "@)] + if status == 0 {
        seq![(Paint::Primary, success)]
    } else {
        seq![(Paint::Error, error), (Paint::Plain, ": "@), (Paint::ErrorDesc, why)]
    }
}

/// The line that reports the result of an action: `status` 0 is success.
pub fn log_result(status: u8, event: &str, success: &str, error: &str, why: &str) -> (r: Output)
    ensures
        r.view() == (spec_result_line(status, event@, success@, error@, why@), true),
{
    let mut pieces: Vec<Piece> = Vec::new();
    push_str(&mut pieces, Paint::Info, event);
    push_str(&mut pieces, Paint::Plain, ": ");
    if status == 0 {
        push_str(&mut pieces, Paint::Primary, success);
    } else {
        push_str(&mut pieces, Paint::Error, error);
        push_str(&mut pieces, Paint::Plain, ": ");
        push_str(&mut pieces, Paint::ErrorDesc, why);
    }
    let r = Output { pieces, newline: true };
    assert(r.view().0 =~= spec_result_line(status, event@, success@, error@, why@));
    r
}

pub open spec fn spec_apt_line(event: AptEvent) -> Seq<(Paint, Seq<char>)> {
    match event {
        AptEvent::Processing { package } => seq![
            (Paint::Primary, "Processing triggers"@),
            (Paint::Plain, " for "@),
            (Paint::Secondary, package@),
        ],
        AptEvent::Progress { percent } => seq![
            (Paint::Primary, "Progress"@),
            (Paint::Plain, ": "@),
            (Paint::Info, decimal(percent as nat)),
            (Paint::Plain, "%"@),
        ],
        AptEvent::SettingUp { package } => seq![
            (Paint::Primary, "Setting up"@),
            (Paint::Plain, " "@),
            (Paint::Secondary, package@),
        ],
        AptEvent::Unpacking { package, version, over } => seq![
            (Paint::Primary, "Unpacking"@),
            (Paint::Plain, " "@),
            (Paint::Secondary, package@),
            (Paint::Plain, " ("@),
            (Paint::Info, version@),
            (Paint::Plain, ") over ("@),
            (Paint::Info, over@),
            (Paint::Plain, ")"@),
        ],
        AptEvent::WaitingOnLock => seq![
            (Paint::Primary, "Waiting"@),
            (Paint::Plain, " "@),
            (Paint::Secondary, "on a process holding an apt/dpkg lock file"@),
        ],
    }
}

/// The line that describes an apt upgrade event.
pub fn apt_event_line(event: &AptEvent) -> (r: Output)
    ensures
        r.view() == (spec_apt_line(*event), true),
{
    let mut pieces: Vec<Piece> = Vec::new();
    match event {
        AptEvent::Processing { package } => {
            push_str(&mut pieces, Paint::Primary, "Processing triggers");
            push_str(&mut pieces, Paint::Plain, " for ");
            push_str(&mut pieces, Paint::Secondary, package.as_str());
        },
        AptEvent::Progress { percent } => {
            push_str(&mut pieces, Paint::Primary, "Progress");
            push_str(&mut pieces, Paint::Plain, ": ");
            push_number(&mut pieces, Paint::Info, *percent as u64);
            push_str(&mut pieces, Paint::Plain, "%");
        },
        AptEvent::SettingUp { package } => {
            push_str(&mut pieces, Paint::Primary, "Setting up");
            push_str(&mut pieces, Paint::Plain, " ");
            push_str(&mut pieces, Paint::Secondary, package.as_str());
        },
        AptEvent::Unpacking { package, version, over } => {
            push_str(&mut pieces, Paint::Primary, "Unpacking");
            push_str(&mut pieces, Paint::Plain, " ");
            push_str(&mut pieces, Paint::Secondary, package.as_str());
            push_str(&mut pieces, Paint::Plain, " (");
            push_str(&mut pieces, Paint::Info, version.as_str());
            push_str(&mut pieces, Paint::Plain, ") over (");
            push_str(&mut pieces, Paint::Info, over.as_str());
            push_str(&mut pieces, Paint::Plain, ")");
        },
        AptEvent::WaitingOnLock => {
            push_str(&mut pieces, Paint::Primary, "Waiting");
            push_str(&mut pieces, Paint::Plain, " ");
            push_str(&mut pieces, Paint::Secondary, "on a process holding an apt/dpkg lock file");
        },
    }
    let r = Output { pieces, newline: true };
    assert(r.view().0 =~= spec_apt_line(*event));
    r
}

/// The line for a fetched package: `Fetched (completed/total)`, then `sep` and the package.
pub open spec fn spec_fetched_line(status: FetchStatus, sep: Seq<char>) -> Seq<(Paint, Seq<char>)> {
    seq![
        (Paint::Primary, "Fetched"@),
        (Paint::Plain, " ("@),
        (Paint::Info, decimal(status.completed as nat)),
        (Paint::Plain, "/"@),
        (Paint::Info, decimal(status.total as nat)),
        (Paint::Plain, sep),
        (Paint::Secondary, status.package@),
    ]
}

fn fetched_line(status: &FetchStatus, sep: &str) -> (r: Output)
    ensures
        r.view() == (spec_fetched_line(*status, sep@), true),
{
    let mut pieces: Vec<Piece> = Vec::new();
    push_str(&mut pieces, Paint::Primary, "Fetched");
    push_str(&mut pieces, Paint::Plain, " (");
    push_number(&mut pieces, Paint::Info, status.completed as u64);
    push_str(&mut pieces, Paint::Plain, "/");
    push_number(&mut pieces, Paint::Info, status.total as u64);
    push_str(&mut pieces, Paint::Plain, sep);
    push_str(&mut pieces, Paint::Secondary, status.package.as_str());
    let r = Output { pieces, newline: true };
    assert(r.view().0 =~= spec_fetched_line(*status, sep@));
    r
}

/// The progress line of the recovery download, in MiB, redrawn in place:
/// `\rFetched done/total MiB`.
pub open spec fn spec_progress_line(done: nat, total: nat) -> Seq<(Paint, Seq<char>)> {
    seq![
        (Paint::Plain, "\r"@),
        (Paint::Primary, "Fetched"@),
        (Paint::Plain, " "@),
        (Paint::Info, decimal(done)),
        (Paint::Plain, "/"@),
        (Paint::Info, decimal(total)),
        (Paint::Plain, " "@),
        (Paint::Primary, "MiB"@),
    ]
}

fn progress_line(done: u64, total: u64, newline: bool) -> (r: Output)
    ensures
        r.view() == (spec_progress_line(done as nat, total as nat), newline),
{
    let mut pieces: Vec<Piece> = Vec::new();
    push_str(&mut pieces, Paint::Plain, "\r");
    push_str(&mut pieces, Paint::Primary, "Fetched");
    push_str(&mut pieces, Paint::Plain, " ");
    push_number(&mut pieces, Paint::Info, done);
    push_str(&mut pieces, Paint::Plain, "/");
    push_number(&mut pieces, Paint::Info, total);
    push_str(&mut pieces, Paint::Plain, " ");
    push_str(&mut pieces, Paint::Primary, "MiB");
    let r = Output { pieces, newline };
    assert(r.view().0 =~= spec_progress_line(done as nat, total as nat));
    r
}

/// An empty line, which ends a progress line.
fn end_line() -> (r: Output)
    ensures
        r.view() == (Seq::<(Paint, Seq<char>)>::empty(), true),
{
    let r = Output { pieces: Vec::new(), newline: true };
    assert(r.view().0 =~= Seq::<(Paint, Seq<char>)>::empty());
    r
}

/// `label: text`, the label painted `Primary` and the text painted `paint`.
pub open spec fn spec_labeled(label: Seq<char>, paint: Paint, text: Seq<char>) -> Seq<
    (Paint, Seq<char>),
> {
    seq![(Paint::Primary, label), (Paint::Plain, ": "@), (paint, text)]
}

fn labeled(label: &str, paint: Paint, text: &str) -> (r: Output)
    ensures
        r.view() == (spec_labeled(label@, paint, text@), true),
{
    let mut pieces: Vec<Piece> = Vec::new();
    push_str(&mut pieces, Paint::Primary, label);
    push_str(&mut pieces, Paint::Plain, ": ");
    push_str(&mut pieces, paint, text);
    let r = Output { pieces, newline: true };
    assert(r.view().0 =~= spec_labeled(label@, paint, text@));
    r
}

pub open spec fn outputs_view(s: Seq<Output>) -> Seq<(Seq<(Paint, Seq<char>)>, bool)> {
    Seq::new(s.len(), |i: int| s[i].view())
}

/// What the listener of an update fetch prints for a signal, and whether it goes on.
pub open spec fn spec_fetch_updates_step(signal: Signal) -> (
    Seq<(Seq<(Paint, Seq<char>)>, bool)>,
    bool,
) {
    match signal {
        Signal::PackageFetchResult(status) => (
            seq![
                (
                    spec_result_line(
                        status.status,
                        FETCH_RESULT_STR@,
                        FETCH_RESULT_SUCCESS@,
                        FETCH_RESULT_ERROR@,
                        status.why@,
                    ),
                    true,
                ),
            ],
            false,
        ),
        Signal::PackageFetched(status) => (seq![(spec_fetched_line(status, ") "@), true)], true),
        Signal::PackageUpgrade(Some(event)) => (seq![(spec_apt_line(event), true)], true),
        _ => (seq![], true),
    }
}

/// The listener of an update fetch: the lines to print for `signal`, and whether to keep
/// listening (`Continue`) or not (`Stop`, once the fetch's result arrived).
pub fn fetch_updates_step(signal: &Signal) -> (r: (Vec<Output>, Flow))
    ensures
        outputs_view(r.0@) == spec_fetch_updates_step(*signal).0,
        spec_fetch_updates_step(*signal).1 ==> r.1 is Continue,
        !spec_fetch_updates_step(*signal).1 ==> r.1 is Stop,
{
    let mut out: Vec<Output> = Vec::new();
    let flow = match signal {
        Signal::PackageFetchResult(status) => {
            out.push(
                log_result(
                    status.status,
                    FETCH_RESULT_STR,
                    FETCH_RESULT_SUCCESS,
                    FETCH_RESULT_ERROR,
                    status.why.as_str(),
                ),
            );
            Flow::Stop
        },
        Signal::PackageFetched(status) => {
            out.push(fetched_line(status, ") "));
            Flow::Continue
        },
        Signal::PackageUpgrade(Some(event)) => {
            out.push(apt_event_line(event));
            Flow::Continue
        },
        _ => Flow::Continue,
    };
    assert(outputs_view(out@) =~= spec_fetch_updates_step(*signal).0);
    (out, flow)
}

/// The listener of a recovery upgrade: whether a progress line is open.
#[derive(Clone, Copy, Debug, PartialEq, Eq, Structural)]
pub struct RecoveryListener {
    pub reset: bool,
}

pub open spec fn end_if(open: bool) -> Seq<(Seq<(Paint, Seq<char>)>, bool)> {
    if open {
        seq![(seq![], true)]
    } else {
        seq![]
    }
}

/// What the listener of a recovery upgrade prints for a signal, whether a progress line is
/// open afterwards, and whether it goes on listening.
pub open spec fn spec_recovery_step(reset: bool, signal: Signal) -> (
    Seq<(Seq<(Paint, Seq<char>)>, bool)>,
    bool,
    bool,
) {
    match signal {
        Signal::RecoveryDownloadProgress(p) => (
            seq![(spec_progress_line((p.progress / 1024) as nat, (p.total / 1024) as nat), false)],
            true,
            true,
        ),
        Signal::RecoveryEvent(e) => (
            end_if(reset) + seq![
                (spec_labeled("Recovery event"@, Paint::Plain, e.description()), true),
            ],
            false,
            true,
        ),
        Signal::RecoveryResult(status) => (
            end_if(reset) + seq![
                (
                    spec_result_line(
                        status.status,
                        RECOVERY_RESULT_STR@,
                        RECOVERY_RESULT_SUCCESS@,
                        RECOVERY_RESULT_ERROR@,
                        status.why@,
                    ),
                    true,
                ),
            ],
            false,
            false,
        ),
        _ => (seq![], reset, true),
    }
}

impl RecoveryListener {
    pub fn new() -> (r: RecoveryListener)
        ensures
            !r.reset,
    {
        RecoveryListener { reset: false }
    }

    /// The lines to print for `signal`, and whether to keep listening.
    pub fn step(&mut self, signal: &Signal) -> (r: (Vec<Output>, Flow))
        ensures
            outputs_view(r.0@) == spec_recovery_step(old(self).reset, *signal).0,
            final(self).reset == spec_recovery_step(old(self).reset, *signal).1,
            spec_recovery_step(old(self).reset, *signal).2 ==> r.1 is Continue,
            !spec_recovery_step(old(self).reset, *signal).2 ==> r.1 is Stop,
    {
        let mut out: Vec<Output> = Vec::new();
        let flow = match signal {
            Signal::RecoveryDownloadProgress(p) => {
                out.push(progress_line(p.progress / 1024, p.total / 1024, false));
                self.reset = true;
                Flow::Continue
            },
            Signal::RecoveryEvent(e) => {
                if self.reset {
                    self.reset = false;
                    out.push(end_line());
                }
                out.push(labeled("Recovery event", Paint::Plain, e.as_str()));
                Flow::Continue
            },
            Signal::RecoveryResult(status) => {
                if self.reset {
                    self.reset = false;
                    out.push(end_line());
                }
                out.push(
                    log_result(
                        status.status,
                        RECOVERY_RESULT_STR,
                        RECOVERY_RESULT_SUCCESS,
                        RECOVERY_RESULT_ERROR,
                        status.why.as_str(),
                    ),
                );
                Flow::Stop
            },
            _ => Flow::Continue,
        };
        assert(outputs_view(out@) =~= spec_recovery_step(old(self).reset, *signal).0);
        (out, flow)
    }

    /// The line that closes an open progress line when listening ends.
    pub fn finish(&self) -> (r: Vec<Output>)
        ensures
            outputs_view(r@) == end_if(self.reset),
    {
        let mut out: Vec<Output> = Vec::new();
        if self.reset {
            out.push(end_line());
        }
        assert(outputs_view(out@) =~= end_if(self.reset));
        out
    }
}

/// The listener of a release upgrade: whether a progress line is open, whether the user
/// asked to try again, and the size of the recovery download in MiB.
#[derive(Clone, Copy, Debug, PartialEq, Eq, Structural)]
pub struct ReleaseListener {
    pub reset: bool,
    pub recall: bool,
    pub total: u64,
}

pub open spec fn spec_no_connection_lines() -> Seq<(Seq<(Paint, Seq<char>)>, bool)> {
    seq![
        (
            seq![
                (
                    Paint::Error,
                    "Failed to connect to an apt repository. You may not be connected to the Internet."@,
                ),
            ],
            true,
        ),
        (seq![(Paint::Plain, "    "@), (Paint::Primary, "Try again?"@), (Paint::Plain, " y/N"@)], false),
    ]
}

/// How a listener goes on: `Continue`, `Stop`, `Fail` with the reason `why`, or `AskRetry`.
pub enum FlowKind {
    Continue,
    Stop,
    Fail,
    AskRetry,
}

pub open spec fn flow_is(f: Flow, kind: FlowKind, why: Seq<char>) -> bool {
    match kind {
        FlowKind::Continue => f is Continue,
        FlowKind::Stop => f is Stop,
        FlowKind::Fail => f matches Flow::Fail(w) && w@ == why,
        FlowKind::AskRetry => f is AskRetry,
    }
}

/// What the listener of a release upgrade prints for a signal, its state afterwards, and
/// how it goes on.
pub open spec fn spec_release_step(l: ReleaseListener, signal: Signal) -> (
    Seq<(Seq<(Paint, Seq<char>)>, bool)>,
    ReleaseListener,
    (FlowKind, Seq<char>),
) {
    match signal {
        Signal::PackageFetchResult(status) => (
            seq![
                (
                    spec_result_line(
                        status.status,
                        FETCH_RESULT_STR@,
                        FETCH_RESULT_SUCCESS@,
                        FETCH_RESULT_ERROR@,
                        status.why@,
                    ),
                    true,
                ),
            ],
            l,
            (FlowKind::Continue, seq![]),
        ),
        Signal::PackageFetched(status) => (
            seq![(spec_fetched_line(status, "): "@), true)],
            l,
            (FlowKind::Continue, seq![]),
        ),
        Signal::PackageUpgrade(Some(event)) => (
            seq![(spec_apt_line(event), true)],
            l,
            (FlowKind::Continue, seq![]),
        ),
        Signal::RecoveryDownloadProgress(p) => (
            seq![
                (spec_progress_line((p.progress / 1024) as nat, (p.total / 1024) as nat), false),
            ],
            ReleaseListener { reset: true, total: p.total / 1024, ..l },
            (FlowKind::Continue, seq![]),
        ),
        Signal::RecoveryEvent(e) => (
            (if l.reset {
                seq![(spec_progress_line(l.total as nat, l.total as nat), true)]
            } else {
                seq![]
            }) + seq![(spec_labeled("Recovery event"@, Paint::Plain, e.description()), true)],
            ReleaseListener { reset: false, ..l },
            (FlowKind::Continue, seq![]),
        ),
        Signal::RecoveryResult(status) => (
            seq![
                (
                    spec_result_line(
                        status.status,
                        RECOVERY_RESULT_STR@,
                        RECOVERY_RESULT_SUCCESS@,
                        RECOVERY_RESULT_ERROR@,
                        status.why@,
                    ),
                    true,
                ),
            ],
            l,
            (FlowKind::Continue, seq![]),
        ),
        Signal::ReleaseResult(status) => (
            if l.recall {
                seq![]
            } else {
                seq![
                    (
                        spec_result_line(
                            status.status,
                            UPGRADE_RESULT_STR@,
                            UPGRADE_RESULT_SUCCESS@,
                            UPGRADE_RESULT_ERROR@,
                            status.why@,
                        ),
                        true,
                    ),
                ]
            },
            l,
            if status.status != 0 {
                (FlowKind::Fail, status.why@)
            } else {
                (FlowKind::Stop, seq![])
            },
        ),
        Signal::ReleaseEvent(e) => (
            seq![(spec_labeled("Event"@, Paint::Secondary, e.description()), true)],
            l,
            (FlowKind::Continue, seq![]),
        ),
        Signal::NoConnection => (spec_no_connection_lines(), l, (FlowKind::AskRetry, seq![])),
        _ => (seq![], l, (FlowKind::Continue, seq![])),
    }
}

impl ReleaseListener {
    pub fn new() -> (r: ReleaseListener)
        ensures
            r == (ReleaseListener { reset: false, recall: false, total: 0 }),
    {
        ReleaseListener { reset: false, recall: false, total: 0 }
    }

    /// The lines to print for `signal`, and how to go on.
    pub fn step(&mut self, signal: &Signal) -> (r: (Vec<Output>, Flow))
        ensures
            outputs_view(r.0@) == spec_release_step(*old(self), *signal).0,
            *final(self) == spec_release_step(*old(self), *signal).1,
            flow_is(
                r.1,
                spec_release_step(*old(self), *signal).2.0,
                spec_release_step(*old(self), *signal).2.1,
            ),
    {
        let mut out: Vec<Output> = Vec::new();
        let flow = match signal {
            Signal::PackageFetchResult(status) => {
                out.push(
                    log_result(
                        status.status,
                        FETCH_RESULT_STR,
                        FETCH_RESULT_SUCCESS,
                        FETCH_RESULT_ERROR,
                        status.why.as_str(),
                    ),
                );
                Flow::Continue
            },
            Signal::PackageFetched(status) => {
                out.push(fetched_line(status, "): "));
                Flow::Continue
            },
            Signal::PackageUpgrade(Some(event)) => {
                out.push(apt_event_line(event));
                Flow::Continue
            },
            Signal::RecoveryDownloadProgress(p) => {
                self.total = p.total / 1024;
                out.push(progress_line(p.progress / 1024, self.total, false));
                self.reset = true;
                Flow::Continue
            },
            Signal::RecoveryEvent(e) => {
                if self.reset {
                    out.push(progress_line(self.total, self.total, true));
                    self.reset = false;
                }
                out.push(labeled("Recovery event", Paint::Plain, e.as_str()));
                Flow::Continue
            },
            Signal::RecoveryResult(status) => {
                out.push(
                    log_result(
                        status.status,
                        RECOVERY_RESULT_STR,
                        RECOVERY_RESULT_SUCCESS,
                        RECOVERY_RESULT_ERROR,
                        status.why.as_str(),
                    ),
                );
                Flow::Continue
            },
            Signal::ReleaseResult(status) => {
                if !self.recall {
                    out.push(
                        log_result(
                            status.status,
                            UPGRADE_RESULT_STR,
                            UPGRADE_RESULT_SUCCESS,
                            UPGRADE_RESULT_ERROR,
                            status.why.as_str(),
                        ),
                    );
                }
                if status.status != 0 {
                    Flow::Fail(status.why.clone())
                } else {
                    Flow::Stop
                }
            },
            Signal::ReleaseEvent(e) => {
                out.push(labeled("Event", Paint::Secondary, e.as_str()));
                Flow::Continue
            },
            Signal::NoConnection => {
                let mut error: Vec<Piece> = Vec::new();
                push_str(
                    &mut error,
                    Paint::Error,
                    "Failed to connect to an apt repository. You may not be connected to the Internet.",
                );
                let mut prompt: Vec<Piece> = Vec::new();
                push_str(&mut prompt, Paint::Plain, "    ");
                push_str(&mut prompt, Paint::Primary, "Try again?");
                push_str(&mut prompt, Paint::Plain, " y/N");
                let e = Output { pieces: error, newline: true };
                let p = Output { pieces: prompt, newline: false };
                assert(e.view().0 =~= spec_no_connection_lines()[0].0);
                assert(p.view().0 =~= spec_no_connection_lines()[1].0);
                out.push(e);
                out.push(p);
                Flow::AskRetry
            },
            _ => Flow::Continue,
        };
        assert(outputs_view(out@) =~= spec_release_step(*old(self), *signal).0);
        (out, flow)
    }

    /// The user's answer to "Try again?": yes marks the upgrade for another attempt and
    /// listening goes on; no stops it.
    pub fn answer_retry(&mut self, again: bool) -> (r: Flow)
        ensures
            again ==> r is Continue && *final(self) == (ReleaseListener { recall: true, ..*old(self) }),
            !again ==> r is Stop && *final(self) == *old(self),
    {
        if again {
            self.recall = true;
            Flow::Continue
        } else {
            Flow::Stop
        }
    }

    /// The outcome once listening ended with `result`: whether to attempt the upgrade again.
    /// A failure counts only when no new attempt was asked for.
    pub fn finish(&self, result: Result<(), String>) -> (r: Result<bool, String>)
        ensures
            self.recall ==> r == Ok::<bool, String>(true),
            !self.recall ==> match result {
                Ok(()) => r == Ok::<bool, String>(false),
                Err(e) => r == Err::<bool, String>(e),
            },
    {
        if !self.recall {
            if let Err(e) = result {
                return Err(e);
            }
        }
        Ok(self.recall)
    }
}

/// The notification of a new release: its summary and its body. An end of life that was
/// reached or is near is announced instead of the plain availability.
pub open spec fn spec_notification(
    current: Seq<char>,
    next: Seq<char>,
    eol: Option<(EolStatus, CalendarDate)>,
) -> (Seq<char>, Seq<char>) {
    match eol {
        Some((EolStatus::Exceeded, _)) => (
            "Support for Pop!_OS "@ + current + " has ended"@,
            "Security and application updates are no longer provided for Pop!_OS "@ + current
                + ". Upgrade to Pop!_OS "@ + next + " to keep your computer secure."@,
        ),
        Some((EolStatus::Imminent, date)) => (
            "Support for Pop!_OS "@ + current + " ends "@ + spec_long_date(date),
            "This computer will soon stop receiving updates. Upgrade to Pop!_OS "@ + next
                + " to keep your computer secure."@,
        ),
        _ => ("Upgrade Available"@, "Pop!_OS "@ + next + " is available to download"@),
    }
}

/// The notification of the release `next` for a system on `current`, given the status and
/// the day of its end of life (`None` when those are not known).
pub fn notification_text(current: &str, next: &str, eol: Option<(EolStatus, CalendarDate)>) -> (r: (
    String,
    String,
))
    requires
        eol matches Some((EolStatus::Imminent, d)) ==> valid_date(d) && 1000 <= d.year <= 9999,
    ensures
        (r.0@, r.1@) == spec_notification(current@, next@, eol),
{
    let mut summary = String::new();
    let mut body = String::new();
    match eol {
        Some((EolStatus::Exceeded, _)) => {
            summary.append("Support for Pop!_OS ");
            summary.append(current);
            summary.append(" has ended");
            body.append("Security and application updates are no longer provided for Pop!_OS ");
            body.append(current);
            body.append(". Upgrade to Pop!_OS ");
            body.append(next);
            body.append(" to keep your computer secure.");
        },
        Some((EolStatus::Imminent, date)) => {
            summary.append("Support for Pop!_OS ");
            summary.append(current);
            summary.append(" ends ");
            let day = long_date(date);
            summary.append(day.as_str());
            body.append("This computer will soon stop receiving updates. Upgrade to Pop!_OS ");
            body.append(next);
            body.append(" to keep your computer secure.");
        },
        _ => {
            summary.append("Upgrade Available");
            body.append("Pop!_OS ");
            body.append(next);
            body.append(" is available to download");
        },
    }
    assert((summary@, body@) =~= spec_notification(current@, next@, eol));
    (summary, body)
}

/// The release that `/etc/os-release` names by its `VERSION`, if it names a known one.
pub open spec fn os_release_codename(version: Option<Seq<char>>) -> Option<Codename> {
    match version {
        Some(v) => match parse_version(v) {
            ParsedVersion::Version(ver) => Codename::spec_from_numbers(ver.major, ver.minor),
            _ => None,
        },
        None => None,
    }
}

/// The end-of-life day of a release.
pub open spec fn eol_day_of(c: Codename) -> CalendarDate {
    CalendarDate {
        year: c.spec_eol_date().0 as i32,
        month: c.spec_eol_date().1,
        day: c.spec_eol_date().2,
    }
}

pub open spec fn opt_view(v: Option<&str>) -> Option<Seq<char>> {
    match v {
        Some(s) => Some(s@),
        None => None,
    }
}

/// The notification of the release `next` for a system on `current`. `os_release_version`
/// is the `VERSION` of `/etc/os-release` (`None` when it could not be read); the status of
/// that release's end of life depends on today's date.
pub fn notification_message(current: &str, next: &str, os_release_version: Option<&str>) -> (r: (
    String,
    String,
))
    ensures
        os_release_codename(opt_view(os_release_version)) is None ==> (r.0@, r.1@)
            == spec_notification(current@, next@, None),
        os_release_codename(opt_view(os_release_version)) matches Some(c) ==> exists|s: EolStatus|
            (r.0@, r.1@) == #[trigger] spec_notification(current@, next@, Some((s, eol_day_of(c)))),
{
    match os_release_version {
        Some(v) => match EolDate::fetch(v) {
            Ok(e) => {
                let ghost c = e.codename;
                assert(os_release_codename(Some(v@)) == Some(c));
                let status = e.status();
                let day = CalendarDate { year: e.ymd.0 as i32, month: e.ymd.1, day: e.ymd.2 };
                assert(day == eol_day_of(c));
                let r = notification_text(current, next, Some((status, day)));
                r
            },
            Err(_) => notification_text(current, next, None),
        },
        None => notification_text(current, next, None),
    }
}

/// The control-center panel that a click on the notification opens.
pub fn upgrade_panel(current: &str) -> (r: &'static str)
    ensures
        current@ == "18.04"@ ==> r@ == "info-overview"@,
        current@ != "18.04"@ ==> r@ == "upgrade"@,
{
    proof {
        reveal_strlit("18.04");
    }
    if crate::text::chars_eq(&chars_of(current), &chars_of("18.04")) {
        "info-overview"
    } else {
        "upgrade"
    }
}

/// Whether the system was installed after the release `next` (`major.minor`) came out:
/// the release's timestamp is earlier than `install_time`. A name that is not a known
/// release gives `false`.
pub open spec fn spec_installed_after_release(next: Seq<char>, install_time: u64) -> bool {
    let pos = char_index(next, '.');
    if pos >= next.len() {
        false
    } else {
        match (parse_u8(next.take(pos as int)), parse_u8(next.skip(pos + 1int))) {
            (Some(major), Some(minor)) => match Codename::spec_from_numbers(major, minor) {
                Some(c) => c.spec_release_timestamp() < install_time,
                None => false,
            },
            _ => false,
        }
    }
}

/// Whether the system was installed after the release `next` came out; `install_time` is
/// the install time in seconds since the Unix epoch.
pub fn installed_after_release(next: &str, install_time: u64) -> (r: bool)
    ensures
        r == spec_installed_after_release(next@, install_time),
{
    let text = chars_of(next);
    let pos = index_of_char(&text, 0, '.');
    assert(text@.skip(0) =~= text@);
    if pos >= text.len() {
        return false;
    }
    let major = parse_u8_exec(&slice(&text, 0, pos));
    let minor = parse_u8_exec(&slice(&text, pos + 1, text.len()));
    match (major, minor) {
        (Some(major), Some(minor)) => {
            let v = crate::version::Version { major, minor, patch: 0 };
            match Codename::from_version(v) {
                Some(c) => c.release_timestamp() < install_time,
                None => false,
            }
        },
        _ => false,
    }
}

/// What the `release check` command does next.
#[derive(Clone, Copy, Debug, PartialEq, Eq, Structural)]
pub enum CheckStep {
    /// On a terminal: say which releases are compared.
    Report,
    /// Nothing is shown.
    Quiet,
    /// An LTS release that was not dismissed: dismiss it if the system was installed after
    /// it came out, and notify otherwise.
    DismissByTimestamp,
    /// Show the notification.
    Notify,
}

/// The step of `release check`: `available` is the build of the next release (negative
/// when there is none), `dismissed` whether the user dismissed that release.
pub fn release_check_step(is_tty: bool, available: i16, is_lts: bool, dismissed: bool) -> (r:
    CheckStep)
    ensures
        r == (if is_tty {
            CheckStep::Report
        } else if available < 0 {
            CheckStep::Quiet
        } else if is_lts && dismissed {
            CheckStep::Quiet
        } else if is_lts {
            CheckStep::DismissByTimestamp
        } else {
            CheckStep::Notify
        }),
{
    if is_tty {
        CheckStep::Report
    } else if available < 0 {
        CheckStep::Quiet
    } else if is_lts && dismissed {
        CheckStep::Quiet
    } else if is_lts {
        CheckStep::DismissByTimestamp
    } else {
        CheckStep::Notify
    }
}

/// Whether a release is dismissed by its timestamp: there is no record of the install date
/// and the system was installed after the release came out. `install_time` is `None` when
/// it could not be read.
pub fn dismissed_by_timestamp(install_date_recorded: bool, next: &str, install_time: Option<u64>) -> (r:
    bool)
    ensures
        r == (!install_date_recorded && match install_time {
            Some(t) => spec_installed_after_release(next@, t),
            None => false,
        }),
{
    if install_date_recorded {
        return false;
    }
    match install_time {
        Some(t) => installed_after_release(next, t),
        None => false,
    }
}

/// The line that `release check` prints on a terminal.
pub fn checking_line(current: &str, next: &str) -> (r: String)
    ensures
        r@ == "Checking if "@ + current@ + " can be upgraded to "@ + next@,
{
    let mut r = String::new();
    r.append("Checking if ");
    r.append(current);
    r.append(" can be upgraded to ");
    r.append(next);
    r
}

/// What `release update` says about the fetch it started, and whether it listens to it.
pub fn updates_summary(fetched: &Fetched) -> (r: (String, bool))
    ensures
        !fetched.updates_available || fetched.total == 0 ==> r.0@ == "no updates available to fetch"@
            && !r.1,
        fetched.updates_available && fetched.total != 0 ==> r.0@ == "fetching updates: "@
            + decimal(fetched.completed as nat) + " of "@ + decimal(fetched.total as nat)
            + " updates fetched"@ && r.1,
{
    let mut r = String::new();
    if !fetched.updates_available || fetched.total == 0 {
        r.append("no updates available to fetch");
        (r, false)
    } else {
        r.append("fetching updates: ");
        r.append(string_of(&decimal_exec(fetched.completed as u64)).as_str());
        r.append(" of ");
        r.append(string_of(&decimal_exec(fetched.total as u64)).as_str());
        r.append(" updates fetched");
        (r, true)
    }
}

/// Whether `release upgrade` goes ahead: when forced, or when a next release is available.
pub fn upgrade_goes_ahead(forcing: bool, available: i16) -> (r: bool)
    ensures
        r == (forcing || available >= 0),
{
    forcing || available >= 0
}

/// The refresh operation that `release refresh` asks for: `disable` turns it off, anything
/// else on.
pub fn refresh_operation(disable: bool) -> (r: RefreshOp)
    ensures
        disable ==> r == RefreshOp::Disable,
        !disable ==> r == RefreshOp::Enable,
{
    if disable {
        RefreshOp::Disable
    } else {
        RefreshOp::Enable
    }
}

/// What `release dismiss` does.
#[derive(Clone, Copy, Debug, PartialEq, Eq, Structural)]
pub enum DismissStep {
    /// Dismiss the notification of the next release.
    Dismiss,
    /// Refuse: only LTS releases may dismiss notifications.
    NotLts,
}

/// The step of `release dismiss`: only an LTS release may dismiss its notification.
pub fn release_dismiss_step(is_lts: bool) -> (r: DismissStep)
    ensures
        r == (if is_lts {
            DismissStep::Dismiss
        } else {
            DismissStep::NotLts
        }),
{
    if is_lts {
        DismissStep::Dismiss
    } else {
        DismissStep::NotLts
    }
}

/// The line printed when a release that is not LTS asks to dismiss its notification.
pub fn not_lts_notice() -> (r: &'static str)
    ensures
        r@ == "Only LTS releases may dismiss notifications"@,
{
    "Only LTS releases may dismiss notifications"
}

/// What `release upgrade` does once listening to an upgrade attempt ended.
#[derive(Clone, Debug)]
pub enum UpgradeStep {
    /// Ask for the upgrade again, then listen again.
    SendAgain,
    /// Ask for the upgrade to be finalized; nothing is listened to after it.
    Finalize,
    /// Stop with this error; the upgrade is not finalized.
    Fail(String),
}

/// The step of `release upgrade` after `listened`, the outcome of
/// [`ReleaseListener::finish`]: a retry sends the upgrade again, the end finalizes it.
pub fn upgrade_listen_step(listened: Result<bool, String>) -> (r: UpgradeStep)
    ensures
        match listened {
            Ok(true) => r is SendAgain,
            Ok(false) => r is Finalize,
            Err(e) => r == UpgradeStep::Fail(e),
        },
{
    match listened {
        Ok(true) => UpgradeStep::SendAgain,
        Ok(false) => UpgradeStep::Finalize,
        Err(e) => UpgradeStep::Fail(e),
    }
}

/// A request that `release upgrade` sends to the daemon.
#[derive(Clone, Copy, Debug, PartialEq, Eq, Structural)]
pub enum UpgradeRequest {
    /// `release_upgrade` from the current release to the next.
    Upgrade,
    /// `release_upgrade_finalize`.
    Finalize,
}

/// The requests sent after the listens `listens[i..]`, and the error that stopped them.
/// Running out of listens means that listening has not ended yet.
pub open spec fn requests_from(listens: Seq<Result<bool, String>>, i: int) -> (
    Seq<UpgradeRequest>,
    Option<String>,
)
    decreases listens.len() - i,
{
    if i < 0 || i >= listens.len() {
        (Seq::empty(), None)
    } else {
        match listens[i] {
            Ok(true) => {
                let rest = requests_from(listens, i + 1);
                (seq![UpgradeRequest::Upgrade] + rest.0, rest.1)
            },
            Ok(false) => (seq![UpgradeRequest::Finalize], None),
            Err(e) => (Seq::empty(), Some(e)),
        }
    }
}

/// The requests of `release upgrade` when its successive listens end with `listens`: the
/// upgrade first, again after each listen that asks for a retry, and the finalize request
/// once, after the first listen that ends without one; an error stops everything.
pub open spec fn spec_upgrade_requests(listens: Seq<Result<bool, String>>) -> (
    Seq<UpgradeRequest>,
    Option<String>,
) {
    let rest = requests_from(listens, 0);
    (seq![UpgradeRequest::Upgrade] + rest.0, rest.1)
}

/// The requests that `release upgrade` sends when its successive listens end with `listens`
/// (the first is the listen to the first attempt), and the error that stopped it, if any.
/// Listens after the one that finalized or failed are not reached.
pub fn release_upgrade_requests(listens: &Vec<Result<bool, String>>) -> (r: (
    Vec<UpgradeRequest>,
    Option<String>,
))
    ensures
        r.0@ == spec_upgrade_requests(listens@).0,
        r.1 == spec_upgrade_requests(listens@).1,
{
    let mut sent: Vec<UpgradeRequest> = Vec::new();
    sent.push(UpgradeRequest::Upgrade);
    let mut i: usize = 0;
    while i < listens.len()
        invariant
            i <= listens.len(),
            sent@ + requests_from(listens@, i as int).0 == spec_upgrade_requests(listens@).0,
            requests_from(listens@, i as int).1 == spec_upgrade_requests(listens@).1,
        decreases listens.len() - i,
    {
        let listened = match &listens[i] {
            Ok(b) => Ok(*b),
            Err(e) => Err(e.clone()),
        };
        match upgrade_listen_step(listened) {
            UpgradeStep::SendAgain => {
                proof {
                    let rest = requests_from(listens@, i + 1);
                    assert(sent@.push(UpgradeRequest::Upgrade) + rest.0 =~= sent@ + (
                    seq![UpgradeRequest::Upgrade] + rest.0));
                }
                sent.push(UpgradeRequest::Upgrade);
                i = i + 1;
            },
            UpgradeStep::Finalize => {
                sent.push(UpgradeRequest::Finalize);
                proof {
                    assert(sent@ =~= sent@.drop_last() + seq![UpgradeRequest::Finalize]);
                }
                return (sent, None);
            },
            UpgradeStep::Fail(e) => {
                proof {
                    assert(sent@ + Seq::<UpgradeRequest>::empty() =~= sent@);
                }
                return (sent, Some(e));
            },
        }
    }
    proof {
        assert(sent@ + Seq::<UpgradeRequest>::empty() =~= sent@);
    }
    (sent, None)
}

/// The finalize request comes at most once, and only as the last request; every other
/// request is the upgrade.
pub proof fn law_finalize_only_last(listens: Seq<Result<bool, String>>, k: int)
    requires
        0 <= k < spec_upgrade_requests(listens).0.len(),
    ensures
        spec_upgrade_requests(listens).0[k] == UpgradeRequest::Finalize ==> k
            == spec_upgrade_requests(listens).0.len() - 1,
        k == 0 ==> spec_upgrade_requests(listens).0[k] == UpgradeRequest::Upgrade,
{
    lemma_finalize_only_last_from(listens, 0, k - 1);
}

proof fn lemma_finalize_only_last_from(listens: Seq<Result<bool, String>>, i: int, k: int)
    requires
        0 <= i,
    ensures
        0 <= k < requests_from(listens, i).0.len() && requests_from(listens, i).0[k]
            == UpgradeRequest::Finalize ==> k == requests_from(listens, i).0.len() - 1,
    decreases listens.len() - i,
{
    if i < listens.len() {
        if let Ok(true) = listens[i] {
            lemma_finalize_only_last_from(listens, i + 1, k - 1);
        }
    }
}

} // verus!
