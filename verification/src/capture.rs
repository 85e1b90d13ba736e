//! Getting hold of the selected text by way of the clipboard, as a dialogue
//! with the desktop, and leaving the clipboard as it was.
use vstd::prelude::*;
use vstd::string::*;
use vstd::utf8::encode_utf8;

use crate::text;
use crate::translator::text_of;

verus! {

/// How often an operation on the clipboard is tried.
pub const CLIPBOARD_ATTEMPTS: u32 = 3;

/// The pause after an attempt that failed, in milliseconds.
pub const RETRY_PAUSE_MS: u64 = 50;

/// How often the clipboard is read for the copied text.
pub const MAX_POLLS: u32 = 10;

/// The pause before each of these readings, in milliseconds.
pub const POLL_PAUSE_MS: u64 = 80;

/// The longest text that is translated, in bytes.
pub const MAX_TEXT_BYTES: usize = 2000;

/// The attempts at one operation on the clipboard.
pub struct Retry {
    failures: u32,
}

impl Retry {
    /// The number of attempts that failed.
    pub closed spec fn failures(&self) -> int {
        self.failures as int
    }

    pub open spec fn wf(&self) -> bool {
        0 <= self.failures() < CLIPBOARD_ATTEMPTS
    }

    pub fn new() -> (r: Retry)
        ensures
            r.wf(),
            r.failures() == 0,
    {
        Retry { failures: 0 }
    }

    /// Counts a failed attempt; whether another is due.
    pub fn again(&mut self) -> (r: bool)
        requires
            old(self).wf(),
        ensures
            final(self).failures() == old(self).failures() + 1,
            r == (final(self).failures() < CLIPBOARD_ATTEMPTS),
            r ==> final(self).wf(),
    {
        self.failures = self.failures + 1;
        self.failures < CLIPBOARD_ATTEMPTS
    }

    /// How long to pause after an attempt that failed, in milliseconds.
    pub fn pause_ms(&self) -> (r: u64)
        ensures
            r == RETRY_PAUSE_MS,
    {
        RETRY_PAUSE_MS
    }
}

/// One step of the key strokes that copy a selection.
#[derive(Clone, Copy, PartialEq, Eq, Structural, Debug)]
pub enum KeyStep {
    PauseMs(u64),
    PressModifier,
    ClickCopy,
    ReleaseModifier,
}

/// The key strokes that copy a selection, with the pauses between them.
pub fn copy_keys() -> (r: Vec<KeyStep>)
    ensures
        r@ == seq![
            KeyStep::PauseMs(50),
            KeyStep::PressModifier,
            KeyStep::PauseMs(20),
            KeyStep::ClickCopy,
            KeyStep::PauseMs(20),
            KeyStep::ReleaseModifier,
        ],
{
    vec![
        KeyStep::PauseMs(50),
        KeyStep::PressModifier,
        KeyStep::PauseMs(20),
        KeyStep::ClickCopy,
        KeyStep::PauseMs(20),
        KeyStep::ReleaseModifier,
    ]
}

/// The text that is put on the clipboard to tell whether the copy took place.
pub open spec fn sentinel_of(process_id: nat, nanos: nat) -> Seq<char> {
    "__HOVER_DICT_CLIPBOARD_SENTINEL_"@ + text::decimal(process_id) + "_"@ + text::decimal(nanos)
        + "__"@
}

/// The sentinel of a process at a time in nanoseconds.
pub fn sentinel(process_id: u32, nanos: u128) -> (r: String)
    ensures
        r@ == sentinel_of(process_id as nat, nanos as nat),
{
    let mut r: String = "__HOVER_DICT_CLIPBOARD_SENTINEL_".to_owned();
    r.append(text::decimal_text(process_id as u128).as_str());
    r.append("_");
    r.append(text::decimal_text(nanos).as_str());
    r.append("__");
    r
}

/// The text that is translated of a selection: trimmed, and nothing where
/// that leaves nothing or more than the limit.
pub open spec fn selection(selected: Seq<char>) -> Option<Seq<char>> {
    let t = text::trimmed(selected);
    if t.len() == 0 || encode_utf8(t).len() > MAX_TEXT_BYTES {
        None
    } else {
        Some(t)
    }
}

/// The text to translate of what was selected.
pub fn usable_selection(selected: &str) -> (r: Option<String>)
    ensures
        text_of(r) == selection(selected@),
{
    let trimmed: &str = text::trim(selected);
    if trimmed.is_empty() || trimmed.as_bytes().len() > MAX_TEXT_BYTES {
        None
    } else {
        Some(trimmed.to_owned())
    }
}

/// How far a capture has come.
#[derive(Clone, Copy, PartialEq, Eq, Structural, Debug)]
pub enum CaptureStage {
    Opening,
    ReadingText,
    ReadingImage,
    StartingKeyboard,
    ReadingClock,
    WritingSentinel,
    Copying,
    Polling,
    Restoring,
    Finished,
}

/// What the desktop answered.
pub enum CaptureEvent {
    /// Whether the clipboard could be opened.
    Opened(bool),
    /// The text on the clipboard, if it could be read.
    TextRead(Option<String>),
    /// Whether there was an image on the clipboard; it is kept by the caller.
    ImageRead(bool),
    /// Whether key strokes can be sent.
    KeyboardStarted(bool),
    /// The process, and the nanoseconds since the epoch where the clock is past it.
    ClockRead { process_id: u32, nanos: Option<u128> },
    /// Whether the sentinel could be written.
    SentinelWritten(bool),
    Copied,
    /// The text on the clipboard, if it could be read.
    Polled(Option<String>),
    Restored,
}

/// What is asked of the desktop next.
pub enum CaptureAction {
    Open,
    ReadText,
    ReadImage,
    StartKeyboard,
    ReadClock,
    WriteSentinel(String),
    /// Send the key strokes of [`copy_keys`].
    Copy,
    /// Read the text on the clipboard, after the pause of [`CaptureAction::pause_ms`].
    Poll,
    /// Put back the image that was kept.
    RestoreImage,
    RestoreText(String),
    ClearClipboard,
    Finish(Option<String>),
}

/// The contents of a [`CaptureEvent`].
pub enum CaptureReply {
    Opened(bool),
    TextRead(Option<Seq<char>>),
    ImageRead(bool),
    KeyboardStarted(bool),
    ClockRead { process_id: nat, nanos: Option<nat> },
    SentinelWritten(bool),
    Copied,
    Polled(Option<Seq<char>>),
    Restored,
}

/// The contents of a [`CaptureAction`].
pub enum CaptureDemand {
    Open,
    ReadText,
    ReadImage,
    StartKeyboard,
    ReadClock,
    WriteSentinel(Seq<char>),
    Copy,
    Poll,
    RestoreImage,
    RestoreText(Seq<char>),
    ClearClipboard,
    Finish(Option<Seq<char>>),
}

impl View for CaptureEvent {
    type V = CaptureReply;

    open spec fn view(&self) -> CaptureReply {
        match *self {
            CaptureEvent::Opened(ok) => CaptureReply::Opened(ok),
            CaptureEvent::TextRead(t) => CaptureReply::TextRead(text_of(t)),
            CaptureEvent::ImageRead(there) => CaptureReply::ImageRead(there),
            CaptureEvent::KeyboardStarted(ok) => CaptureReply::KeyboardStarted(ok),
            CaptureEvent::ClockRead { process_id, nanos } => CaptureReply::ClockRead {
                process_id: process_id as nat,
                nanos: match nanos {
                    Some(n) => Some(n as nat),
                    None => None,
                },
            },
            CaptureEvent::SentinelWritten(ok) => CaptureReply::SentinelWritten(ok),
            CaptureEvent::Copied => CaptureReply::Copied,
            CaptureEvent::Polled(t) => CaptureReply::Polled(text_of(t)),
            CaptureEvent::Restored => CaptureReply::Restored,
        }
    }
}

impl View for CaptureAction {
    type V = CaptureDemand;

    open spec fn view(&self) -> CaptureDemand {
        match *self {
            CaptureAction::Open => CaptureDemand::Open,
            CaptureAction::ReadText => CaptureDemand::ReadText,
            CaptureAction::ReadImage => CaptureDemand::ReadImage,
            CaptureAction::StartKeyboard => CaptureDemand::StartKeyboard,
            CaptureAction::ReadClock => CaptureDemand::ReadClock,
            CaptureAction::WriteSentinel(s) => CaptureDemand::WriteSentinel(s@),
            CaptureAction::Copy => CaptureDemand::Copy,
            CaptureAction::Poll => CaptureDemand::Poll,
            CaptureAction::RestoreImage => CaptureDemand::RestoreImage,
            CaptureAction::RestoreText(s) => CaptureDemand::RestoreText(s@),
            CaptureAction::ClearClipboard => CaptureDemand::ClearClipboard,
            CaptureAction::Finish(t) => CaptureDemand::Finish(text_of(t)),
        }
    }
}

/// How long to pause before `demand` is met, in milliseconds: before the
/// readings for the copied text alone.
pub open spec fn pause_before(demand: CaptureDemand) -> u64 {
    match demand {
        CaptureDemand::Poll => POLL_PAUSE_MS,
        _ => 0,
    }
}

impl CaptureAction {
    /// How long to pause before this is done, in milliseconds.
    pub fn pause_ms(&self) -> (r: u64)
        ensures
            r == pause_before(self@),
    {
        match self {
            CaptureAction::Poll => POLL_PAUSE_MS,
            _ => 0,
        }
    }
}

/// A capture on its way.
pub struct Capture {
    stage: CaptureStage,
    backup_text: String,
    has_image: bool,
    sentinel: String,
    sentinel_written: bool,
    polls: u32,
    selected: String,
}

/// The contents of a [`Capture`].
pub struct Session {
    pub stage: CaptureStage,
    /// The text that was on the clipboard, empty where there was none.
    pub backup_text: Seq<char>,
    /// Whether an image was on the clipboard.
    pub has_image: bool,
    pub sentinel: Seq<char>,
    pub sentinel_written: bool,
    /// How often the clipboard was read for the copied text.
    pub polls: nat,
    pub selected: Seq<char>,
}

impl View for Capture {
    type V = Session;

    closed spec fn view(&self) -> Session {
        Session {
            stage: self.stage,
            backup_text: self.backup_text@,
            has_image: self.has_image,
            sentinel: self.sentinel@,
            sentinel_written: self.sentinel_written,
            polls: self.polls as nat,
            selected: self.selected@,
        }
    }
}

impl Session {
    /// The state in which a capture begins.
    pub open spec fn fresh() -> Session {
        Session {
            stage: CaptureStage::Opening,
            backup_text: Seq::empty(),
            has_image: false,
            sentinel: Seq::empty(),
            sentinel_written: false,
            polls: 0,
            selected: Seq::empty(),
        }
    }

    /// While the copied text is awaited, another reading is allowed; before
    /// that none was made.
    pub open spec fn wf(self) -> bool {
        match self.stage {
            CaptureStage::Polling => self.polls < MAX_POLLS,
            CaptureStage::Restoring => self.polls <= MAX_POLLS,
            CaptureStage::Finished => self.polls <= MAX_POLLS,
            _ => self.polls == 0 && self.selected.len() == 0,
        }
    }

    /// Whether `t`, read from the clipboard, is the copied text: it differs
    /// from the sentinel, or from the former text where the sentinel could not
    /// be written, and is not blank.
    pub open spec fn accepts(self, t: Seq<char>) -> bool {
        &&& t != (if self.sentinel_written {
            self.sentinel
        } else {
            self.backup_text
        })
        &&& text::trimmed(t).len() > 0
    }

    /// How the clipboard is put back.
    pub open spec fn restoration(self) -> CaptureDemand {
        if self.has_image {
            CaptureDemand::RestoreImage
        } else if self.backup_text.len() > 0 {
            CaptureDemand::RestoreText(self.backup_text)
        } else {
            CaptureDemand::ClearClipboard
        }
    }
}

/// Whether `reply` answers what was asked at `stage`.
pub open spec fn capture_expects(stage: CaptureStage, reply: CaptureReply) -> bool {
    match stage {
        CaptureStage::Opening => reply is Opened,
        CaptureStage::ReadingText => reply is TextRead,
        CaptureStage::ReadingImage => reply is ImageRead,
        CaptureStage::StartingKeyboard => reply is KeyboardStarted,
        CaptureStage::ReadingClock => reply is ClockRead,
        CaptureStage::WritingSentinel => reply is SentinelWritten,
        CaptureStage::Copying => reply is Copied,
        CaptureStage::Polling => reply is Polled,
        CaptureStage::Restoring => reply is Restored,
        CaptureStage::Finished => false,
    }
}

/// The next state of a capture, and what is asked next.
pub open spec fn capture_step(s: Session, reply: CaptureReply) -> (Session, CaptureDemand) {
    let abandoned = (
        Session { stage: CaptureStage::Finished, ..s },
        CaptureDemand::Finish(None),
    );
    match reply {
        CaptureReply::Opened(ok) => if ok {
            (Session { stage: CaptureStage::ReadingText, ..s }, CaptureDemand::ReadText)
        } else {
            abandoned
        },
        CaptureReply::TextRead(t) => (
            Session {
                stage: CaptureStage::ReadingImage,
                backup_text: match t {
                    Some(t) => t,
                    None => Seq::empty(),
                },
                ..s
            },
            CaptureDemand::ReadImage,
        ),
        CaptureReply::ImageRead(there) => (
            Session { stage: CaptureStage::StartingKeyboard, has_image: there, ..s },
            CaptureDemand::StartKeyboard,
        ),
        CaptureReply::KeyboardStarted(ok) => if ok {
            (Session { stage: CaptureStage::ReadingClock, ..s }, CaptureDemand::ReadClock)
        } else {
            abandoned
        },
        CaptureReply::ClockRead { process_id, nanos } => {
            let sentinel = sentinel_of(
                process_id,
                match nanos {
                    Some(n) => n,
                    None => 0,
                },
            );
            (
                Session { stage: CaptureStage::WritingSentinel, sentinel, ..s },
                CaptureDemand::WriteSentinel(sentinel),
            )
        },
        CaptureReply::SentinelWritten(ok) => (
            Session { stage: CaptureStage::Copying, sentinel_written: ok, ..s },
            CaptureDemand::Copy,
        ),
        CaptureReply::Copied => (
            Session { stage: CaptureStage::Polling, ..s },
            CaptureDemand::Poll,
        ),
        CaptureReply::Polled(t) => {
            let polls = s.polls + 1;
            match t {
                Some(t) if s.accepts(t) => (
                    Session { stage: CaptureStage::Restoring, polls, selected: t, ..s },
                    s.restoration(),
                ),
                _ => if polls < MAX_POLLS {
                    (Session { polls, ..s }, CaptureDemand::Poll)
                } else {
                    (Session { stage: CaptureStage::Restoring, polls, ..s }, s.restoration())
                },
            }
        },
        CaptureReply::Restored => (
            Session { stage: CaptureStage::Finished, ..s },
            CaptureDemand::Finish(selection(s.selected)),
        ),
    }
}

/// Begins to capture the selected text: the capture, and what is asked first.
pub fn capture_selected_text() -> (r: (Capture, CaptureAction))
    ensures
        r.0@ == Session::fresh(),
        r.0@.wf(),
        r.1@ == CaptureDemand::Open,
{
    (
        Capture {
            stage: CaptureStage::Opening,
            backup_text: String::new(),
            has_image: false,
            sentinel: String::new(),
            sentinel_written: false,
            polls: 0,
            selected: String::new(),
        },
        CaptureAction::Open,
    )
}

impl Capture {
    fn accepts(&self, t: &String) -> (r: bool)
        ensures
            r == self@.accepts(t@),
    {
        let changed: bool = if self.sentinel_written {
            !text::same(t.as_str(), self.sentinel.as_str())
        } else {
            !text::same(t.as_str(), self.backup_text.as_str())
        };
        changed && !text::trim(t.as_str()).is_empty()
    }

    fn restore(&mut self) -> (action: CaptureAction)
        ensures
            final(self)@ == (Session { stage: CaptureStage::Restoring, ..old(self)@ }),
            action@ == old(self)@.restoration(),
    {
        self.stage = CaptureStage::Restoring;
        if self.has_image {
            CaptureAction::RestoreImage
        } else if !self.backup_text.as_str().is_empty() {
            CaptureAction::RestoreText(self.backup_text.clone())
        } else {
            CaptureAction::ClearClipboard
        }
    }

    /// Takes the answer to the last demand and gives the next.
    pub fn step(&mut self, event: CaptureEvent) -> (action: CaptureAction)
        requires
            old(self)@.wf(),
            capture_expects(old(self)@.stage, event@),
        ensures
            final(self)@.wf(),
            (final(self)@, action@) == capture_step(old(self)@, event@),
    {
        match event {
            CaptureEvent::Opened(ok) => {
                if ok {
                    self.stage = CaptureStage::ReadingText;
                    CaptureAction::ReadText
                } else {
                    self.stage = CaptureStage::Finished;
                    CaptureAction::Finish(None)
                }
            },
            CaptureEvent::TextRead(t) => {
                self.stage = CaptureStage::ReadingImage;
                self.backup_text = match t {
                    Some(t) => t,
                    None => String::new(),
                };
                CaptureAction::ReadImage
            },
            CaptureEvent::ImageRead(there) => {
                self.stage = CaptureStage::StartingKeyboard;
                self.has_image = there;
                CaptureAction::StartKeyboard
            },
            CaptureEvent::KeyboardStarted(ok) => {
                if ok {
                    self.stage = CaptureStage::ReadingClock;
                    CaptureAction::ReadClock
                } else {
                    self.stage = CaptureStage::Finished;
                    CaptureAction::Finish(None)
                }
            },
            CaptureEvent::ClockRead { process_id, nanos } => {
                let nanos: u128 = match nanos {
                    Some(n) => n,
                    None => 0,
                };
                self.stage = CaptureStage::WritingSentinel;
                self.sentinel = sentinel(process_id, nanos);
                CaptureAction::WriteSentinel(self.sentinel.clone())
            },
            CaptureEvent::SentinelWritten(ok) => {
                self.stage = CaptureStage::Copying;
                self.sentinel_written = ok;
                CaptureAction::Copy
            },
            CaptureEvent::Copied => {
                self.stage = CaptureStage::Polling;
                CaptureAction::Poll
            },
            CaptureEvent::Polled(t) => {
                self.polls = self.polls + 1;
                match t {
                    Some(t) => {
                        if self.accepts(&t) {
                            self.selected = t;
                            return self.restore();
                        }
                    },
                    None => {},
                }
                if self.polls < MAX_POLLS {
                    CaptureAction::Poll
                } else {
                    self.restore()
                }
            },
            CaptureEvent::Restored => {
                self.stage = CaptureStage::Finished;
                CaptureAction::Finish(usable_selection(self.selected.as_str()))
            },
        }
    }
}

/// What the desktop answers at each stage of a capture.
pub struct Desktop {
    pub opened: bool,
    pub text: Option<Seq<char>>,
    pub image: bool,
    pub keyboard: bool,
    pub process_id: nat,
    pub nanos: Option<nat>,
    pub written: bool,
    /// The text on the clipboard at each reading.
    pub polled: spec_fn(nat) -> Option<Seq<char>>,
}

impl Desktop {
    pub open spec fn reply(self, s: Session) -> CaptureReply {
        match s.stage {
            CaptureStage::Opening => CaptureReply::Opened(self.opened),
            CaptureStage::ReadingText => CaptureReply::TextRead(self.text),
            CaptureStage::ReadingImage => CaptureReply::ImageRead(self.image),
            CaptureStage::StartingKeyboard => CaptureReply::KeyboardStarted(self.keyboard),
            CaptureStage::ReadingClock => CaptureReply::ClockRead {
                process_id: self.process_id,
                nanos: self.nanos,
            },
            CaptureStage::WritingSentinel => CaptureReply::SentinelWritten(self.written),
            CaptureStage::Copying => CaptureReply::Copied,
            CaptureStage::Polling => CaptureReply::Polled((self.polled)(s.polls)),
            _ => CaptureReply::Restored,
        }
    }

    /// The text that is on the clipboard before the capture.
    pub open spec fn former_text(self) -> Seq<char> {
        match self.text {
            Some(t) => t,
            None => Seq::empty(),
        }
    }

    /// The sentinel of the capture.
    pub open spec fn sentinel(self) -> Seq<char> {
        sentinel_of(
            self.process_id,
            match self.nanos {
                Some(n) => n,
                None => 0,
            },
        )
    }

    /// Whether `t` counts as the copied text.
    pub open spec fn accepts(self, t: Seq<char>) -> bool {
        &&& t != (if self.written {
            self.sentinel()
        } else {
            self.former_text()
        })
        &&& text::trimmed(t).len() > 0
    }

    /// How the clipboard is put back.
    pub open spec fn restoration(self) -> CaptureDemand {
        if self.image {
            CaptureDemand::RestoreImage
        } else if self.former_text().len() > 0 {
            CaptureDemand::RestoreText(self.former_text())
        } else {
            CaptureDemand::ClearClipboard
        }
    }

    /// The first copied text that one of the readings from `from` on finds;
    /// empty where none does.
    pub open spec fn picked(self, from: nat) -> Seq<char>
        decreases MAX_POLLS - from,
    {
        if from >= MAX_POLLS {
            Seq::empty()
        } else {
            match (self.polled)(from) {
                Some(t) if self.accepts(t) => t,
                _ => self.picked(from + 1),
            }
        }
    }
}

/// How many answers a capture can still take.
pub open spec fn capture_answers_left(s: Session) -> nat {
    match s.stage {
        CaptureStage::Opening => 18,
        CaptureStage::ReadingText => 17,
        CaptureStage::ReadingImage => 16,
        CaptureStage::StartingKeyboard => 15,
        CaptureStage::ReadingClock => 14,
        CaptureStage::WritingSentinel => 13,
        CaptureStage::Copying => 12,
        CaptureStage::Polling => (11 - s.polls) as nat,
        CaptureStage::Restoring => 1,
        CaptureStage::Finished => 0,
    }
}

/// All that is asked of the desktop after `s`, in order.
pub open spec fn capture_trace(s: Session, desktop: Desktop) -> Seq<CaptureDemand>
    decreases capture_answers_left(s),
{
    let (next, demand) = capture_step(s, desktop.reply(s));
    if demand is Finish || capture_answers_left(next) >= capture_answers_left(s) {
        seq![demand]
    } else {
        seq![demand] + capture_trace(next, desktop)
    }
}

/// Whether `demand` puts the clipboard back.
pub open spec fn restores(demand: CaptureDemand) -> bool {
    demand is RestoreImage || demand is RestoreText || demand is ClearClipboard
}

/// Every answer keeps a capture well formed and brings it nearer to its end,
/// which comes, with a demand to finish, after eighteen answers at the latest.
pub proof fn law_capture_ends(s: Session, reply: CaptureReply)
    requires
        s.wf(),
        capture_expects(s.stage, reply),
    ensures
        capture_step(s, reply).0.wf(),
        capture_answers_left(capture_step(s, reply).0) < capture_answers_left(s) <= 18,
        capture_step(s, reply).0.stage == CaptureStage::Finished <==> capture_step(
            s,
            reply,
        ).1 is Finish,
{
}

/// From the writing of the sentinel on, a capture finishes only after it has
/// put the clipboard back: the last demand but one restores the image where
/// there was one, else the text where there was any, else clears the
/// clipboard; and the readings of the clipboard are bounded.
proof fn lemma_trace_restores(s: Session, desktop: Desktop)
    requires
        s.wf(),
        s.stage == CaptureStage::WritingSentinel || s.stage == CaptureStage::Copying || s.stage
            == CaptureStage::Polling,
    ensures
        ({
            let t = capture_trace(s, desktop);
            &&& t.len() >= 2
            &&& t[t.len() - 1] is Finish
            &&& t[t.len() - 2] == s.restoration()
            &&& forall|i: int|
                0 <= i < t.len() - 2 ==> (#[trigger] t[i] is Copy || t[i] is Poll)
            &&& t.len() <= capture_answers_left(s)
        }),
    decreases capture_answers_left(s),
{
    let reply = desktop.reply(s);
    let (next, demand) = capture_step(s, reply);
    law_capture_ends(s, reply);
    let rest = capture_trace(next, desktop);
    if next.stage == CaptureStage::Restoring {
        assert(rest =~= seq![capture_step(next, desktop.reply(next)).1]);
    } else {
        lemma_trace_restores(next, desktop);
    }
    let t = capture_trace(s, desktop);
    assert(t == seq![demand] + rest);
    assert forall|i: int| 0 <= i < t.len() - 2 implies (#[trigger] t[i] is Copy || t[i] is Poll) by {
        if i > 0 {
            assert(t[i] == rest[i - 1]);
        }
    }
}

/// A capture that writes to the clipboard puts it back: whatever the desktop
/// answers, a capture either writes no sentinel at all and only reads the
/// clipboard, or its last demand but one puts back what was there before.
/// Either way it ends with a demand to finish, and nowhere else.
pub proof fn law_clipboard_is_put_back(desktop: Desktop)
    ensures
        ({
            let t = capture_trace(Session::fresh(), desktop);
            &&& t.len() > 0
            &&& t.last() is Finish
            &&& forall|i: int| 0 <= i < t.len() - 1 ==> !(#[trigger] t[i] is Finish)
            &&& if desktop.opened && desktop.keyboard {
                t.len() >= 2 && t[t.len() - 2] == desktop.restoration()
            } else {
                forall|i: int|
                    0 <= i < t.len() ==> !(#[trigger] t[i] is WriteSentinel) && !(t[i] is Copy)
                        && !restores(t[i])
            }
        }),
{
    reveal_with_fuel(capture_trace, 6);
    let s0 = Session::fresh();
    let s1 = capture_step(s0, desktop.reply(s0)).0;
    if desktop.opened {
        let s2 = capture_step(s1, desktop.reply(s1)).0;
        let s3 = capture_step(s2, desktop.reply(s2)).0;
        let s4 = capture_step(s3, desktop.reply(s3)).0;
        if desktop.keyboard {
            let s5 = capture_step(s4, desktop.reply(s4)).0;
            lemma_trace_restores(s5, desktop);
            let rest = capture_trace(s5, desktop);
            let t = capture_trace(s0, desktop);
            assert(t =~= seq![
                CaptureDemand::ReadText,
                CaptureDemand::ReadImage,
                CaptureDemand::StartKeyboard,
                CaptureDemand::ReadClock,
                CaptureDemand::WriteSentinel(desktop.sentinel()),
            ] + rest);
            assert forall|i: int| 0 <= i < t.len() - 1 implies !(#[trigger] t[i] is Finish) by {
                if i >= 5 {
                    assert(t[i] == rest[i - 5]);
                }
            }
        } else {
            assert(capture_trace(s0, desktop) =~= seq![
                CaptureDemand::ReadText,
                CaptureDemand::ReadImage,
                CaptureDemand::StartKeyboard,
                CaptureDemand::Finish(None),
            ]);
        }
    } else {
        assert(capture_trace(s0, desktop) =~= seq![CaptureDemand::Finish(None)]);
    }
}

proof fn lemma_trace_step(s: Session, desktop: Desktop)
    requires
        s.wf(),
        s.stage != CaptureStage::Finished,
    ensures
        ({
            let (next, demand) = capture_step(s, desktop.reply(s));
            &&& capture_trace(s, desktop).len() > 0
            &&& if demand is Finish {
                capture_trace(s, desktop).last() == demand
            } else {
                next.wf() && capture_trace(s, desktop).last() == capture_trace(next, desktop).last()
            }
        }),
{
    let (next, demand) = capture_step(s, desktop.reply(s));
    law_capture_ends(s, desktop.reply(s));
    if !(demand is Finish) {
        assert(capture_trace(next, desktop).len() > 0);
        assert(capture_trace(s, desktop) == seq![demand] + capture_trace(next, desktop));
    }
}

proof fn lemma_polling_outcome(s: Session, desktop: Desktop)
    requires
        s.wf(),
        s.stage == CaptureStage::Polling,
        s.selected.len() == 0,
        s.sentinel == desktop.sentinel(),
        s.sentinel_written == desktop.written,
        s.backup_text == desktop.former_text(),
    ensures
        capture_trace(s, desktop).len() > 0,
        capture_trace(s, desktop).last() == CaptureDemand::Finish(
            selection(desktop.picked(s.polls)),
        ),
    decreases capture_answers_left(s),
{
    let reply = desktop.reply(s);
    let (next, demand) = capture_step(s, reply);
    law_capture_ends(s, reply);
    let rest = capture_trace(next, desktop);
    if next.stage == CaptureStage::Restoring {
        assert(rest =~= seq![capture_step(next, desktop.reply(next)).1]);
        if desktop.picked(s.polls) != next.selected {
            assert(desktop.picked(s.polls + 1) == Seq::<char>::empty());
            assert(s.selected =~= Seq::<char>::empty());
        }
    } else {
        lemma_polling_outcome(next, desktop);
    }
    assert(capture_trace(s, desktop) == seq![demand] + rest);
}

/// The outcome of every capture: nothing where the clipboard or the keyboard
/// cannot be had, else the usable part of the first reading, out of ten at
/// most, that brought something new.
pub proof fn law_capture_outcome(desktop: Desktop)
    ensures
        capture_trace(Session::fresh(), desktop).last() == CaptureDemand::Finish(
            if desktop.opened && desktop.keyboard {
                selection(desktop.picked(0))
            } else {
                None
            },
        ),
{
    let s0 = Session::fresh();
    lemma_trace_step(s0, desktop);
    let s1 = capture_step(s0, desktop.reply(s0)).0;
    if desktop.opened {
        lemma_trace_step(s1, desktop);
        let s2 = capture_step(s1, desktop.reply(s1)).0;
        lemma_trace_step(s2, desktop);
        let s3 = capture_step(s2, desktop.reply(s2)).0;
        lemma_trace_step(s3, desktop);
        let s4 = capture_step(s3, desktop.reply(s3)).0;
        if desktop.keyboard {
            lemma_trace_step(s4, desktop);
            let s5 = capture_step(s4, desktop.reply(s4)).0;
            lemma_trace_step(s5, desktop);
            let s6 = capture_step(s5, desktop.reply(s5)).0;
            lemma_trace_step(s6, desktop);
            let s7 = capture_step(s6, desktop.reply(s6)).0;
            lemma_polling_outcome(s7, desktop);
        }
    }
}

/// The pauses before a run of demands, added up.
pub open spec fn pauses_before(demands: Seq<CaptureDemand>) -> nat
    decreases demands.len(),
{
    if demands.len() == 0 {
        0
    } else {
        pause_before(demands[0]) as nat + pauses_before(demands.skip(1))
    }
}

spec fn pauses_left(s: Session) -> int {
    match s.stage {
        CaptureStage::Polling => (MAX_POLLS - 1 - s.polls) * POLL_PAUSE_MS,
        CaptureStage::Restoring => 0,
        CaptureStage::Finished => 0,
        _ => MAX_POLLS * POLL_PAUSE_MS,
    }
}

proof fn lemma_pauses_left(s: Session, desktop: Desktop)
    requires
        s.wf(),
        s.stage != CaptureStage::Finished,
    ensures
        pauses_before(capture_trace(s, desktop)) <= pauses_left(s),
    decreases capture_answers_left(s),
{
    let reply = desktop.reply(s);
    let (next, demand) = capture_step(s, reply);
    law_capture_ends(s, reply);
    let t = capture_trace(s, desktop);
    reveal_with_fuel(pauses_before, 2);
    if demand is Finish {
        assert(t.skip(1) =~= Seq::<CaptureDemand>::empty());
    } else {
        lemma_pauses_left(next, desktop);
        assert(t.skip(1) =~= capture_trace(next, desktop));
    }
}

/// However the desktop answers, a capture waits for the copied text no longer
/// than ten pauses.
pub proof fn law_waiting_is_bounded(desktop: Desktop)
    ensures
        pauses_before(capture_trace(Session::fresh(), desktop)) <= MAX_POLLS * POLL_PAUSE_MS,
{
    lemma_pauses_left(Session::fresh(), desktop);
}

/// A captured text is neither empty nor over the limit, and has no white
/// space at its ends.
pub proof fn law_selection_is_usable(selected: Seq<char>)
    ensures
        selection(selected) matches Some(t) ==> t.len() > 0 && encode_utf8(t).len()
            <= MAX_TEXT_BYTES && text::trimmed(t) == t,
{
    text::law_trim_idempotent(selected);
}

/// Of a selection with the stretch from `i` to `j` between its outermost white
/// space that stretch is translated, unchanged, unless it is over 2000 bytes;
/// a selection of white space alone is not.
pub proof fn law_selection_is_the_stretch(selected: Seq<char>, i: int, j: int)
    ensures
        text::bare_stretch(selected, i, j) && encode_utf8(selected.subrange(i, j)).len() <= 2000
            ==> selection(selected) == Some(selected.subrange(i, j)),
        text::bare_stretch(selected, i, j) && encode_utf8(selected.subrange(i, j)).len() > 2000
            ==> selection(selected) is None,
        (forall|k: int| 0 <= k < selected.len() ==> text::is_white_space(#[trigger] selected[k]))
            ==> selection(selected) is None,
{
    if text::bare_stretch(selected, i, j) {
        text::law_trim_keeps_the_stretch(selected, i, j);
    }
    text::law_trim_empty(selected);
}

/// Nothing is translated only of a selection of white space alone, or one
/// whose stretch between the outermost white space is over 2000 bytes.
pub proof fn law_selection_refused_for_cause(selected: Seq<char>)
    requires
        selection(selected) is None,
        exists|k: int| 0 <= k < selected.len() && !text::is_white_space(#[trigger] selected[k]),
    ensures
        exists|i: int, j: int| #[trigger]
            text::bare_stretch(selected, i, j) && encode_utf8(selected.subrange(i, j)).len() > 2000,
{
    text::law_stretch_exists(selected);
    let (i, j) = choose|i: int, j: int| text::bare_stretch(selected, i, j);
    law_selection_is_the_stretch(selected, i, j);
}

/// Whether a reading of the clipboard brings nothing new: it failed, or is
/// blank, or still shows what was there before the copy, which is `shown`.
pub open spec fn is_stale(reading: Option<Seq<char>>, shown: Seq<char>) -> bool {
    match reading {
        None => true,
        Some(t) => t == shown || forall|k: int|
            0 <= k < t.len() ==> text::is_white_space(#[trigger] t[k]),
    }
}

proof fn lemma_stale_readings(desktop: Desktop, from: nat, to: nat)
    requires
        from <= to <= 10,
        forall|m: nat|
            from <= m < to ==> is_stale(
                #[trigger] (desktop.polled)(m),
                if desktop.written {
                    desktop.sentinel()
                } else {
                    desktop.former_text()
                },
            ),
    ensures
        desktop.picked(from) == desktop.picked(to),
    decreases to - from,
{
    if from < to {
        let reading = (desktop.polled)(from);
        assert(is_stale(
            reading,
            if desktop.written {
                desktop.sentinel()
            } else {
                desktop.former_text()
            },
        ));
        if reading is Some {
            text::law_trim_empty(reading->0);
        }
        lemma_stale_readings(desktop, from + 1, to);
    }
}

/// The first of ten readings that is neither blank nor what was there before
/// is captured: the stretch between its outermost white space, unless that is
/// over 2000 bytes. What was there before is the sentinel, or, where that could
/// not be written, the former text.
pub proof fn law_first_new_text_is_captured(
    desktop: Desktop,
    shown: Seq<char>,
    n: nat,
    t: Seq<char>,
    i: int,
    j: int,
)
    requires
        desktop.opened && desktop.keyboard,
        desktop.written ==> shown == sentinel_of(
            desktop.process_id,
            match desktop.nanos {
                Some(nanos) => nanos,
                None => 0,
            },
        ),
        !desktop.written ==> shown == (match desktop.text {
            Some(former) => former,
            None => Seq::empty(),
        }),
        n < 10,
        forall|m: nat| m < n ==> is_stale(#[trigger] (desktop.polled)(m), shown),
        (desktop.polled)(n) == Some(t),
        t != shown,
        text::bare_stretch(t, i, j),
    ensures
        capture_trace(Session::fresh(), desktop).last() == CaptureDemand::Finish(
            if encode_utf8(t.subrange(i, j)).len() <= 2000 {
                Some(t.subrange(i, j))
            } else {
                None
            },
        ),
{
    law_capture_outcome(desktop);
    lemma_stale_readings(desktop, 0, n);
    text::law_trim_keeps_the_stretch(t, i, j);
    law_selection_is_the_stretch(t, i, j);
}

/// Where ten readings bring nothing new, nothing is captured.
pub proof fn law_nothing_new_nothing_captured(desktop: Desktop, shown: Seq<char>)
    requires
        desktop.opened && desktop.keyboard,
        desktop.written ==> shown == sentinel_of(
            desktop.process_id,
            match desktop.nanos {
                Some(nanos) => nanos,
                None => 0,
            },
        ),
        !desktop.written ==> shown == (match desktop.text {
            Some(former) => former,
            None => Seq::empty(),
        }),
        forall|m: nat| m < 10 ==> is_stale(#[trigger] (desktop.polled)(m), shown),
    ensures
        capture_trace(Session::fresh(), desktop).last() == CaptureDemand::Finish(None),
{
    law_capture_outcome(desktop);
    lemma_stale_readings(desktop, 0, 10);
    text::law_trim_empty(Seq::<char>::empty());
}

proof fn lemma_trace_unfolds(s: Session, desktop: Desktop)
    requires
        s.wf(),
        s.stage != CaptureStage::Finished,
    ensures
        ({
            let (next, demand) = capture_step(s, desktop.reply(s));
            if demand is Finish {
                capture_trace(s, desktop) == seq![demand]
            } else {
                next.wf() && capture_trace(s, desktop) == seq![demand] + capture_trace(
                    next,
                    desktop,
                )
            }
        }),
{
    law_capture_ends(s, desktop.reply(s));
}

proof fn lemma_polls(s: Session, desktop: Desktop)
    requires
        s.wf(),
        s.stage == CaptureStage::Polling,
    ensures
        ({
            let t = capture_trace(s, desktop);
            &&& 2 <= t.len() <= 11 - s.polls
            &&& forall|i: int| 0 <= i < t.len() - 2 ==> #[trigger] t[i] == CaptureDemand::Poll
            &&& t[t.len() - 2] == s.restoration()
            &&& t[t.len() - 1] is Finish
        }),
    decreases capture_answers_left(s),
{
    let reply = desktop.reply(s);
    let (next, demand) = capture_step(s, reply);
    law_capture_ends(s, reply);
    let rest = capture_trace(next, desktop);
    if next.stage == CaptureStage::Restoring {
        assert(rest =~= seq![capture_step(next, desktop.reply(next)).1]);
    } else {
        lemma_polls(next, desktop);
    }
    let t = capture_trace(s, desktop);
    assert(t == seq![demand] + rest);
    assert forall|i: int| 0 <= i < t.len() - 2 implies #[trigger] t[i] == CaptureDemand::Poll by {
        if i > 0 {
            assert(t[i] == rest[i - 1]);
        }
    }
}

/// All that is asked of the desktop, in order. The text and the image on the
/// clipboard are read before anything is written to it; then the sentinel is
/// written and the selection copied, once each; then the clipboard is read,
/// ten times at most; then it is put back: an image where there was one, else
/// the text where there was any, else it is cleared.
pub proof fn law_capture_in_order(desktop: Desktop)
    ensures
        ({
            let t = capture_trace(Session::fresh(), desktop);
            if !desktop.opened {
                t == seq![CaptureDemand::Finish(None)]
            } else if !desktop.keyboard {
                t == seq![
                    CaptureDemand::ReadText,
                    CaptureDemand::ReadImage,
                    CaptureDemand::StartKeyboard,
                    CaptureDemand::Finish(None),
                ]
            } else {
                &&& 9 <= t.len() <= 18
                &&& t.take(6) == seq![
                    CaptureDemand::ReadText,
                    CaptureDemand::ReadImage,
                    CaptureDemand::StartKeyboard,
                    CaptureDemand::ReadClock,
                    CaptureDemand::WriteSentinel(
                        sentinel_of(
                            desktop.process_id,
                            match desktop.nanos {
                                Some(nanos) => nanos,
                                None => 0,
                            },
                        ),
                    ),
                    CaptureDemand::Copy,
                ]
                &&& forall|i: int|
                    6 <= i < t.len() - 2 ==> #[trigger] t[i] == CaptureDemand::Poll
                &&& desktop.image ==> t[t.len() - 2] == CaptureDemand::RestoreImage
                &&& !desktop.image ==> match desktop.text {
                    Some(former) => if former.len() > 0 {
                        t[t.len() - 2] == CaptureDemand::RestoreText(former)
                    } else {
                        t[t.len() - 2] == CaptureDemand::ClearClipboard
                    },
                    None => t[t.len() - 2] == CaptureDemand::ClearClipboard,
                }
                &&& t[t.len() - 1] is Finish
            }
        }),
{
    let s0 = Session::fresh();
    let t = capture_trace(s0, desktop);
    lemma_trace_unfolds(s0, desktop);
    if desktop.opened {
        let s1 = capture_step(s0, desktop.reply(s0)).0;
        lemma_trace_unfolds(s1, desktop);
        let s2 = capture_step(s1, desktop.reply(s1)).0;
        lemma_trace_unfolds(s2, desktop);
        let s3 = capture_step(s2, desktop.reply(s2)).0;
        lemma_trace_unfolds(s3, desktop);
        if desktop.keyboard {
            let s4 = capture_step(s3, desktop.reply(s3)).0;
            lemma_trace_unfolds(s4, desktop);
            let s5 = capture_step(s4, desktop.reply(s4)).0;
            lemma_trace_unfolds(s5, desktop);
            let s6 = capture_step(s5, desktop.reply(s5)).0;
            lemma_trace_unfolds(s6, desktop);
            let s7 = capture_step(s6, desktop.reply(s6)).0;
            lemma_polls(s7, desktop);
            let rest = capture_trace(s7, desktop);
            let head = seq![
                CaptureDemand::ReadText,
                CaptureDemand::ReadImage,
                CaptureDemand::StartKeyboard,
                CaptureDemand::ReadClock,
                CaptureDemand::WriteSentinel(desktop.sentinel()),
                CaptureDemand::Copy,
            ];
            assert(t =~= head + seq![CaptureDemand::Poll] + rest);
            assert(t.take(6) =~= head);
            assert forall|i: int| 6 <= i < t.len() - 2 implies #[trigger] t[i]
                == CaptureDemand::Poll by {
                if i > 6 {
                    assert(t[i] == rest[i - 7]);
                }
            }
            assert(t[t.len() - 2] == rest[rest.len() - 2]);
            assert(t[t.len() - 1] == rest[rest.len() - 1]);
        } else {
            assert(t =~= seq![
                CaptureDemand::ReadText,
                CaptureDemand::ReadImage,
                CaptureDemand::StartKeyboard,
                CaptureDemand::Finish(None),
            ]);
        }
    }
}

/// The sentinel names the process and the moment in full, between fixed words.
pub proof fn law_sentinel_reads(process_id: nat, nanos: nat)
    ensures
        ({
            let s = sentinel_of(process_id, nanos);
            let a = text::decimal(process_id);
            let b = text::decimal(nanos);
            &&& s.len() == a.len() + b.len() + 35
            &&& s.subrange(32, 32int + a.len()) == a
            &&& s.subrange(33int + a.len(), s.len() - 2) == b
        }),
{
    reveal_strlit("__HOVER_DICT_CLIPBOARD_SENTINEL_");
    reveal_strlit("_");
    reveal_strlit("__");
    let s = sentinel_of(process_id, nanos);
    let a = text::decimal(process_id);
    let b = text::decimal(nanos);
    assert(s.subrange(32, 32int + a.len()) =~= a);
    assert(s.subrange(33int + a.len(), s.len() - 2) =~= b);
}

/// No two moments and processes share a sentinel.
pub proof fn law_sentinel_injective(p1: nat, n1: nat, p2: nat, n2: nat)
    ensures
        sentinel_of(p1, n1) == sentinel_of(p2, n2) ==> p1 == p2 && n1 == n2,
{
    if sentinel_of(p1, n1) == sentinel_of(p2, n2) {
        let head = "__HOVER_DICT_CLIPBOARD_SENTINEL_"@;
        let (a1, b1, a2, b2) = (
            text::decimal(p1),
            text::decimal(n1),
            text::decimal(p2),
            text::decimal(n2),
        );
        let s = sentinel_of(p1, n1);
        let h = head.len() as int;
        reveal_strlit("_");
        reveal_strlit("__");
        text::law_decimal_digits(p1);
        text::law_decimal_digits(p2);
        assert(s[h + a1.len()] == '_');
        assert(s[h + a2.len()] == '_') by {
            assert(sentinel_of(p2, n2)[h + a2.len()] == '_');
        }
        if a1.len() < a2.len() {
            assert(sentinel_of(p2, n2)[h + a1.len()] == a2[a1.len() as int]);
            assert(false);
        }
        if a2.len() < a1.len() {
            assert(s[h + a2.len()] == a1[a2.len() as int]);
            assert(false);
        }
        assert(s.subrange(h, h + a1.len()) =~= a1);
        assert(sentinel_of(p2, n2).subrange(h, h + a2.len()) =~= a2);
        assert(s.len() == h + a1.len() + 1 + b1.len() + 2);
        assert(sentinel_of(p2, n2).len() == h + a2.len() + 1 + b2.len() + 2);
        assert(s.subrange(h + a1.len() + 1, s.len() - 2) =~= b1);
        assert(sentinel_of(p2, n2).subrange(h + a2.len() + 1, s.len() - 2) =~= b2);
        text::law_decimal_injective(p1, p2);
        text::law_decimal_injective(n1, n2);
    }
}

} // verus!
