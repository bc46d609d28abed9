//! The per-connection session: what happens on each read, operator line and
//! I/O failure. The caller performs the I/O and feeds the outcomes in.
use vstd::prelude::*;
use vstd::string::*;
use vstd::utf8::encode_utf8;
use crate::render::{hex_dump, hex_print, plain_text, plain_view, MAX_DUMP_LEN, NEWLINE};

verus! {

/// What `str::trim` leaves of a line.
pub uninterp spec fn trim_of(s: Seq<char>) -> Seq<char>;

/// Relies on `str::trim`: the line without its leading and trailing
/// whitespace, which depends on the line alone.
#[verifier::external_body]
fn trim_line(s: &str) -> (r: String)
    ensures
        r@ == trim_of(s@),
{
    s.trim().to_string()
}

/// The control line that ends composition and sends the reply.
pub open spec fn end_token() -> Seq<char> {
    seq!['?', 'E', 'N', 'D', '?']
}

/// The control line that removes the last line of the draft.
pub open spec fn revert_token() -> Seq<char> {
    seq!['?', 'R', 'E', 'V', 'E', 'R', 'T', '?']
}

/// `d` without its last line; an empty draft stays empty.
pub open spec fn reverted(d: Seq<Seq<char>>) -> Seq<Seq<char>> {
    if d.len() == 0 { d } else { d.drop_last() }
}

/// The UTF-8 bytes of each line, each followed by a newline.
pub open spec fn reply_body(lines: Seq<Seq<char>>) -> Seq<u8>
    decreases lines.len(),
{
    if lines.len() == 0 {
        Seq::empty()
    } else {
        reply_body(lines.drop_last()) + encode_utf8(lines.last()) + seq![NEWLINE]
    }
}

/// The bytes sent back for a draft: its lines joined by newlines, then a
/// trailing blank line.
pub open spec fn reply_bytes(lines: Seq<Seq<char>>) -> Seq<u8> {
    reply_body(lines) + seq![NEWLINE]
}

/// The reply being written by the operator, one line at a time.
pub struct Draft {
    lines: Vec<String>,
}

impl View for Draft {
    type V = Seq<Seq<char>>;

    closed spec fn view(&self) -> Seq<Seq<char>> {
        self.lines@.map_values(|l: String| l@)
    }
}

impl Draft {
    /// An empty draft.
    pub fn new() -> (r: Draft)
        ensures
            r@ == Seq::<Seq<char>>::empty(),
    {
        let r = Draft { lines: Vec::new() };
        assert(r@ =~= Seq::<Seq<char>>::empty());
        r
    }

    /// Number of lines in the draft.
    pub fn len(&self) -> (r: usize)
        ensures
            r == self@.len(),
    {
        self.lines.len()
    }

    /// Line `i` of the draft.
    pub fn line(&self, i: usize) -> (r: &String)
        requires
            i < self@.len(),
        ensures
            r@ == self@[i as int],
    {
        &self.lines[i]
    }

    /// Appends a line at the end.
    pub fn push_line(&mut self, line: String)
        ensures
            final(self)@ == old(self)@.push(line@),
    {
        let ghost l = line@;
        self.lines.push(line);
        assert(self@ =~= old(self)@.push(l));
    }

    /// Removes the last line; an empty draft stays empty.
    pub fn revert(&mut self)
        ensures
            final(self)@ == reverted(old(self)@),
            old(self)@.len() == 0 ==> final(self)@.len() == 0,
    {
        if self.lines.len() > 0 {
            self.lines.pop();
            assert(self@ =~= old(self)@.drop_last());
        }
    }

    /// The bytes to send: each line followed by a newline, then one more
    /// newline.
    pub fn assemble(&self) -> (r: Vec<u8>)
        ensures
            r@ == reply_bytes(self@),
    {
        let mut out: Vec<u8> = Vec::new();
        let mut i: usize = 0;
        while i < self.lines.len()
            invariant
                i <= self@.len(),
                self@.len() == self.lines@.len(),
                out@ == reply_body(self@.subrange(0, i as int)),
            decreases self.lines.len() - i,
        {
            let mut bytes = self.lines[i].as_str().as_bytes_vec();
            out.append(&mut bytes);
            out.push(NEWLINE);
            proof {
                let next = self@.subrange(0, i + 1);
                assert(next.drop_last() =~= self@.subrange(0, i as int));
                assert(next.last() == self@[i as int]);
            }
            i += 1;
        }
        assert(self@.subrange(0, self@.len() as int) =~= self@);
        out.push(NEWLINE);
        out
    }
}

/// The states of a session.
#[derive(Clone, Copy, Debug, PartialEq, Eq, Structural)]
pub enum Phase {
    /// Waiting for the next payload from the peer.
    AwaitingPayload,
    /// The operator is writing the reply to the last payload.
    ComposingReply,
    /// The session has ended; nothing more happens on it.
    Closed,
}

/// What a read leads to.
pub enum ReadStep {
    /// The peer closed the connection.
    PeerClosed,
    /// The payload is too long to render; the session is closed.
    PayloadTooLarge,
    /// Text to show the operator: the inline view, and the hex dump when the
    /// session is in hex mode.
    Show { plain: Vec<u8>, hex: Option<Vec<u8>> },
}

/// What an operator line leads to.
pub enum LineStep {
    /// The line was added to the draft.
    Appended,
    /// The last line was removed; the draft is to be echoed to the operator.
    Reverted,
    /// Composition is over: these bytes are to be written to the peer.
    Send(Vec<u8>),
}

/// The abstract state of a session.
pub struct SessionView {
    pub phase: Phase,
    pub hex_mode: bool,
    pub draft: Seq<Seq<char>>,
}

/// `v` in the closed state, all else kept.
pub open spec fn closed(v: SessionView) -> SessionView {
    SessionView { phase: Phase::Closed, ..v }
}

/// The state after a read of `n` bytes.
pub open spec fn after_read(v: SessionView, n: nat) -> SessionView {
    if n == 0 || n > MAX_DUMP_LEN {
        closed(v)
    } else {
        SessionView { phase: Phase::ComposingReply, hex_mode: v.hex_mode, draft: Seq::empty() }
    }
}

/// The state after the trimmed operator line `t`.
pub open spec fn after_line(v: SessionView, t: Seq<char>) -> SessionView {
    if t == end_token() {
        SessionView { phase: Phase::AwaitingPayload, ..v }
    } else if t == revert_token() {
        SessionView { draft: reverted(v.draft), ..v }
    } else {
        SessionView { draft: v.draft.push(t), ..v }
    }
}

/// What the trimmed operator line `t` leads to from state `v`.
pub open spec fn line_step_is(v: SessionView, t: Seq<char>, r: LineStep) -> bool {
    if t == end_token() {
        r matches LineStep::Send(bytes) && bytes@ == reply_bytes(v.draft)
    } else if t == revert_token() {
        r is Reverted
    } else {
        r is Appended
    }
}

/// The trimmed form of an operator line; the end of input counts as the
/// end token.
pub open spec fn trimmed_input(line: Option<&str>) -> Seq<char> {
    match line {
        Some(l) => trim_of(l@),
        None => end_token(),
    }
}

/// One connection's session: its phase, its hex-mode flag and its draft.
pub struct Session {
    phase: Phase,
    hex_mode: bool,
    draft: Draft,
}

impl View for Session {
    type V = SessionView;

    closed spec fn view(&self) -> SessionView {
        SessionView { phase: self.phase, hex_mode: self.hex_mode, draft: self.draft@ }
    }
}

impl Session {
    /// A fresh session, awaiting its first payload.
    pub fn new(hex_mode: bool) -> (r: Session)
        ensures
            r@ == (SessionView {
                phase: Phase::AwaitingPayload,
                hex_mode,
                draft: Seq::empty(),
            }),
    {
        Session { phase: Phase::AwaitingPayload, hex_mode, draft: Draft::new() }
    }

    /// The current phase.
    pub fn phase(&self) -> (r: Phase)
        ensures
            r == self@.phase,
    {
        self.phase
    }

    /// Whether payloads are also shown as a hex dump.
    pub fn hex_mode(&self) -> (r: bool)
        ensures
            r == self@.hex_mode,
    {
        self.hex_mode
    }

    /// The reply being composed.
    pub fn draft(&self) -> (r: &Draft)
        ensures
            r@ == self@.draft,
    {
        &self.draft
    }

    /// Handles a read of `n` bytes into `buf`. Zero bytes means the peer has
    /// closed; more than `MAX_DUMP_LEN` closes the session; otherwise the
    /// payload is rendered and composition starts on an empty draft.
    pub fn on_read(&mut self, buf: &[u8], n: usize) -> (r: ReadStep)
        requires
            old(self)@.phase == Phase::AwaitingPayload,
            n <= buf@.len(),
        ensures
            final(self)@ == after_read(old(self)@, n as nat),
            n == 0 <==> r is PeerClosed,
            n == 0 ==> final(self)@.phase == Phase::Closed && final(self)@.draft == old(self)@.draft,
            n > MAX_DUMP_LEN <==> r is PayloadTooLarge,
            r matches ReadStep::Show { plain, hex } ==> {
                &&& plain@ == plain_text(buf@.subrange(0, n as int))
                &&& old(self)@.hex_mode ==> (hex matches Some(h) && h@ == hex_dump(
                    buf@.subrange(0, n as int),
                    true,
                ))
                &&& !old(self)@.hex_mode ==> hex is None
            },
    {
        if n == 0 {
            self.phase = Phase::Closed;
            return ReadStep::PeerClosed;
        }
        let hex = if self.hex_mode {
            match hex_print(buf, n, true) {
                Ok(h) => Some(h),
                Err(_) => {
                    self.phase = Phase::Closed;
                    return ReadStep::PayloadTooLarge;
                },
            }
        } else if n > MAX_DUMP_LEN {
            self.phase = Phase::Closed;
            return ReadStep::PayloadTooLarge;
        } else {
            None
        };
        let plain = plain_view(buf, n);
        self.phase = Phase::ComposingReply;
        self.draft = Draft::new();
        ReadStep::Show { plain, hex }
    }

    /// Handles an operator line that has already been trimmed: the end token
    /// sends the draft, the revert token drops its last line, and any other
    /// line is appended.
    pub fn on_trimmed(&mut self, trimmed: String) -> (r: LineStep)
        requires
            old(self)@.phase == Phase::ComposingReply,
        ensures
            final(self)@ == after_line(old(self)@, trimmed@),
            line_step_is(old(self)@, trimmed@, r),
    {
        let end = String::from_str("?END?");
        let revert = String::from_str("?REVERT?");
        proof {
            reveal_strlit("?END?");
            reveal_strlit("?REVERT?");
            assert(end@ =~= end_token());
            assert(revert@ =~= revert_token());
        }
        if trimmed == end {
            self.phase = Phase::AwaitingPayload;
            LineStep::Send(self.draft.assemble())
        } else if trimmed == revert {
            self.draft.revert();
            LineStep::Reverted
        } else {
            self.draft.push_line(trimmed);
            LineStep::Appended
        }
    }

    /// Handles the next operator line, or the end of operator input (`None`),
    /// which counts as the end token. The line is trimmed first.
    pub fn on_line(&mut self, line: Option<&str>) -> (r: LineStep)
        requires
            old(self)@.phase == Phase::ComposingReply,
        ensures
            final(self)@ == after_line(old(self)@, trimmed_input(line)),
            line_step_is(old(self)@, trimmed_input(line), r),
    {
        let trimmed = match line {
            Some(l) => trim_line(l),
            None => {
                let end = String::from_str("?END?");
                proof {
                    reveal_strlit("?END?");
                    assert(end@ =~= end_token());
                }
                end
            },
        };
        self.on_trimmed(trimmed)
    }

    /// Handles a failed read or write: the session ends.
    pub fn on_io_error(&mut self)
        ensures
            final(self)@ == closed(old(self)@),
    {
        self.phase = Phase::Closed;
    }
}

} // verus!
