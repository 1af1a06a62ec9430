//! Transient TUI status and progress messages.

use vstd::prelude::*;

use crate::chars::{chars_of, string_from_chars};

verus! {

/// Number of 250 ms event-loop ticks before a success message expires.
pub const SUCCESS_TICKS: u16 = 16;
/// Number of ticks before a warning expires.
pub const WARNING_TICKS: u16 = 24;
/// Number of ticks before an error expires.
pub const ERROR_TICKS: u16 = 40;

/// Semantic category for a status message, in increasing priority.
#[derive(Debug, Clone, Copy, PartialEq, Eq, Structural)]
pub enum StatusKind {
    Success,
    Running,
    Warning,
    Error,
}

/// Priority rank of a kind: Success < Running < Warning < Error.
pub open spec fn kind_rank(kind: StatusKind) -> nat {
    match kind {
        StatusKind::Success => 0,
        StatusKind::Running => 1,
        StatusKind::Warning => 2,
        StatusKind::Error => 3,
    }
}

/// How many ticks a message of this kind lives; running messages persist.
pub open spec fn kind_lifetime(kind: StatusKind) -> Option<u16> {
    match kind {
        StatusKind::Success => Some(SUCCESS_TICKS),
        StatusKind::Warning => Some(WARNING_TICKS),
        StatusKind::Error => Some(ERROR_TICKS),
        StatusKind::Running => None,
    }
}

impl StatusKind {
    pub fn label(self) -> (s: &'static str)
        ensures
            s@ == match self {
                StatusKind::Success => "Success"@,
                StatusKind::Running => "Running"@,
                StatusKind::Warning => "Warning"@,
                StatusKind::Error => "Error"@,
            },
    {
        match self {
            StatusKind::Success => "Success",
            StatusKind::Running => "Running",
            StatusKind::Warning => "Warning",
            StatusKind::Error => "Error",
        }
    }

    /// Priority rank used when two messages compete for the status line.
    pub fn rank(self) -> (r: u8)
        ensures
            r == kind_rank(self),
    {
        match self {
            StatusKind::Success => 0,
            StatusKind::Running => 1,
            StatusKind::Warning => 2,
            StatusKind::Error => 3,
        }
    }

    fn lifetime(self) -> (r: Option<u16>)
        ensures
            r == kind_lifetime(self),
    {
        match self {
            StatusKind::Success => Some(SUCCESS_TICKS),
            StatusKind::Warning => Some(WARNING_TICKS),
            StatusKind::Error => Some(ERROR_TICKS),
            StatusKind::Running => None,
        }
    }
}

/// A typed status message with deterministic tick-based expiry.
#[derive(Debug)]
pub struct StatusMessage {
    pub kind: StatusKind,
    pub text: String,
    remaining_ticks: Option<u16>,
}

/// Whether `pattern` occurs in `text` starting at character `i`.
pub open spec fn occurs_at(text: Seq<char>, pattern: Seq<char>, i: int) -> bool {
    0 <= i && i + pattern.len() <= text.len() && text.subrange(i, i + pattern.len()) == pattern
}

/// Whether `pattern` occurs anywhere in `text`.
pub open spec fn contains_seq(text: Seq<char>, pattern: Seq<char>) -> bool {
    exists|i: int| occurs_at(text, pattern, i)
}

/// Whether `pattern` occurs in `text` at character `i`, computed.
fn matches_at(text: &Vec<char>, pattern: &Vec<char>, i: usize) -> (r: bool)
    requires
        i + pattern.len() <= text.len(),
    ensures
        r == occurs_at(text@, pattern@, i as int),
{
    let mut j: usize = 0;
    while j < pattern.len()
        invariant
            j <= pattern.len(),
            i + pattern.len() <= text.len(),
            forall|k: int| 0 <= k < j ==> text@[i + k] == pattern@[k],
        decreases pattern.len() - j,
    {
        if text[i + j] != pattern[j] {
            assert(text@.subrange(i as int, i + pattern.len())[j as int] != pattern@[j as int]);
            return false;
        }
        j = j + 1;
    }
    assert(text@.subrange(i as int, i + pattern.len()) =~= pattern@);
    true
}

/// Substring search over characters.
pub fn contains_chars(text: &Vec<char>, pattern: &Vec<char>) -> (r: bool)
    ensures
        r == contains_seq(text@, pattern@),
{
    if pattern.len() > text.len() {
        return false;
    }
    let last = text.len() - pattern.len();
    let mut i: usize = 0;
    loop
        invariant
            last + pattern.len() == text.len(),
            i <= last,
            forall|k: int| 0 <= k < i ==> !occurs_at(text@, pattern@, k),
        ensures
            forall|k: int| 0 <= k <= last ==> !occurs_at(text@, pattern@, k),
        decreases last - i,
    {
        if matches_at(text, pattern, i) {
            return true;
        }
        if i == last {
            break;
        }
        i = i + 1;
    }
    assert forall|k: int| !occurs_at(text@, pattern@, k) by {
        if 0 <= k && k + pattern.len() <= text.len() {
            assert(k <= last);
        }
    }
    false
}

/// Abstract content of a status message.
pub struct StatusModel {
    pub kind: StatusKind,
    pub text: Seq<char>,
    /// Remaining ticks before expiry; `None` never expires.
    pub remaining: Option<u16>,
}

impl View for StatusMessage {
    type V = StatusModel;

    closed spec fn view(&self) -> StatusModel {
        StatusModel { kind: self.kind, text: self.text@, remaining: self.remaining_ticks }
    }
}

impl StatusMessage {
    pub fn new(kind: StatusKind, text: &str) -> (m: Self)
        ensures
            m@.kind == kind,
            m@.text == text@,
            m@.remaining == kind_lifetime(kind),
    {
        let chars = chars_of(text);
        StatusMessage { kind, text: string_from_chars(chars.as_slice()), remaining_ticks: kind.lifetime() }
    }

    pub fn success(text: &str) -> (m: Self)
        ensures
            m@.kind == StatusKind::Success,
            m@.text == text@,
            m@.remaining == Some(SUCCESS_TICKS),
    {
        Self::new(StatusKind::Success, text)
    }

    pub fn warning(text: &str) -> (m: Self)
        ensures
            m@.kind == StatusKind::Warning,
            m@.text == text@,
            m@.remaining == Some(WARNING_TICKS),
    {
        Self::new(StatusKind::Warning, text)
    }

    pub fn error(text: &str) -> (m: Self)
        ensures
            m@.kind == StatusKind::Error,
            m@.text == text@,
            m@.remaining == Some(ERROR_TICKS),
    {
        Self::new(StatusKind::Error, text)
    }

    /// The kind of the message.
    pub fn kind(&self) -> (k: StatusKind)
        ensures
            k == self@.kind,
    {
        self.kind
    }

    /// The text of the message.
    pub fn text(&self) -> (t: &str)
        ensures
            t@ == self@.text,
    {
        self.text.as_str()
    }

    pub fn running(text: &str) -> (m: Self)
        ensures
            m@.kind == StatusKind::Running,
            m@.text == text@,
            m@.remaining == None::<u16>,
    {
        Self::new(StatusKind::Running, text)
    }

    /// Advance the lifecycle by one event-loop tick. Returns true on expiry.
    pub fn tick(&mut self) -> (expired: bool)
        ensures
            (final(self)@, expired) == message_tick(old(self)@),
            final(self)@.kind == old(self)@.kind,
            final(self)@.text == old(self)@.text,
            match old(self)@.remaining {
                None => final(self)@.remaining == None::<u16> && !expired,
                Some(r) => {
                    let next: u16 = if r == 0 { 0 } else { (r - 1) as u16 };
                    &&& final(self)@.remaining == Some(next)
                    &&& expired == (next == 0)
                },
            },
    {
        match self.remaining_ticks {
            None => false,
            Some(r) => {
                let next = r.saturating_sub(1);
                self.remaining_ticks = Some(next);
                next == 0
            },
        }
    }

    pub fn contains(&self, pattern: &str) -> (r: bool)
        ensures
            r == contains_seq(self@.text, pattern@),
    {
        let text = chars_of(self.text.as_str());
        let pat = chars_of(pattern);
        contains_chars(&text, &pat)
    }
}

/// Whether publishing `incoming` replaces what the slot currently shows.
pub open spec fn publish_replaces(slot: Option<StatusMessage>, incoming: StatusMessage) -> bool {
    match slot {
        None => true,
        Some(current) => current@.kind == StatusKind::Running || kind_rank(incoming@.kind)
            >= kind_rank(current@.kind),
    }
}

/// Publish a message using semantic priority. A task completion may always
/// replace its running indicator; otherwise lower-priority feedback cannot
/// hide a more important transient message.
pub fn publish(slot: &mut Option<StatusMessage>, incoming: StatusMessage)
    ensures
        publish_replaces(*old(slot), incoming) ==> *final(slot) == Some(incoming),
        !publish_replaces(*old(slot), incoming) ==> *final(slot) == *old(slot),
{
    let replace = match slot {
        None => true,
        Some(current) => current.kind == StatusKind::Running || incoming.kind.rank()
            >= current.kind.rank(),
    };
    if replace {
        *slot = Some(incoming);
    }
}

/// A message of a transient kind expires on exactly the tick that uses up
/// its lifetime: with `r` ticks left, each tick before the last reports no
/// expiry and the `r`-th reports expiry.
pub proof fn lemma_expiry_countdown(r: u16, n: u16)
    requires
        1 <= n <= r,
    ensures
        ({
            let left: u16 = (r - n) as u16;
            left == 0 <==> n == r
        }),
{
}

/// An error is never displaced by a success or running message, and a
/// running indicator is always displaced by whatever is published next.
pub proof fn lemma_publish_priority(current: StatusMessage, incoming: StatusMessage)
    ensures
        current@.kind == StatusKind::Error && incoming@.kind != StatusKind::Error
            ==> !publish_replaces(Some(current), incoming),
        current@.kind == StatusKind::Running ==> publish_replaces(Some(current), incoming),
        kind_rank(incoming@.kind) >= kind_rank(current@.kind) ==> publish_replaces(
            Some(current),
            incoming,
        ),
{
}

/// What one tick does to a shown status: a message without a lifetime
/// stays; one with a tick left goes; any other loses a tick.
pub open spec fn after_tick(o: Option<StatusModel>) -> Option<StatusModel> {
    match o {
        None => None,
        Some(m) => match m.remaining {
            None => Some(m),
            Some(r) => if r <= 1 {
                None
            } else {
                Some(StatusModel { remaining: Some((r - 1) as u16), ..m })
            },
        },
    }
}

/// A shown status after `n` ticks.
pub open spec fn after_ticks(o: Option<StatusModel>, n: nat) -> Option<StatusModel>
    decreases n,
{
    if n == 0 {
        o
    } else {
        after_tick(after_ticks(o, (n - 1) as nat))
    }
}

proof fn lemma_ticks_count_down(m: StatusModel, n: nat)
    requires
        m.remaining matches Some(r) ==> r >= 1,
    ensures
        match m.remaining {
            None => after_ticks(Some(m), n) == Some(m),
            Some(r) => if n < r {
                after_ticks(Some(m), n) == Some(StatusModel { remaining: Some((r - n) as u16), ..m })
            } else {
                after_ticks(Some(m), n) is None
            },
        },
    decreases n,
{
    if n > 0 {
        lemma_ticks_count_down(m, (n - 1) as nat);
    } else {
        if m.remaining is Some {
            assert(StatusModel { remaining: Some((m.remaining->0 - 0) as u16), ..m } == m);
        }
    }
}

/// A freshly published message of a running task never expires. Any other
/// message keeps its kind and text for each tick before its lifetime
/// (16, 24 or 40 ticks for a success, a warning or an error) is used up,
/// and is gone from the tick that uses it up on.
pub proof fn lemma_message_lifetime(m: StatusModel, n: nat)
    requires
        m.remaining == kind_lifetime(m.kind),
    ensures
        m.kind == StatusKind::Running ==> after_ticks(Some(m), n) == Some(m),
        m.kind != StatusKind::Running ==> {
            let life = kind_lifetime(m.kind)->0;
            &&& n < life ==> (after_ticks(Some(m), n) matches Some(x) && x.kind == m.kind && x.text == m.text)
            &&& n >= life ==> after_ticks(Some(m), n) is None
        },
{
    lemma_ticks_count_down(m, n);
}

/// One tick of a message: a message without a lifetime is unchanged and
/// never expires; otherwise a tick is used up (none below zero), and the
/// message has expired when none is left.
pub open spec fn message_tick(m: StatusModel) -> (StatusModel, bool) {
    match m.remaining {
        None => (m, false),
        Some(r) => {
            let next: u16 = if r == 0 { 0 } else { (r - 1) as u16 };
            (StatusModel { remaining: Some(next), ..m }, next == 0)
        },
    }
}

/// A message after `n` ticks.
pub open spec fn message_ticks(m: StatusModel, n: nat) -> StatusModel
    decreases n,
{
    if n == 0 {
        m
    } else {
        message_tick(message_ticks(m, (n - 1) as nat)).0
    }
}

/// What the `n`-th tick of a message reports (`n` at least one).
pub open spec fn expired_on(m: StatusModel, n: nat) -> bool {
    message_tick(message_ticks(m, (n - 1) as nat)).1
}

proof fn lemma_message_ticks(m: StatusModel, n: nat)
    ensures
        message_ticks(m, n).kind == m.kind,
        message_ticks(m, n).text == m.text,
        match m.remaining {
            None => message_ticks(m, n).remaining == None::<u16>,
            Some(r) => message_ticks(m, n).remaining == Some((if n <= r { r - n } else { 0 }) as u16),
        },
    decreases n,
{
    if n > 0 {
        lemma_message_ticks(m, (n - 1) as nat);
    }
}

/// Ticking a freshly made message, call after call: one of a running task
/// never reports expiry; any other keeps its kind and text, reports no
/// expiry on ticks 1 to its lifetime minus one (16, 24 or 40 ticks for a
/// success, a warning or an error), and reports expiry on the tick that
/// uses the lifetime up and on every tick after.
pub proof fn lemma_tick_calls(m: StatusModel, n: nat)
    requires
        m.remaining == kind_lifetime(m.kind),
        n >= 1,
    ensures
        message_ticks(m, n).kind == m.kind,
        message_ticks(m, n).text == m.text,
        m.kind == StatusKind::Running ==> !expired_on(m, n),
        m.kind != StatusKind::Running ==> (expired_on(m, n) <==> n >= kind_lifetime(m.kind)->0),
{
    lemma_message_ticks(m, n);
    lemma_message_ticks(m, (n - 1) as nat);
}

} // verus!
