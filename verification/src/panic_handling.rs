//! The crash bridge: what turns a panic on one of the engine's threads into a
//! rejection that the host can observe, for everyone who asked to be told.

use vstd::prelude::*;

verus! {

/// What a panic carried with it.
#[derive(Clone, Debug, PartialEq, Eq)]
pub enum PanicPayload {
    /// A string literal.
    Literal(String),
    /// An owned string.
    Owned(String),
    /// Anything else.
    Opaque,
}

/// The text that stands for a payload that is not a string.
pub open spec fn fallback_text() -> Seq<char> {
    "Engine crashed with no message"@
}

impl PanicPayload {
    /// The message that the payload stands for.
    pub open spec fn text(self) -> Seq<char> {
        match self {
            PanicPayload::Literal(message) => message@,
            PanicPayload::Owned(message) => message@,
            PanicPayload::Opaque => fallback_text(),
        }
    }

    /// The message that the payload stands for.
    pub fn message(&self) -> (message: String)
        ensures
            message@ == self.text(),
    {
        match self {
            PanicPayload::Literal(message) => message.clone(),
            PanicPayload::Owned(message) => message.clone(),
            PanicPayload::Opaque => String::from_str("Engine crashed with no message"),
        }
    }
}

/// Where a panic was raised.
#[derive(Clone, Debug, PartialEq, Eq)]
pub struct PanicLocation {
    pub file: String,
    pub line: u32,
    pub column: u32,
}

/// The character for one decimal digit.
pub open spec fn digit(d: nat) -> char
    recommends
        d < 10,
{
    if d == 0 {
        '0'
    } else if d == 1 {
        '1'
    } else if d == 2 {
        '2'
    } else if d == 3 {
        '3'
    } else if d == 4 {
        '4'
    } else if d == 5 {
        '5'
    } else if d == 6 {
        '6'
    } else if d == 7 {
        '7'
    } else if d == 8 {
        '8'
    } else {
        '9'
    }
}

/// A number in decimal, without leading zeros.
pub open spec fn decimal(n: nat) -> Seq<char>
    decreases n,
{
    if n < 10 {
        seq![digit(n)]
    } else {
        decimal(n / 10).push(digit(n % 10))
    }
}

/// A location as `file:line:column`.
pub open spec fn location_text(file: Seq<char>, line: u32, column: u32) -> Seq<char> {
    file + seq![':'] + decimal(line as nat) + seq![':'] + decimal(column as nat)
}

/// The text of a crash report: the message, the location and the backtrace, one
/// below the other.
pub open spec fn crash_text(
    message: Seq<char>,
    file: Seq<char>,
    line: u32,
    column: u32,
    backtrace: Seq<char>,
) -> Seq<char> {
    message + seq!['\n'] + location_text(file, line, column) + seq!['\n'] + backtrace
}

fn digit_str(d: u32) -> (text: &'static str)
    requires
        d < 10,
    ensures
        text@ == seq![digit(d as nat)],
{
    proof {
        reveal_strlit("0");
        reveal_strlit("1");
        reveal_strlit("2");
        reveal_strlit("3");
        reveal_strlit("4");
        reveal_strlit("5");
        reveal_strlit("6");
        reveal_strlit("7");
        reveal_strlit("8");
        reveal_strlit("9");
    }
    let text = if d == 0 {
        "0"
    } else if d == 1 {
        "1"
    } else if d == 2 {
        "2"
    } else if d == 3 {
        "3"
    } else if d == 4 {
        "4"
    } else if d == 5 {
        "5"
    } else if d == 6 {
        "6"
    } else if d == 7 {
        "7"
    } else if d == 8 {
        "8"
    } else {
        "9"
    };
    assert(text@ =~= seq![digit(d as nat)]);
    text
}

/// Appends `n` in decimal to `text`.
pub fn push_decimal(text: &mut String, n: u32)
    ensures
        final(text)@ == old(text)@ + decimal(n as nat),
    decreases n,
{
    if n >= 10 {
        push_decimal(text, n / 10);
    }
    text.append(digit_str(n % 10));
    assert(text@ =~= old(text)@ + decimal(n as nat));
}

/// Writes the report of a crash.
pub fn crash_message(payload: &PanicPayload, location: &PanicLocation, backtrace: &str) -> (report:
    String)
    ensures
        report@ == crash_text(
            payload.text(),
            location.file@,
            location.line,
            location.column,
            backtrace@,
        ),
{
    proof {
        reveal_strlit("\n");
        reveal_strlit(":");
    }
    let mut report = payload.message();
    report.append("\n");
    report.append(location.file.as_str());
    report.append(":");
    push_decimal(&mut report, location.line);
    report.append(":");
    push_decimal(&mut report, location.column);
    report.append("\n");
    report.append(backtrace);
    proof {
        assert(report@ =~= crash_text(
            payload.text(),
            location.file@,
            location.line,
            location.column,
            backtrace@,
        ));
    }
    report
}

/// The bridge as its users see it: the host's channel, which is there exactly
/// while the bridge is armed, and the listeners that wait to be told, first come
/// first.
pub struct CrashState<C, L> {
    pub channel: Option<C>,
    pub pending: Seq<L>,
}

impl<C, L> CrashState<C, L> {
    /// The bridge at rest: no hook is wanted and nobody listens.
    pub open spec fn idle() -> Self {
        CrashState { channel: None, pending: Seq::empty() }
    }

    /// Whether the panic hook is wanted.
    pub open spec fn armed(self) -> bool {
        self.channel is Some
    }

    /// Listeners wait only while the bridge is armed.
    pub open spec fn wf(self) -> bool {
        !self.armed() ==> self.pending.len() == 0
    }

    /// The state after a listener has registered. The channel that was there
    /// first stays.
    pub open spec fn after_listen(self, channel: C, listener: L) -> Self {
        CrashState {
            channel: match self.channel {
                Some(first) => Some(first),
                None => Some(channel),
            },
            pending: self.pending.push(listener),
        }
    }

    /// Whether a panic is reported to the host: only while the bridge is armed,
    /// and only from a thread on which the hook is enabled.
    pub open spec fn reports(self, enabled: bool) -> bool {
        enabled && self.armed()
    }

    /// The state after one listener after another has registered, each over the
    /// same channel.
    pub open spec fn after_listens(self, channel: C, listeners: Seq<L>) -> Self
        decreases listeners.len(),
    {
        if listeners.len() == 0 {
            self
        } else {
            self.after_listens(channel, listeners.drop_last()).after_listen(
                channel,
                listeners.last(),
            )
        }
    }
}

/// Listeners queue up: after any number of registrations all of them wait, behind
/// those that waited before and in the order in which they came, so that one crash,
/// or one call to stop listening, settles every one of them, and each of them once.
pub proof fn lemma_listeners_queue_up<C, L>(state: CrashState<C, L>, channel: C, listeners: Seq<L>)
    requires
        state.wf(),
    ensures
        state.after_listens(channel, listeners).wf(),
        state.after_listens(channel, listeners).pending == state.pending + listeners,
        listeners.len() > 0 ==> state.after_listens(channel, listeners).armed(),
        state.armed() ==> state.after_listens(channel, listeners).channel == state.channel,
    decreases listeners.len(),
{
    if listeners.len() == 0 {
        assert(state.pending + listeners =~= state.pending);
    } else {
        lemma_listeners_queue_up(state, channel, listeners.drop_last());
        assert(state.pending + listeners =~= (state.pending + listeners.drop_last()).push(
            listeners.last(),
        ));
    }
}

/// A bridge at rest reports no panic, on whichever thread the panic is raised.
pub proof fn lemma_bridge_at_rest_is_silent<C, L>(enabled: bool)
    ensures
        !CrashState::<C, L>::idle().reports(enabled),
        CrashState::<C, L>::idle().wf(),
{
}

/// The report of a crash begins with the message of the panic, and the location
/// stands on the line below it.
pub proof fn lemma_report_shows_message_and_location(
    message: Seq<char>,
    file: Seq<char>,
    line: u32,
    column: u32,
    backtrace: Seq<char>,
)
    ensures
        ({
            let report = crash_text(message, file, line, column, backtrace);
            let place = location_text(file, line, column);
            &&& report.subrange(0, message.len() as int) == message
            &&& report[message.len() as int] == '\n'
            &&& report.subrange(message.len() as int + 1, message.len() as int + 1 + place.len()) == place
        }),
{
    let report = crash_text(message, file, line, column, backtrace);
    let place = location_text(file, line, column);
    assert(report.subrange(0, message.len() as int) =~= message);
    assert(report.subrange(message.len() as int + 1, message.len() as int + 1 + place.len()) =~= place);
}

/// The crash bridge. `C` is the channel to the host's event loop, `L` the handle
/// by which one listener's promise is settled.
pub struct CrashBridge<C, L> {
    channel: Option<C>,
    pending: Vec<L>,
}

impl<C, L> View for CrashBridge<C, L> {
    type V = CrashState<C, L>;

    closed spec fn view(&self) -> CrashState<C, L> {
        CrashState { channel: self.channel, pending: self.pending@ }
    }
}

impl<C, L> CrashBridge<C, L> {
    /// A bridge at rest.
    pub fn new() -> (bridge: Self)
        ensures
            bridge@ == CrashState::<C, L>::idle(),
            bridge@.wf(),
    {
        CrashBridge { channel: None, pending: Vec::new() }
    }

    /// The channel to the host, while the bridge is armed.
    pub fn channel(&self) -> (channel: Option<&C>)
        ensures
            channel == match self@.channel {
                Some(c) => Some(&c),
                None => None,
            },
    {
        match &self.channel {
            Some(channel) => Some(channel),
            None => None,
        }
    }

    /// The number of listeners that wait.
    pub fn pending_len(&self) -> (len: usize)
        ensures
            len == self@.pending.len(),
    {
        self.pending.len()
    }
}

/// Registers a listener. The result says whether the panic hook is to be
/// installed now, which is so when the bridge was at rest.
pub fn listen_for_crash<C, L>(bridge: &mut CrashBridge<C, L>, channel: C, listener: L) -> (install:
    bool)
    requires
        old(bridge)@.wf(),
    ensures
        final(bridge)@ == old(bridge)@.after_listen(channel, listener),
        final(bridge)@.wf(),
        final(bridge)@.armed(),
        install == !old(bridge)@.armed(),
{
    let install = bridge.channel.is_none();
    if install {
        bridge.channel = Some(channel);
    }
    bridge.pending.push(listener);
    install
}

/// Stops listening. Every listener that waits is handed back, in the order of
/// registration, to be resolved with the value that says that nothing crashed; the
/// channel is dropped and the bridge is at rest, so the hook is to be removed.
pub fn stop_listening_for_crash<C, L>(bridge: &mut CrashBridge<C, L>) -> (released: Vec<L>)
    requires
        old(bridge)@.wf(),
    ensures
        released@ == old(bridge)@.pending,
        final(bridge)@ == CrashState::<C, L>::idle(),
        final(bridge)@.wf(),
{
    bridge.channel = None;
    let mut released: Vec<L> = Vec::new();
    std::mem::swap(&mut released, &mut bridge.pending);
    released
}

/// What the panic hook does with a panic: where the bridge reports it, the text
/// of the report, to be sent over the channel; otherwise nothing.
pub fn panic_hook<C, L>(
    bridge: &CrashBridge<C, L>,
    enabled: bool,
    payload: &PanicPayload,
    location: &PanicLocation,
    backtrace: &str,
) -> (report: Option<String>)
    ensures
        report is Some == bridge@.reports(enabled),
        report matches Some(text) ==> text@ == crash_text(
            payload.text(),
            location.file@,
            location.line,
            location.column,
            backtrace@,
        ),
{
    if enabled && bridge.channel.is_some() {
        Some(crash_message(payload, location, backtrace))
    } else {
        None
    }
}

/// What the host does when the report of a crash reaches it. Every listener that
/// waits is handed back, in the order of registration, to be rejected with the
/// report; the bridge is at rest again, and listening anew arms it.
pub fn crash_delivered<C, L>(bridge: &mut CrashBridge<C, L>) -> (rejected: Vec<L>)
    requires
        old(bridge)@.wf(),
    ensures
        rejected@ == old(bridge)@.pending,
        final(bridge)@ == CrashState::<C, L>::idle(),
        final(bridge)@.wf(),
{
    stop_listening_for_crash(bridge)
}

} // verus!
