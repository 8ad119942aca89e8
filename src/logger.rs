use crate::clock::{local_now, ClockTime};
use crate::level::{admits, clamp_mask, is_admitted, mask_with, mask_without, mask_wf, LogLevel};
use crate::record::{console_line, console_text, format_record, record_text};
use tokio::sync::broadcast::Sender;
use vstd::prelude::*;

verus! {

#[verifier::external_type_specification]
#[verifier::external_body]
#[verifier::reject_recursive_types(T)]
pub struct ExSender<T>(Sender<T>);

/// Which broadcast channel a sending half belongs to: clones of one sender
/// share it.
pub uninterp spec fn channel_of(s: Sender<String>) -> int;

/// How many records a channel keeps for each subscriber that has not read
/// them yet; the oldest go first when more arrive.
pub uninterp spec fn capacity_of(s: Sender<String>) -> nat;

/// How many records each subscriber of the broadcast channel is meant to have
/// waiting at most.
pub const CHANNEL_CAPACITY: usize = 100;

/// Relies on tokio's `broadcast::channel`: opens a channel whose per-subscriber
/// capacity is `capacity` rounded up to a power of two, and keeps its sending
/// half. The first receiver is dropped, so the channel starts with no subscriber.
#[verifier::external_body]
fn open_channel(capacity: usize) -> (r: Sender<String>)
    requires
        0 < capacity <= usize::MAX / 2,
    ensures
        capacity <= capacity_of(r) < 2 * capacity,
{
    tokio::sync::broadcast::channel(capacity).0
}

/// Relies on tokio's `Sender::clone`: another sending half of the same channel.
#[verifier::external_body]
fn share_sender(s: &Sender<String>) -> (r: Sender<String>)
    ensures
        channel_of(r) == channel_of(*s),
        capacity_of(r) == capacity_of(*s),
{
    s.clone()
}

/// Relies on tokio's `Sender::send`: hands the line to every current
/// subscriber without blocking; with no subscriber the line is dropped.
#[verifier::external_body]
fn publish(s: &Sender<String>, line: String) {
    let _ = s.send(line);
}

/// What one log call produced: the console text, where the mask admitted the
/// level, and the line handed to the broadcast channel, where broadcasting is on.
pub struct Emission {
    pub console: Option<String>,
    pub offered: Option<String>,
}

impl Emission {
    /// This is what a logger in state `v` emits for a record of `level`
    /// stamped `t` carrying `message`: the console text exactly where the mask
    /// admits the level, the plain line exactly where broadcasting is on, and
    /// the same line on both.
    pub open spec fn is_emission_of(
        self,
        v: LoggerView,
        level: LogLevel,
        t: ClockTime,
        message: Seq<char>,
    ) -> bool {
        let line = record_text(t, level, v.module, message);
        &&& (self.console is Some <==> admits(v.mask, level))
        &&& (self.console is Some ==> self.console->0@ == console_text(level, line))
        &&& (self.offered is Some <==> v.web_socket)
        &&& (self.offered is Some ==> self.offered->0@ == line)
    }
}

/// What a logger holds, as its contracts speak of it.
pub struct LoggerView {
    /// The levels admitted to the console.
    pub mask: u8,
    /// Whether records are offered to the broadcast channel.
    pub web_socket: bool,
    /// The module label every record carries.
    pub module: Seq<char>,
    /// The broadcast channel the logger publishes to.
    pub channel: int,
    /// That channel's per-subscriber capacity.
    pub capacity: nat,
}

/// A logger of one module: a console filter mask, the module label, and the
/// sending half of a broadcast channel that live viewers subscribe to.
pub struct Logger {
    displayable: u8,
    web_socket: bool,
    module: String,
    log_sender: Sender<String>,
}

impl View for Logger {
    type V = LoggerView;

    closed spec fn view(&self) -> LoggerView {
        LoggerView {
            mask: self.displayable,
            web_socket: self.web_socket,
            module: self.module@,
            channel: channel_of(self.log_sender),
            capacity: capacity_of(self.log_sender),
        }
    }
}

impl Logger {
    pub closed spec fn wf(&self) -> bool {
        mask_wf(self.displayable)
    }

    /// A logger of `module` whose console admits the levels of `displayable`.
    /// Broadcasting starts only with `init_web_socket`, whatever `web_socket` says.
    pub fn new(displayable: u8, web_socket: bool, module: String) -> (r: Logger)
        ensures
            r.wf(),
            r@.mask == displayable & crate::level::ALL_BITS,
            !r@.web_socket,
            r@.module == module@,
            CHANNEL_CAPACITY <= r@.capacity < 2 * CHANNEL_CAPACITY,
    {
        let log_sender = open_channel(CHANNEL_CAPACITY);
        Logger { displayable: clamp_mask(displayable), web_socket: false, module, log_sender }
    }

    /// Replaces the console mask; bits outside the four levels are dropped.
    pub fn set_displayable(&mut self, displayable: u8)
        ensures
            final(self).wf(),
            final(self)@.mask == displayable & crate::level::ALL_BITS,
            final(self)@.web_socket == old(self)@.web_socket,
            final(self)@.module == old(self)@.module,
            final(self)@.channel == old(self)@.channel,
            final(self)@.capacity == old(self)@.capacity,
            forall|l: LogLevel| #[trigger] admits(final(self)@.mask, l) == admits(displayable, l),
    {
        self.displayable = clamp_mask(displayable);
    }

    /// Adds the bits of `flag` to the console mask.
    pub fn add_displayable_flag(&mut self, flag: LogLevel)
        requires
            old(self).wf(),
        ensures
            final(self).wf(),
            final(self)@.mask == mask_with(old(self)@.mask, flag),
            final(self)@.web_socket == old(self)@.web_socket,
            final(self)@.module == old(self)@.module,
            final(self)@.channel == old(self)@.channel,
            final(self)@.capacity == old(self)@.capacity,
    {
        let m = self.displayable | flag.bits();
        let b = flag.bits();
        let old_m = self.displayable;
        proof {
            crate::level::lemma_bits_within_all(flag);
        }
        assert(m == m & 15u8) by (bit_vector)
            requires
                old_m == old_m & 15u8,
                b == b & 15u8,
                m == old_m | b,
        ;
        self.displayable = m;
    }

    /// Takes the bits of `flag` out of the console mask.
    pub fn remove_displayable_flag(&mut self, flag: LogLevel)
        requires
            old(self).wf(),
        ensures
            final(self).wf(),
            final(self)@.mask == mask_without(old(self)@.mask, flag),
            final(self)@.web_socket == old(self)@.web_socket,
            final(self)@.module == old(self)@.module,
            final(self)@.channel == old(self)@.channel,
            final(self)@.capacity == old(self)@.capacity,
    {
        let b = flag.bits();
        let old_m = self.displayable;
        let m = old_m & !b;
        assert(m == m & 15u8) by (bit_vector)
            requires
                old_m == old_m & 15u8,
                m == old_m & !b,
        ;
        self.displayable = m;
    }

    /// Starts offering every record to the broadcast channel, and returns a
    /// sending half of the logger's own channel for the server that lets
    /// viewers subscribe. Where broadcasting is already on, nothing changes and
    /// nothing is returned.
    pub fn init_web_socket(&mut self) -> (r: Option<Sender<String>>)
        ensures
            r is Some <==> !old(self)@.web_socket,
            r is Some ==> channel_of(r->0) == old(self)@.channel,
            final(self).wf() == old(self).wf(),
            final(self)@.web_socket,
            final(self)@.mask == old(self)@.mask,
            final(self)@.module == old(self)@.module,
            final(self)@.channel == old(self)@.channel,
            final(self)@.capacity == old(self)@.capacity,
    {
        if self.web_socket {
            return None;
        }
        let thread_log_sender = share_sender(&self.log_sender);
        self.web_socket = true;
        Some(thread_log_sender)
    }

    /// Hands a formatted line to the broadcast channel where broadcasting is
    /// on, and returns the line it handed over.
    fn send_to_socket(&self, formatted_message: String) -> (offered: Option<String>)
        ensures
            offered is Some <==> self@.web_socket,
            offered is Some ==> offered->0@ == formatted_message@,
    {
        if self.web_socket {
            let line = formatted_message.clone();
            publish(&self.log_sender, formatted_message);
            Some(line)
        } else {
            None
        }
    }

    /// Emits a record of `level` stamped `time`: hands its line to the
    /// broadcast channel exactly where broadcasting is on, and returns that
    /// line with the colored console text, present exactly where the mask
    /// admits the level.
    pub fn emit_at(&self, level: LogLevel, time: &ClockTime, message: &str) -> (r: Emission)
        requires
            time.wf(),
            level.is_record_level(),
        ensures
            r.is_emission_of(self@, level, *time, message@),
    {
        let formatted_message = format_record(time, level, self.module.as_str(), message);
        let console = if is_admitted(self.displayable, level) {
            Some(console_line(level, formatted_message.as_str()))
        } else {
            None
        };
        let offered = self.send_to_socket(formatted_message);
        Emission { console, offered }
    }

    /// Emits a record of `level` stamped with the local time now.
    fn emit_now(&self, level: LogLevel, message: &str) -> (r: Emission)
        requires
            level.is_record_level(),
        ensures
            exists|t: ClockTime| t.wf() && #[trigger] r.is_emission_of(self@, level, t, message@),
    {
        let time = local_now();
        self.emit_at(level, &time, message)
    }

    /// Logs `message` at debug level, stamped with the local time now.
    pub fn log_debug(&self, message: &str) -> (r: Emission)
        ensures
            exists|t: ClockTime|
                t.wf() && #[trigger] r.is_emission_of(self@, LogLevel::Debug, t, message@),
    {
        self.emit_now(LogLevel::Debug, message)
    }

    /// Logs `message` at info level, stamped with the local time now.
    pub fn log_info(&self, message: &str) -> (r: Emission)
        ensures
            exists|t: ClockTime|
                t.wf() && #[trigger] r.is_emission_of(self@, LogLevel::Info, t, message@),
    {
        self.emit_now(LogLevel::Info, message)
    }

    /// Logs `message` at warn level, stamped with the local time now.
    pub fn log_warn(&self, message: &str) -> (r: Emission)
        ensures
            exists|t: ClockTime|
                t.wf() && #[trigger] r.is_emission_of(self@, LogLevel::Warn, t, message@),
    {
        self.emit_now(LogLevel::Warn, message)
    }

    /// Logs `message` at error level, stamped with the local time now.
    pub fn log_error(&self, message: &str) -> (r: Emission)
        ensures
            exists|t: ClockTime|
                t.wf() && #[trigger] r.is_emission_of(self@, LogLevel::Error, t, message@),
    {
        self.emit_now(LogLevel::Error, message)
    }
}

/// The two sinks are independent: with broadcasting on and an empty mask, a
/// record reaches no console but its line is still handed to the channel.
pub proof fn lemma_silent_console_still_broadcasts(
    e: Emission,
    v: LoggerView,
    level: LogLevel,
    t: ClockTime,
    message: Seq<char>,
)
    requires
        e.is_emission_of(v, level, t, message),
        v.web_socket,
        v.mask == 0,
    ensures
        e.console is None,
        e.offered is Some,
        e.offered->0@ == record_text(t, level, v.module, message),
{
    crate::level::lemma_empty_mask_silent(level);
}

/// The console and the channel carry the same line: the console text is that
/// line in its level's color.
pub proof fn lemma_same_line_on_both_sinks(
    e: Emission,
    v: LoggerView,
    level: LogLevel,
    t: ClockTime,
    message: Seq<char>,
)
    requires
        e.is_emission_of(v, level, t, message),
        e.console is Some,
        e.offered is Some,
    ensures
        e.console->0@ == console_text(level, e.offered->0@),
{
}

} // verus!
