//! Discovery Server bookkeeping: listen settings, bind choices and the
//! bounded, human-readable event log shown by the CLI and GUI.

use vstd::prelude::*;

use crate::text::{decimal, joined, owned, text_eq, trim, trimmed, u16_to_text};
use crate::editing::{apply_text_key, key_effect};

verus! {

/// Maximum retained GUI/CLI event lines.
pub const MAX_EVENTS: usize = 200;

/// Default TCP port of an OMT discovery server.
pub const DISCOVERY_SERVER_DEFAULT_PORT: u16 = 6399;

/// Bind + port settings for the in-process discovery server.
#[derive(Debug, Clone, PartialEq, Eq)]
pub struct ServerSettings {
    /// Bind host (`::`, `0.0.0.0`, or a unicast address).
    pub bind: String,
    /// TCP port (default 6399).
    pub port: u16,
}

impl Default for ServerSettings {
    fn default() -> (s: Self)
        ensures
            s.bind@ == "::"@,
            s.port == 6399,
    {
        ServerSettings { bind: owned("::"), port: DISCOVERY_SERVER_DEFAULT_PORT }
    }
}

/// How a bind host is to be turned into a socket address.
#[derive(Debug, Clone, PartialEq, Eq)]
pub enum BindTarget {
    /// Dual-stack IPv6 any (`[::]:port`), the official default.
    DualStackAny,
    /// IPv4 any (`0.0.0.0:port`).
    Ipv4Any,
    /// An address literal to parse (falls back to dual-stack any when it
    /// does not parse).
    Literal(String),
}

/// Classify a bind host: empty or `::` means dual-stack any, `0.0.0.0` means
/// IPv4 any, anything else is an address literal (trimmed).
pub fn classify_bind(bind: &str) -> (t: BindTarget)
    ensures
        ({
            let b = trim(bind@);
            if b.len() == 0 || b == "::"@ {
                t == BindTarget::DualStackAny
            } else if b == "0.0.0.0"@ {
                t == BindTarget::Ipv4Any
            } else {
                t matches BindTarget::Literal(s) && s@ == b
            }
        }),
{
    let b = trimmed(bind);
    if b.unicode_len() == 0 || text_eq(b.as_str(), "::") {
        BindTarget::DualStackAny
    } else if text_eq(b.as_str(), "0.0.0.0") {
        BindTarget::Ipv4Any
    } else {
        BindTarget::Literal(b)
    }
}

/// A selectable listen address (all-interfaces or a NIC unicast IP).
#[derive(Clone, Debug, PartialEq, Eq)]
pub struct BindChoice {
    /// Value written into the bind field (`::`, `0.0.0.0`, or a unicast IP).
    pub bind: String,
    /// Interface name when this is a NIC address.
    pub iface: Option<String>,
}

/// One address of a network interface, as the host reports it.
#[derive(Debug, Clone)]
pub struct InterfaceAddr {
    /// Interface name.
    pub name: String,
    /// The address as text.
    pub ip: String,
    /// Whether the address is the unspecified address.
    pub unspecified: bool,
}

pub open spec fn choice_view(c: BindChoice) -> (Seq<char>, Option<Seq<char>>) {
    (
        c.bind@,
        match c.iface {
            Some(n) => Some(n@),
            None => None,
        },
    )
}

pub open spec fn choices_view(v: Seq<BindChoice>) -> Seq<(Seq<char>, Option<Seq<char>>)> {
    v.map_values(|c: BindChoice| choice_view(c))
}

/// Some choice of `s` binds `b`.
pub open spec fn binds_to(s: Seq<(Seq<char>, Option<Seq<char>>)>, b: Seq<char>) -> bool {
    exists|i: int| 0 <= i < s.len() && (#[trigger] s[i]).0 == b
}

/// Bind targets: dual-stack any, IPv4 any, then each interface address that
/// is not unspecified and not already listed, in the order given.
pub open spec fn bind_choices_of(ifaces: Seq<InterfaceAddr>) -> Seq<(Seq<char>, Option<Seq<char>>)>
    decreases ifaces.len(),
{
    if ifaces.len() == 0 {
        seq![("::"@, None), ("0.0.0.0"@, None)]
    } else {
        let prev = bind_choices_of(ifaces.drop_last());
        let x = ifaces.last();
        if x.unspecified || binds_to(prev, x.ip@) {
            prev
        } else {
            prev.push((x.ip@, Some(x.name@)))
        }
    }
}

fn choices_bind(v: &Vec<BindChoice>, b: &str) -> (r: bool)
    ensures
        r == binds_to(choices_view(v@), b@),
{
    let mut i: usize = 0;
    while i < v.len()
        invariant
            i <= v.len(),
            forall|j: int| 0 <= j < i ==> (#[trigger] choices_view(v@)[j]).0 != b@,
        decreases v.len() - i,
    {
        if text_eq(v[i].bind.as_str(), b) {
            assert(choices_view(v@)[i as int].0 == b@);
            return true;
        }
        i = i + 1;
    }
    false
}

/// Bind targets: dual-stack any, IPv4 any, then each NIC address.
pub fn bind_choices(interfaces: Vec<InterfaceAddr>) -> (r: Vec<BindChoice>)
    ensures
        choices_view(r@) == bind_choices_of(interfaces@),
{
    let mut choices: Vec<BindChoice> = Vec::new();
    choices.push(BindChoice { bind: owned("::"), iface: None });
    choices.push(BindChoice { bind: owned("0.0.0.0"), iface: None });
    assert(choices_view(choices@) =~= bind_choices_of(interfaces@.take(0)));
    let mut i: usize = 0;
    while i < interfaces.len()
        invariant
            i <= interfaces.len(),
            choices_view(choices@) == bind_choices_of(interfaces@.take(i as int)),
        decreases interfaces.len() - i,
    {
        proof {
            assert(interfaces@.take(i + 1).drop_last() =~= interfaces@.take(i as int));
            assert(interfaces@.take(i + 1).last() == interfaces@[i as int]);
        }
        let x = &interfaces[i];
        if !x.unspecified && !choices_bind(&choices, x.ip.as_str()) {
            let c = BindChoice { bind: x.ip.clone(), iface: Some(x.name.clone()) };
            let ghost prev = choices@;
            let ghost cv = choice_view(c);
            choices.push(c);
            assert(choices_view(choices@) =~= choices_view(prev).push(cv));
        }
        i = i + 1;
    }
    assert(interfaces@.take(interfaces.len() as int) =~= interfaces@);
    choices
}

} // verus!

verus! {

/// A registered OMT source as the server reports it.
#[derive(Debug, Clone, PartialEq, Eq)]
pub struct SourceName {
    /// Display / service name.
    pub name: String,
    /// Machine name (empty when not known separately).
    pub machine_name: String,
    /// TCP port.
    pub port: u16,
}

/// What the discovery server reports, with addresses already as text.
#[derive(Debug, Clone, PartialEq, Eq)]
pub enum ServerEvent {
    Started { bind: String },
    ClientConnected { peer: String },
    ClientDisconnected { peer: String },
    SourceRegistered { source: SourceName, peer: String },
    SourceRemoved { source: SourceName, peer: String },
    Error { message: String },
    Stopped,
}

/// `HOSTNAME (Source Name)`, or just the name when the machine is unknown.
pub open spec fn instance_name(s: SourceName) -> Seq<char> {
    if s.machine_name@.len() == 0 {
        s.name@
    } else {
        s.machine_name@ + " ("@ + s.name@ + ")"@
    }
}

/// `instance:port`.
pub open spec fn source_text(s: SourceName) -> Seq<char> {
    instance_name(s) + ":"@ + decimal(s.port as nat)
}

/// The log line for an event.
pub open spec fn event_line(e: ServerEvent) -> Seq<char> {
    match e {
        ServerEvent::Started { bind } => "started on "@ + bind@,
        ServerEvent::ClientConnected { peer } => "connected "@ + peer@,
        ServerEvent::ClientDisconnected { peer } => "disconnected "@ + peer@,
        ServerEvent::SourceRegistered { source, peer } => "added "@ + source_text(source)
            + " from "@ + peer@,
        ServerEvent::SourceRemoved { source, peer } => "removed "@ + source_text(source)
            + " from "@ + peer@,
        ServerEvent::Error { message } => "error "@ + message@,
        ServerEvent::Stopped => "stopped"@,
    }
}

/// `HOSTNAME (Source Name)` for a source.
pub fn format_instance_name(s: &SourceName) -> (r: String)
    ensures
        r@ == instance_name(*s),
{
    if s.machine_name.unicode_len() == 0 {
        s.name.clone()
    } else {
        let mut r = joined(s.machine_name.as_str(), " (");
        r.append(s.name.as_str());
        r.append(")");
        r
    }
}

/// `instance:port` for a source.
pub fn format_source(s: &SourceName) -> (r: String)
    ensures
        r@ == source_text(*s),
{
    let mut r = format_instance_name(s);
    r.append(":");
    r.append(u16_to_text(s.port).as_str());
    r
}

/// Human-readable log line for a server event.
pub fn format_event(e: &ServerEvent) -> (r: String)
    ensures
        r@ == event_line(*e),
{
    match e {
        ServerEvent::Started { bind } => joined("started on ", bind.as_str()),
        ServerEvent::ClientConnected { peer } => joined("connected ", peer.as_str()),
        ServerEvent::ClientDisconnected { peer } => joined("disconnected ", peer.as_str()),
        ServerEvent::SourceRegistered { source, peer } => {
            let mut r = joined("added ", format_source(source).as_str());
            r.append(" from ");
            r.append(peer.as_str());
            r
        },
        ServerEvent::SourceRemoved { source, peer } => {
            let mut r = joined("removed ", format_source(source).as_str());
            r.append(" from ");
            r.append(peer.as_str());
            r
        },
        ServerEvent::Error { message } => joined("error ", message.as_str()),
        ServerEvent::Stopped => owned("stopped"),
    }
}

/// The line logged when the server is asked to start on `bind`.
pub fn starting_line(bind: &str) -> (r: String)
    ensures
        r@ == "starting on "@ + bind@,
{
    joined("starting on ", bind)
}

/// `lines` after appending `line` and dropping the oldest lines beyond
/// [`MAX_EVENTS`].
pub open spec fn log_after_push(lines: Seq<Seq<char>>, line: Seq<char>) -> Seq<Seq<char>> {
    let all = lines.push(line);
    if all.len() > MAX_EVENTS {
        all.skip(all.len() - MAX_EVENTS)
    } else {
        all
    }
}

pub open spec fn lines_view(v: Seq<String>) -> Seq<Seq<char>> {
    v.map_values(|s: String| s@)
}

/// Recent human-readable event lines (newest last), at most [`MAX_EVENTS`].
#[derive(Debug, Clone)]
pub struct EventLog {
    events: Vec<String>,
}

impl EventLog {
    /// The retained lines, oldest first.
    pub closed spec fn lines(&self) -> Seq<Seq<char>> {
        lines_view(self.events@)
    }

    /// An empty log.
    pub fn new() -> (l: Self)
        ensures
            l.lines().len() == 0,
    {
        EventLog { events: Vec::new() }
    }

    /// Recent human-readable event lines (newest last).
    pub fn events(&self) -> (r: &[String])
        ensures
            lines_view(r@) == self.lines(),
    {
        self.events.as_slice()
    }

    /// Drop retained event lines.
    pub fn clear_events(&mut self)
        ensures
            final(self).lines().len() == 0,
    {
        self.events.clear();
    }

    /// Append a line, dropping the oldest ones beyond [`MAX_EVENTS`].
    pub fn push_event(&mut self, line: String)
        ensures
            final(self).lines() == log_after_push(old(self).lines(), line@),
    {
        let ghost before = self.events@;
        let ghost lv = line@;
        self.events.push(line);
        assert(lines_view(self.events@) =~= lines_view(before).push(lv));
        let len = self.events.len();
        if len > MAX_EVENTS {
            let extra = len - MAX_EVENTS;
            let ghost all = self.events@;
            let kept = self.events.split_off(extra);
            self.events = kept;
            assert(lines_view(self.events@) =~= lines_view(all).skip(extra as int));
        }
    }

    /// Append the log line of each event, in order.
    pub fn push_events(&mut self, events: Vec<ServerEvent>)
        ensures
            final(self).lines() == log_after_events(old(self).lines(), events@),
    {
        let mut i: usize = 0;
        while i < events.len()
            invariant
                i <= events.len(),
                self.lines() == log_after_events(old(self).lines(), events@.take(i as int)),
            decreases events.len() - i,
        {
            proof {
                assert(events@.take(i + 1).drop_last() =~= events@.take(i as int));
                assert(events@.take(i + 1).last() == events@[i as int]);
            }
            let line = format_event(&events[i]);
            self.push_event(line);
            i = i + 1;
        }
        assert(events@.take(events.len() as int) =~= events@);
    }
}

/// How many event lines the server window shows.
pub const VISIBLE_EVENTS: usize = 80;

/// The lines the server window shows: the newest [`VISIBLE_EVENTS`] of
/// `events` (oldest first), newest first.
pub fn visible_events(events: &[String]) -> (r: Vec<String>)
    ensures
        r@.len() == if events@.len() < VISIBLE_EVENTS {
            events@.len() as int
        } else {
            VISIBLE_EVENTS as int
        },
        forall|i: int| 0 <= i < r@.len() ==> #[trigger] r@[i]@ == events@[events@.len() - 1 - i]@,
{
    let n = events.len();
    let mut r: Vec<String> = Vec::new();
    let mut i: usize = 0;
    while i < n && i < VISIBLE_EVENTS
        invariant
            n == events@.len(),
            i <= n,
            i <= VISIBLE_EVENTS,
            r@.len() == i,
            forall|j: int| 0 <= j < i ==> #[trigger] r@[j]@ == events@[n - 1 - j]@,
        decreases n - i,
    {
        r.push(events[n - 1 - i].clone());
        i = i + 1;
    }
    r
}

/// The log after pushing the line of each event in turn.
pub open spec fn log_after_events(lines: Seq<Seq<char>>, events: Seq<ServerEvent>) -> Seq<
    Seq<char>,
>
    decreases events.len(),
{
    if events.len() == 0 {
        lines
    } else {
        log_after_push(log_after_events(lines, events.drop_last()), event_line(events.last()))
    }
}

/// The event log never holds more than [`MAX_EVENTS`] lines, and its newest
/// line is the one pushed last.
pub proof fn law_event_log_bounded(lines: Seq<Seq<char>>, line: Seq<char>)
    ensures
        log_after_push(lines, line).len() <= MAX_EVENTS,
        log_after_push(lines, line).last() == line,
        lines.len() < MAX_EVENTS ==> log_after_push(lines, line) == lines.push(line),
{
}

/// Bind or port can only change while the server is stopped.
pub fn check_settings_change(running: bool) -> (r: Result<(), String>)
    ensures
        r is Ok <==> !running,
        r matches Err(m) ==> m@ == "stop the server before changing bind or port"@,
{
    if running {
        Err(owned("stop the server before changing bind or port"))
    } else {
        Ok(())
    }
}

} // verus!

verus! {

/// The port typed into the server window, for starting: trimmed, an integer
/// from 1 to 65535.
pub fn parse_listen_port(text: &str) -> (r: Result<u16, String>)
    ensures
        r matches Ok(p) ==> crate::settings_editor::port_value(text@) == Some(p),
        r matches Err(m) ==> crate::settings_editor::port_value(text@) is None && m@ == "port"@
            + crate::settings_editor::port_range_suffix(),
{
    crate::settings_editor::parse_port(text, "port")
}

/// The port typed into the server window, for remembering: the text as a
/// `u16` (not trimmed), else the default port.
pub fn remembered_port(text: &str) -> (r: u16)
    ensures
        r == match crate::text::parse_u32(text@) {
            Some(v) => if v <= 65535 {
                v as u16
            } else {
                DISCOVERY_SERVER_DEFAULT_PORT
            },
            None => DISCOVERY_SERVER_DEFAULT_PORT,
        },
{
    match crate::text::parse_u32_text(text) {
        Some(v) => if v <= 65535 {
            v as u16
        } else {
            DISCOVERY_SERVER_DEFAULT_PORT
        },
        None => DISCOVERY_SERVER_DEFAULT_PORT,
    }
}

} // verus!

verus! {

/// Longest text, in UTF-8 bytes, that the bind and port fields take.
pub const SERVER_FIELD_MAX_BYTES: usize = 64;

/// The server window field being edited.
#[derive(Debug, Clone, Copy, PartialEq, Eq, Structural)]
pub enum ServerEditTarget {
    Idle,
    Bind,
    Port,
}

/// Apply a key press to the server window's fields: nothing happens while
/// the server runs or no field is edited; Enter and Escape end editing;
/// other keys edit the field (at most 64 bytes). Returns the field edited
/// afterwards.
pub fn apply_server_key(
    bind: &mut String,
    port: &mut String,
    editing: ServerEditTarget,
    running: bool,
    key: &str,
    typed: Option<&str>,
) -> (r: ServerEditTarget)
    ensures
        ({
            let typed_v = match typed {
                Some(t) => Some(t@),
                None => None,
            };
            if editing is Idle || running {
                &&& r == editing
                &&& final(bind)@ == old(bind)@
                &&& final(port)@ == old(port)@
            } else if key@ == "escape"@ || key@ == "enter"@ {
                &&& r is Idle
                &&& final(bind)@ == old(bind)@
                &&& final(port)@ == old(port)@
            } else if editing is Bind {
                &&& r == editing
                &&& final(bind)@ == key_effect(old(bind)@, key@, typed_v, SERVER_FIELD_MAX_BYTES as nat).1
                &&& final(port)@ == old(port)@
            } else {
                &&& r == editing
                &&& final(bind)@ == old(bind)@
                &&& final(port)@ == key_effect(old(port)@, key@, typed_v, SERVER_FIELD_MAX_BYTES as nat).1
            }
        }),
{
    if editing == ServerEditTarget::Idle || running {
        return editing;
    }
    if text_eq(key, "escape") || text_eq(key, "enter") {
        return ServerEditTarget::Idle;
    }
    match editing {
        ServerEditTarget::Bind => {
            apply_text_key(bind, key, typed, SERVER_FIELD_MAX_BYTES);
        },
        _ => {
            apply_text_key(port, key, typed, SERVER_FIELD_MAX_BYTES);
        },
    }
    editing
}

} // verus!
