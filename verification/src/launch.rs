//! Finding out whether a server answers, and starting one where none does.
//!
//! The probe and the start are done by the caller. This module says where to
//! probe, what the outcome of a probe means, and what is to happen next.

use vstd::prelude::*;
use vstd::std_specs::iter::IteratorSpec;
use vstd::string::StringExecFns;
use crate::gateway::{listing_path, path_of, RouteView, Surface};
use crate::text::{char_to_digit, decimal, digit_value, push_decimal, split_on, split_text};

verus! {

/// How every address of the gateway starts.
pub const URL_SCHEME: &'static str = "http://";

/// The longest that a probe waits for an answer, in seconds.
pub const PROBE_TIMEOUT_SECONDS: u64 = 30;

/// What is printed when the server could not be started.
pub const LAUNCH_WARNING: &'static str = "Couldn't start the server.";

/// What is printed when a server answers.
pub const ALIVE_MESSAGE: &'static str = "API is alive!";

/// What is printed when no server answers.
pub const DOWN_MESSAGE: &'static str = "API is down. Use --start option.";

/// How a probe ended.
#[derive(Clone, Copy, Debug, PartialEq, Eq, Structural)]
pub enum ProbeOutcome {
    /// An HTTP response came back, with this status.
    Answered(u16),
    /// No connection was made, or the host's name was not resolved.
    Unreachable,
    /// No answer came in time.
    TimedOut,
    /// The request failed in another way.
    Failed,
}

/// Where the launcher stands.
#[derive(Clone, Copy, Debug, PartialEq, Eq, Structural)]
pub enum LaunchPhase {
    /// The outcome of the probe is awaited.
    Probing,
    /// The server's log is being opened.
    OpeningLog,
    /// The server is being started in the background.
    Spawning,
    /// There is nothing more to do: the caller goes on.
    Done,
}

/// What happened outside.
#[derive(Clone, Copy, Debug, PartialEq, Eq, Structural)]
pub enum LaunchEvent {
    /// The probe ended.
    Probed(ProbeOutcome),
    /// The server's log is open.
    LogOpened,
    /// The server was started.
    Spawned,
    /// The server could not be started.
    SpawnFailed,
}

/// What the caller is to do.
#[derive(Clone, Copy, Debug, PartialEq, Eq, Structural)]
pub enum LaunchAction {
    /// Open the server's log, and create it where it is missing.
    OpenLog,
    /// Start the server in the background, with its output in the log, and
    /// do not wait for it.
    Spawn,
    /// Print the warning that the server could not be started.
    Warn,
}

/// The four numbers of an IPv4 address.
#[derive(Clone, Copy, Debug, PartialEq, Eq, Structural)]
pub struct HostAddress {
    pub a: u8,
    pub b: u8,
    pub c: u8,
    pub d: u8,
}

/// A server is alive where the probe brought any HTTP response, whatever its
/// status; every failure means that none is running.
pub open spec fn alive(outcome: ProbeOutcome) -> bool {
    outcome is Answered
}

/// The address of a server, without a path.
pub open spec fn base_url_of(host: Seq<char>, port: u16) -> Seq<char> {
    (URL_SCHEME@ + host).push(':') + decimal(port as nat)
}

/// The address of the listing of a surface.
pub open spec fn surface_url_of(host: Seq<char>, port: u16, surface: Surface) -> Seq<char> {
    base_url_of(host, port) + path_of(RouteView { surface, session: None })
}

/// The transition of the launcher.
///
/// - Where the probe found a server, nothing is started.
/// - Where it found none, the log is opened and then the server is started,
///   without waiting for it.
/// - Where the start failed, a warning is printed, and the caller goes on
///   all the same.
/// - An event that does not fit the phase changes nothing.
pub open spec fn launch_step_of(phase: LaunchPhase, event: LaunchEvent) -> (
    LaunchPhase,
    Option<LaunchAction>,
) {
    match (phase, event) {
        (LaunchPhase::Probing, LaunchEvent::Probed(outcome)) => if alive(outcome) {
            (LaunchPhase::Done, None)
        } else {
            (LaunchPhase::OpeningLog, Some(LaunchAction::OpenLog))
        },
        (LaunchPhase::OpeningLog, LaunchEvent::LogOpened) => (
            LaunchPhase::Spawning,
            Some(LaunchAction::Spawn),
        ),
        (LaunchPhase::Spawning, LaunchEvent::Spawned) => (LaunchPhase::Done, None),
        (LaunchPhase::Spawning, LaunchEvent::SpawnFailed) => (
            LaunchPhase::Done,
            Some(LaunchAction::Warn),
        ),
        _ => (phase, None),
    }
}

/// The phase after a sequence of events, and the actions asked for on the
/// way, in order.
pub open spec fn launch_run_of(phase: LaunchPhase, events: Seq<LaunchEvent>) -> (
    LaunchPhase,
    Seq<LaunchAction>,
)
    decreases events.len(),
{
    if events.len() == 0 {
        (phase, seq![])
    } else {
        let before = launch_run_of(phase, events.drop_last());
        let last = launch_step_of(before.0, events.last());
        match last.1 {
            Some(action) => (last.0, before.1.push(action)),
            None => (last.0, before.1),
        }
    }
}

/// How often a sequence of actions asks for a start of the server.
pub open spec fn spawn_count(actions: Seq<LaunchAction>) -> nat
    decreases actions.len(),
{
    if actions.len() == 0 {
        0
    } else if actions.last() == LaunchAction::Spawn {
        spawn_count(actions.drop_last()) + 1
    } else {
        spawn_count(actions.drop_last())
    }
}

/// Whether one of the events is a probe that found no server.
pub open spec fn probe_found_none(events: Seq<LaunchEvent>) -> bool {
    exists|i: int|
        0 <= i < events.len() && (#[trigger] events[i] matches LaunchEvent::Probed(outcome)
            && !alive(outcome))
}

/// The number that a sequence of decimal digits stands for.
pub open spec fn number_of(digits: Seq<char>) -> nat
    decreases digits.len(),
{
    if digits.len() == 0 {
        0
    } else {
        number_of(digits.drop_last()) * 10 + match digit_value(digits.last()) {
            Some(d) => d,
            None => 0,
        }
    }
}

/// Whether every character is a decimal digit.
pub open spec fn all_digits(text: Seq<char>) -> bool {
    forall|i: int| 0 <= i < text.len() ==> digit_value(#[trigger] text[i]) is Some
}

/// The digits of a number's text: the text without one plus sign at its
/// start.
pub open spec fn unsigned_part(text: Seq<char>) -> Seq<char> {
    if text.len() > 0 && text[0] == '+' {
        text.skip(1)
    } else {
        text
    }
}

/// The number from 0 to 255 that a text stands for: decimal digits, at least
/// one, after at most one plus sign. Any other text stands for none.
pub open spec fn octet_of(text: Seq<char>) -> Option<u8> {
    let digits = unsigned_part(text);
    if digits.len() > 0 && all_digits(digits) && number_of(digits) <= 255 {
        Some(number_of(digits) as u8)
    } else {
        None
    }
}

/// The address that a host's text stands for: numbers parted by dots, at
/// least four, each from 0 to 255. The first four make the address.
pub open spec fn host_of(host: Seq<char>) -> Option<HostAddress> {
    let parts = split_on(host, '.');
    if parts.len() >= 4 && (forall|i: int|
        0 <= i < parts.len() ==> octet_of(#[trigger] parts[i]) is Some) {
        Some(
            HostAddress {
                a: octet_of(parts[0])->0,
                b: octet_of(parts[1])->0,
                c: octet_of(parts[2])->0,
                d: octet_of(parts[3])->0,
            },
        )
    } else {
        None
    }
}

/// Running one more event.
pub proof fn lemma_launch_run_push(phase: LaunchPhase, events: Seq<LaunchEvent>, event: LaunchEvent)
    ensures
        launch_run_of(phase, events.push(event)).0 == launch_step_of(
            launch_run_of(phase, events).0,
            event,
        ).0,
        launch_run_of(phase, events.push(event)).1 == match launch_step_of(
            launch_run_of(phase, events).0,
            event,
        ).1 {
            Some(action) => launch_run_of(phase, events).1.push(action),
            None => launch_run_of(phase, events).1,
        },
{
    assert(events.push(event).drop_last() =~= events);
}

/// At most one server is started, whatever happens, and none unless a probe
/// found none running.
pub proof fn lemma_at_most_one_spawn(events: Seq<LaunchEvent>)
    ensures
        spawn_count(launch_run_of(LaunchPhase::Probing, events).1) <= 1,
        spawn_count(launch_run_of(LaunchPhase::Probing, events).1) == 1 ==> probe_found_none(
            events,
        ),
        launch_run_of(LaunchPhase::Probing, events).0 == LaunchPhase::Probing
            || launch_run_of(LaunchPhase::Probing, events).0 == LaunchPhase::OpeningLog
            ==> spawn_count(launch_run_of(LaunchPhase::Probing, events).1) == 0,
        launch_run_of(LaunchPhase::Probing, events).0 == LaunchPhase::OpeningLog
            || launch_run_of(LaunchPhase::Probing, events).0 == LaunchPhase::Spawning
            ==> probe_found_none(events),
    decreases events.len(),
{
    if events.len() > 0 {
        let earlier = events.drop_last();
        lemma_at_most_one_spawn(earlier);
        let before = launch_run_of(LaunchPhase::Probing, earlier);
        let last = launch_step_of(before.0, events.last());
        if probe_found_none(earlier) {
            let i = choose|i: int|
                0 <= i < earlier.len() && (#[trigger] earlier[i] matches LaunchEvent::Probed(outcome)
                    && !alive(outcome));
            assert(events[i] == earlier[i]);
        }
        match last.1 {
            Some(action) => {
                assert(before.1.push(action).drop_last() =~= before.1);
                if before.0 == LaunchPhase::Probing {
                    assert(events[events.len() - 1] == events.last());
                }
            },
            None => {},
        }
    }
}

/// A server that answers is left alone: after such a probe the launcher is
/// done, and has asked for nothing.
pub proof fn lemma_alive_starts_nothing(outcome: ProbeOutcome)
    requires
        alive(outcome),
    ensures
        launch_run_of(LaunchPhase::Probing, seq![LaunchEvent::Probed(outcome)]) == (
            LaunchPhase::Done,
            Seq::<LaunchAction>::empty(),
        ),
{
    lemma_launch_run_push(LaunchPhase::Probing, seq![], LaunchEvent::Probed(outcome));
    assert(Seq::<LaunchEvent>::empty().push(LaunchEvent::Probed(outcome)) =~= seq![
        LaunchEvent::Probed(outcome),
    ]);
}

/// Where no server answers, the log is opened and the server is started
/// once; whether or not the start succeeds, the launcher is then done, and
/// a failed start adds only the warning.
pub proof fn lemma_down_starts_once(outcome: ProbeOutcome, started: bool)
    requires
        !alive(outcome),
    ensures
        launch_run_of(
            LaunchPhase::Probing,
            seq![
                LaunchEvent::Probed(outcome),
                LaunchEvent::LogOpened,
                if started {
                    LaunchEvent::Spawned
                } else {
                    LaunchEvent::SpawnFailed
                },
            ],
        ) == (
            LaunchPhase::Done,
            if started {
                seq![LaunchAction::OpenLog, LaunchAction::Spawn]
            } else {
                seq![LaunchAction::OpenLog, LaunchAction::Spawn, LaunchAction::Warn]
            },
        ),
{
    let last = if started {
        LaunchEvent::Spawned
    } else {
        LaunchEvent::SpawnFailed
    };
    let none = Seq::<LaunchEvent>::empty();
    let one = none.push(LaunchEvent::Probed(outcome));
    let two = one.push(LaunchEvent::LogOpened);
    lemma_launch_run_push(LaunchPhase::Probing, none, LaunchEvent::Probed(outcome));
    lemma_launch_run_push(LaunchPhase::Probing, one, LaunchEvent::LogOpened);
    lemma_launch_run_push(LaunchPhase::Probing, two, last);
    assert(two.push(last) =~= seq![LaunchEvent::Probed(outcome), LaunchEvent::LogOpened, last]);
    let actions = launch_run_of(LaunchPhase::Probing, two.push(last)).1;
    if started {
        assert(actions =~= seq![LaunchAction::OpenLog, LaunchAction::Spawn]);
    } else {
        assert(actions =~= seq![LaunchAction::OpenLog, LaunchAction::Spawn, LaunchAction::Warn]);
    }
}

/// Whether a server is alive, given how the probe ended.
pub fn check_api_status(outcome: ProbeOutcome) -> (is_alive: bool)
    ensures
        is_alive == alive(outcome),
{
    match outcome {
        ProbeOutcome::Answered(_) => true,
        _ => false,
    }
}

/// What the operator is told about the server.
pub fn status_message(is_alive: bool) -> (message: &'static str)
    ensures
        message@ == if is_alive {
            ALIVE_MESSAGE@
        } else {
            DOWN_MESSAGE@
        },
{
    if is_alive {
        ALIVE_MESSAGE
    } else {
        DOWN_MESSAGE
    }
}

/// The address of the listing of a surface on the server at `host` and
/// `port`.
pub fn surface_url(host: &str, port: u16, surface: Surface) -> (url: String)
    ensures
        url@ == surface_url_of(host@, port, surface),
{
    let mut url = String::from_str(URL_SCHEME);
    url.append(host);
    url.push(':');
    push_decimal(&mut url, port as u64);
    let path = listing_path(surface);
    url.append(path.as_str());
    url
}

/// The address that is probed: the JSON listing.
pub fn api_url(host: &str, port: u16) -> (url: String)
    ensures
        url@ == surface_url_of(host@, port, Surface::Api),
{
    surface_url(host, port, Surface::Api)
}

/// The transition of the launcher: takes what happened, and gives the next
/// phase and what to do, if anything.
pub fn start_server_if_not_exists(phase: LaunchPhase, event: LaunchEvent) -> (out: (
    LaunchPhase,
    Option<LaunchAction>,
))
    ensures
        out == launch_step_of(phase, event),
{
    match (phase, event) {
        (LaunchPhase::Probing, LaunchEvent::Probed(outcome)) => {
            if check_api_status(outcome) {
                (LaunchPhase::Done, None)
            } else {
                (LaunchPhase::OpeningLog, Some(LaunchAction::OpenLog))
            }
        },
        (LaunchPhase::OpeningLog, LaunchEvent::LogOpened) => (
            LaunchPhase::Spawning,
            Some(LaunchAction::Spawn),
        ),
        (LaunchPhase::Spawning, LaunchEvent::Spawned) => (LaunchPhase::Done, None),
        (LaunchPhase::Spawning, LaunchEvent::SpawnFailed) => (
            LaunchPhase::Done,
            Some(LaunchAction::Warn),
        ),
        (phase, _) => (phase, None),
    }
}

/// The number that one part of a host's text stands for, or `None` where it
/// stands for none.
pub fn parse_octet(text: &str) -> (octet: Option<u8>)
    ensures
        octet == octet_of(text@),
{
    broadcast use vstd::string::group_string_axioms;

    let mut it = text.chars();
    let ghost whole = it.remaining();
    let mut value: u32 = 0;
    let mut any_digit = false;
    let ghost mut seen: Seq<char> = Seq::empty();
    match it.next() {
        None => {
            return None;
        },
        Some(c) => {
            if c != '+' {
                match char_to_digit(c) {
                    Some(d) => {
                        value = d as u32;
                        any_digit = true;
                        proof {
                            seen = seq![c];
                            assert(seen.drop_last() =~= Seq::<char>::empty());
                            assert(number_of(seen.drop_last()) == 0);
                            assert(whole =~= seen + whole.drop_first());
                        }
                    },
                    None => {
                        proof {
                            assert(unsigned_part(text@)[0] == c);
                        }
                        return None;
                    },
                }
            } else {
                proof {
                    assert(whole.drop_first() =~= text@.skip(1));
                    assert(Seq::<char>::empty() + whole.drop_first() =~= whole.drop_first());
                }
            }
        },
    }
    loop
        invariant
            it.obeys_prophetic_iter_laws(),
            it.decrease() is Some,
            seen + it.remaining() == unsigned_part(text@),
            all_digits(seen),
            any_digit == (seen.len() > 0),
            value <= 256,
            value == if number_of(seen) <= 255 {
                number_of(seen)
            } else {
                256
            },
        decreases it.decrease()->0,
    {
        let ghost rest = it.remaining();
        match it.next() {
            Some(c) => {
                proof {
                    assert(seen.push(c) + rest.drop_first() =~= seen + rest);
                    assert(seen.push(c).drop_last() =~= seen);
                    assert(unsigned_part(text@)[seen.len() as int] == c);
                }
                match char_to_digit(c) {
                    Some(d) => {
                        let next = value * 10 + d as u32;
                        value = if next > 255 {
                            256
                        } else {
                            next
                        };
                        any_digit = true;
                        proof {
                            seen = seen.push(c);
                        }
                    },
                    None => {
                        return None;
                    },
                }
            },
            None => {
                proof {
                    assert(seen + rest =~= seen);
                }
                if any_digit && value <= 255 {
                    return Some(value as u8);
                }
                return None;
            },
        }
    }
}

/// The address that a host's text stands for, or `None` where it stands for
/// none.
pub fn parse_host(host: &str) -> (address: Option<HostAddress>)
    ensures
        address == host_of(host@),
{
    let parts = split_text(host, '.');
    let mut octets: Vec<u8> = Vec::new();
    let mut i: usize = 0;
    while i < parts.len()
        invariant
            0 <= i <= parts.len(),
            parts.deep_view() == split_on(host@, '.'),
            octets.len() == i,
            forall|k: int| 0 <= k < i ==> octet_of(#[trigger] parts.deep_view()[k]) == Some(octets[k]),
        decreases parts.len() - i,
    {
        assert(parts.deep_view()[i as int] == parts[i as int]@);
        match parse_octet(parts[i].as_str()) {
            Some(octet) => {
                octets.push(octet);
            },
            None => {
                return None;
            },
        }
        i = i + 1;
    }
    if octets.len() < 4 {
        return None;
    }
    Some(HostAddress { a: octets[0], b: octets[1], c: octets[2], d: octets[3] })
}

} // verus!
