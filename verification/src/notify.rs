//! The policy that decides which state changes reach the user as an alert,
//! and the text of the alert.

use crate::text::{concat2, decimal, str_eq, u64_to_decimal};
use crate::types::{
    opt_view, Confidence, EnhancedStateContext, NetworkContext, NetworkContextView,
    SessionContext, SessionContextView,
};
use vstd::prelude::*;
use vstd::string::*;
use vstd::utf8::*;

verus! {

/// The bit pattern of the least confidence, 80 %, at which a report of a
/// network-based detector raises an alert.
pub const NETWORK_THRESHOLD_BITS: u64 = 0x3FE9_9999_9999_999A;

/// The bit pattern of the least confidence, 85 %, at which a report of a
/// session-file detector raises an alert.
pub const SESSION_FILE_THRESHOLD_BITS: u64 = 0x3FEB_3333_3333_3333;

/// The bit pattern of the least confidence, 70 %, at which a report of the
/// pattern detector raises an alert.
pub const PATTERN_THRESHOLD_BITS: u64 = 0x3FE6_6666_6666_6666;

/// The bit pattern of the least confidence, 75 %, at which a report of any
/// other detector raises an alert.
pub const DEFAULT_THRESHOLD_BITS: u64 = 0x3FE8_0000_0000_0000;

/// The bit pattern of positive infinity. The patterns above it either are
/// not numbers or carry the sign of a negative number.
pub const INFINITY_BITS: u64 = 0x7FF0_0000_0000_0000;

/// Whether the state is one that the user has to act on.
pub open spec fn is_alert_state(state: Seq<char>) -> bool {
    state == "PENDING"@ || state == "ERROR"@
}

/// The threshold, as a bit pattern, that belongs to a detection method.
pub open spec fn threshold_bits(method: Seq<char>) -> u64 {
    if method == "network"@ {
        NETWORK_THRESHOLD_BITS
    } else if method == "session-file"@ {
        SESSION_FILE_THRESHOLD_BITS
    } else if method == "pattern"@ {
        PATTERN_THRESHOLD_BITS
    } else {
        DEFAULT_THRESHOLD_BITS
    }
}

/// Whether the score is a number that is at least the positive threshold.
pub open spec fn meets_threshold(score: Confidence, threshold: u64) -> bool {
    threshold <= score.bits <= INFINITY_BITS
}

/// Whether a change to `state`, reported by `method` with the given score,
/// raises an alert. A report without a score raises one for every alert
/// state.
pub open spec fn notify_spec(
    state: Seq<char>,
    method: Seq<char>,
    confidence: Option<Confidence>,
) -> bool {
    is_alert_state(state) && match confidence {
        Some(score) => meets_threshold(score, threshold_bits(method)),
        None => true,
    }
}

/// Whether the state is `PENDING` or `ERROR`.
pub fn alert_state(state: &str) -> (r: bool)
    ensures
        r == is_alert_state(state@),
{
    str_eq(state, "PENDING") || str_eq(state, "ERROR")
}

/// The threshold, as a bit pattern, that belongs to a detection method.
pub fn threshold_for(method: &str) -> (r: u64)
    ensures
        r == threshold_bits(method@),
{
    if str_eq(method, "network") {
        NETWORK_THRESHOLD_BITS
    } else if str_eq(method, "session-file") {
        SESSION_FILE_THRESHOLD_BITS
    } else if str_eq(method, "pattern") {
        PATTERN_THRESHOLD_BITS
    } else {
        DEFAULT_THRESHOLD_BITS
    }
}

/// Decides whether a change to `new_state` raises an alert.
pub fn should_notify(new_state: &str, detection_method: &str, confidence: Option<Confidence>) -> (r:
    bool)
    ensures
        r == notify_spec(new_state@, detection_method@, confidence),
{
    if !alert_state(new_state) {
        return false;
    }
    match confidence {
        Some(score) => {
            let threshold = threshold_for(detection_method);
            threshold <= score.bits && score.bits <= INFINITY_BITS
        },
        None => true,
    }
}

/// Decides whether a report that carries its context raises an alert.
pub fn should_send_enhanced_notification(
    state: &str,
    context: &EnhancedStateContext,
    _prev_state: &str,
) -> (r: bool)
    ensures
        r == notify_spec(state@, context.detection_method@, Some(context.confidence)),
{
    should_notify(state, context.detection_method.as_str(), Some(context.confidence))
}

/// An alert for the user.
#[derive(Clone, Debug)]
pub struct Notification {
    pub title: String,
    pub body: String,
    pub confidence: Option<Confidence>,
    pub detection_method: Option<String>,
}

/// The title of every alert: the project's name, then the agent's.
pub open spec fn title_of(project_name: Seq<char>, agent_name: Seq<char>) -> Seq<char> {
    project_name + " - "@ + agent_name
}

/// The alert for a report that carries no context: the state is its body.
pub fn basic_notification(project_name: &str, agent_name: &str, state: &str) -> (r: Notification)
    ensures
        r.title@ == title_of(project_name@, agent_name@),
        r.body@ == state@,
        r.confidence.is_none(),
        r.detection_method.is_none(),
{
    let mut title = concat2(project_name, " - ");
    title.append(agent_name);
    Notification { title, body: state.to_string(), confidence: None, detection_method: None }
}

/// The largest position not above `at` that does not split a character of
/// the encoded text.
pub open spec fn floor_boundary(bytes: Seq<u8>, at: int) -> int
    decreases at,
{
    if at <= 0 || is_char_boundary(bytes, at) {
        at
    } else {
        floor_boundary(bytes, at - 1)
    }
}

/// The preview of a message as an alert shows it: a preview of more than 50
/// bytes is cut to its first 47 bytes, or to fewer where the 47th byte would
/// split a character, and three dots follow.
pub open spec fn preview_shown(preview: Seq<char>) -> Seq<char> {
    if encode_utf8(preview).len() > 50 {
        decode_utf8(encode_utf8(preview).subrange(0, floor_boundary(encode_utf8(preview), 47)))
            + "..."@
    } else {
        preview
    }
}

/// Shortens the preview of a message for an alert.
pub fn shorten_preview(preview: &str) -> (r: String)
    ensures
        r@ == preview_shown(preview@),
{
    if preview.as_bytes().len() > 50 {
        let ghost bytes = preview.spec_bytes();
        let mut cut: usize = 47;
        proof {
            encode_utf8_valid_utf8(preview@);
            is_char_boundary_start_end_of_seq(bytes);
        }
        while cut > 0 && !preview.is_char_boundary(cut)
            invariant
                bytes == preview.spec_bytes(),
                0 <= cut <= 47,
                floor_boundary(bytes, 47) == floor_boundary(bytes, cut as int),
            decreases cut,
        {
            cut -= 1;
        }
        assert(is_char_boundary(bytes, cut as int));
        assert(floor_boundary(bytes, 47) == cut);
        let (head, _rest) = preview.split_at(cut);
        proof {
            encode_utf8_decode_utf8(head@);
            assert(encode_utf8(head@) == bytes.subrange(0, cut as int));
        }
        concat2(head, "...")
    } else {
        preview.to_string()
    }
}

/// What an alert adds to its body for the time the agent spent thinking, in
/// whole seconds.
pub open spec fn thinking_suffix(network: Option<NetworkContextView>) -> Seq<char> {
    match network {
        Some(n) => match n.thinking_duration {
            Some(d) => if d > 0 {
                " (after "@ + decimal((d / 1000) as nat) + "s thinking)"@
            } else {
                Seq::empty()
            },
            None => Seq::empty(),
        },
        None => Seq::empty(),
    }
}

/// What an alert adds to its body for the last message of the session.
pub open spec fn preview_suffix(session: Option<SessionContextView>) -> Seq<char> {
    match session {
        Some(s) => match s.last_message {
            Some(m) => ": "@ + preview_shown(m.preview),
            None => Seq::empty(),
        },
        None => Seq::empty(),
    }
}

/// The body of the alert for a report that carries its context: the state,
/// and for `PENDING` the thinking time and the last message.
pub open spec fn enhanced_body(
    state: Seq<char>,
    network: Option<NetworkContextView>,
    session: Option<SessionContextView>,
) -> Seq<char> {
    if state == "PENDING"@ {
        state + thinking_suffix(network) + preview_suffix(session)
    } else {
        state
    }
}

/// The title of the alert for a report that carries its context. With
/// diagnostics on, the rounded score follows in brackets.
pub open spec fn enhanced_title(
    project_name: Seq<char>,
    agent_name: Seq<char>,
    debug: bool,
    rounded: Seq<char>,
) -> Seq<char> {
    if debug {
        title_of(project_name, agent_name) + " ("@ + rounded + "%)"@
    } else {
        title_of(project_name, agent_name)
    }
}

fn append_thinking(body: &mut String, network: &Option<NetworkContext>)
    ensures
        final(body)@ == old(body)@ + thinking_suffix(opt_view(*network)),
{
    match network {
        Some(n) => match n.thinking_duration {
            Some(d) => {
                if d > 0 {
                    let seconds = u64_to_decimal(d / 1000);
                    body.append(" (after ");
                    body.append(seconds.as_str());
                    body.append("s thinking)");
                }
            },
            None => {},
        },
        None => {},
    }
    assert(body@ =~= old(body)@ + thinking_suffix(opt_view(*network)));
}

fn append_preview(body: &mut String, session: &Option<SessionContext>)
    ensures
        final(body)@ == old(body)@ + preview_suffix(opt_view(*session)),
{
    match session {
        Some(s) => match &s.last_message {
            Some(m) => {
                let shown = shorten_preview(m.preview.as_str());
                body.append(": ");
                body.append(shown.as_str());
            },
            None => {},
        },
        None => {},
    }
    assert(body@ =~= old(body)@ + preview_suffix(opt_view(*session)));
}

/// Builds the alert for a report that carries its context. `debug` says
/// whether diagnostics are on.
pub fn create_enhanced_notification(
    project_name: &str,
    agent_name: &str,
    state: &str,
    context: &EnhancedStateContext,
    debug: bool,
) -> (r: Notification)
    ensures
        r.title@ == enhanced_title(
            project_name@,
            agent_name@,
            debug,
            context.confidence_percent_rounded@,
        ),
        r.body@ == enhanced_body(state@, opt_view(context.network), opt_view(context.session)),
        r.confidence == Some(context.confidence),
        opt_view(r.detection_method) == Some(context.detection_method@),
{
    let mut title = concat2(project_name, " - ");
    title.append(agent_name);
    let mut body = state.to_string();
    if str_eq(state, "PENDING") {
        append_thinking(&mut body, &context.network);
        append_preview(&mut body, &context.session);
    }
    if debug {
        title.append(" (");
        title.append(context.confidence_percent_rounded.as_str());
        title.append("%)");
    }
    Notification {
        title,
        body,
        confidence: Some(context.confidence),
        detection_method: Some(context.detection_method.clone()),
    }
}

/// The parts joined by the separator, in order.
pub open spec fn join_parts(parts: Seq<Seq<char>>, sep: Seq<char>) -> Seq<char>
    decreases parts.len(),
{
    if parts.len() == 0 {
        Seq::empty()
    } else if parts.len() == 1 {
        parts[0]
    } else {
        join_parts(parts.drop_last(), sep) + sep + parts.last()
    }
}

/// What the details say of the network: the requests in flight, the mean
/// response time and the thinking time in whole seconds, each only where it
/// is above zero.
pub open spec fn network_parts(n: NetworkContextView) -> Seq<Seq<char>> {
    let requests = if n.active_requests > 0 {
        seq!["Active requests: "@ + decimal(n.active_requests as nat)]
    } else {
        Seq::empty()
    };
    let response = if n.average_response_time > 0 {
        seq!["Avg response: "@ + decimal(n.average_response_time as nat) + "ms"@]
    } else {
        Seq::empty()
    };
    let thinking = match n.thinking_duration {
        Some(d) => if d > 0 {
            seq!["Thinking: "@ + decimal((d / 1000) as nat) + "s"@]
        } else {
            Seq::empty()
        },
        None => Seq::empty(),
    };
    requests + response + thinking
}

/// What the details say of the session: the number of messages and the
/// preview of the last one, each where it is known.
pub open spec fn session_parts(s: SessionContextView) -> Seq<Seq<char>> {
    let count = match s.message_count {
        Some(c) => seq!["Messages: "@ + decimal(c as nat)],
        None => Seq::empty(),
    };
    let last = match s.last_message {
        Some(m) => seq!["Last: "@ + m.preview],
        None => Seq::empty(),
    };
    count + last
}

/// The parts of the details of a report that carries its context.
pub open spec fn detail_parts(
    method: Seq<char>,
    percent: Seq<char>,
    network: Option<NetworkContextView>,
    session: Option<SessionContextView>,
) -> Seq<Seq<char>> {
    seq!["Detection: "@ + method + " (confidence: "@ + percent + "%)"@] + (match network {
        Some(n) => network_parts(n),
        None => Seq::empty(),
    }) + (match session {
        Some(s) => session_parts(s),
        None => Seq::empty(),
    })
}

fn append_part(out: &mut String, part: &str, Ghost(parts): Ghost<Seq<Seq<char>>>)
    requires
        parts.len() >= 1,
        old(out)@ == join_parts(parts, " | "@),
    ensures
        final(out)@ == join_parts(parts.push(part@), " | "@),
{
    out.append(" | ");
    out.append(part);
    assert(parts.push(part@).drop_last() =~= parts);
}

/// Writes the details of a task from the context of a report: the detection
/// method with its score, then what is known of the network and of the
/// session, separated by bars.
pub fn generate_enhanced_details(context: &EnhancedStateContext) -> (r: String)
    ensures
        r@ == join_parts(
            detail_parts(
                context.detection_method@,
                context.confidence_percent@,
                opt_view(context.network),
                opt_view(context.session),
            ),
            " | "@,
        ),
{
    let mut out = concat2("Detection: ", context.detection_method.as_str());
    out.append(" (confidence: ");
    out.append(context.confidence_percent.as_str());
    out.append("%)");
    let ghost head = seq![
        "Detection: "@ + context.detection_method@ + " (confidence: "@
            + context.confidence_percent@ + "%)"@,
    ];
    let ghost mut parts = head;
    assert(out@ =~= head[0]);
    match &context.network {
        Some(n) => {
            if n.active_requests > 0 {
                let mut part = "Active requests: ".to_string();
                part.append(u64_to_decimal(n.active_requests as u64).as_str());
                append_part(&mut out, part.as_str(), Ghost(parts));
                proof {
                    parts = parts.push(part@);
                }
            }
            if n.average_response_time > 0 {
                let mut part = "Avg response: ".to_string();
                part.append(u64_to_decimal(n.average_response_time as u64).as_str());
                part.append("ms");
                append_part(&mut out, part.as_str(), Ghost(parts));
                proof {
                    parts = parts.push(part@);
                }
            }
            match n.thinking_duration {
                Some(d) => {
                    if d > 0 {
                        let mut part = "Thinking: ".to_string();
                        part.append(u64_to_decimal(d / 1000).as_str());
                        part.append("s");
                        append_part(&mut out, part.as_str(), Ghost(parts));
                        proof {
                            parts = parts.push(part@);
                        }
                    }
                },
                None => {},
            }
            assert(parts =~= head + network_parts(n@));
        },
        None => {
            assert(parts =~= head + Seq::<Seq<char>>::empty());
        },
    }
    let ghost middle = parts;
    match &context.session {
        Some(s) => {
            match s.message_count {
                Some(c) => {
                    let mut part = "Messages: ".to_string();
                    part.append(u64_to_decimal(c as u64).as_str());
                    append_part(&mut out, part.as_str(), Ghost(parts));
                    proof {
                        parts = parts.push(part@);
                    }
                },
                None => {},
            }
            match &s.last_message {
                Some(m) => {
                    let part = concat2("Last: ", m.preview.as_str());
                    append_part(&mut out, part.as_str(), Ghost(parts));
                    proof {
                        parts = parts.push(part@);
                    }
                },
                None => {},
            }
            assert(parts =~= middle + session_parts(s@));
        },
        None => {
            assert(parts =~= middle + Seq::<Seq<char>>::empty());
        },
    }
    out
}

} // verus!
