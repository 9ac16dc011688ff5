//! The session engine: one step of the interactive loop. Each event from
//! one of the three input sources — a console line, an inbound frame, or
//! the interrupt — is mapped to the console lines to print, at most one
//! frame to send, and the decision whether the loop stops.
use vstd::prelude::*;

use crate::chars::tokens_of;
use crate::command::{parse_slash_command, slash_action, ActionModel, ControlAction};
use crate::errors::WsError;
use crate::frames::{
    frame_outcome, frame_response, FrameModel, InboundFrame, Notice, NoticeModel, OutFrameModel,
    OutboundFrame,
};

verus! {

/// Mathematical image of a `SessionEvent`.
#[verifier::ext_equal]
pub enum EventModel {
    ConsoleLine(Seq<char>),
    ConsoleClosed,
    ConsoleFailed,
    Frame(FrameModel),
    TransportFailed,
    StreamEnded,
    Interrupted,
}

/// One event from the three multiplexed sources: the next console line,
/// end or failure of console input, the next inbound frame, a transport
/// read failure, the orderly end of the inbound stream, or the interrupt
/// signal.
pub enum SessionEvent {
    ConsoleLine(String),
    ConsoleClosed,
    ConsoleFailed,
    Frame(InboundFrame),
    TransportFailed,
    StreamEnded,
    Interrupted,
}

impl View for SessionEvent {
    type V = EventModel;

    open spec fn view(&self) -> EventModel {
        match self {
            SessionEvent::ConsoleLine(l) => EventModel::ConsoleLine(l@),
            SessionEvent::ConsoleClosed => EventModel::ConsoleClosed,
            SessionEvent::ConsoleFailed => EventModel::ConsoleFailed,
            SessionEvent::Frame(f) => EventModel::Frame(f@),
            SessionEvent::TransportFailed => EventModel::TransportFailed,
            SessionEvent::StreamEnded => EventModel::StreamEnded,
            SessionEvent::Interrupted => EventModel::Interrupted,
        }
    }
}

/// Mathematical image of a `StepOutcome`.
#[verifier::ext_equal]
pub struct StepModel {
    pub prints: Seq<NoticeModel>,
    pub send: Option<OutFrameModel>,
    pub best_effort: bool,
    pub done: bool,
    pub failure: Option<WsError>,
}

/// Everything one step asks of the caller: console lines to print in
/// order, at most one frame to send (best-effort when `best_effort` is
/// set: a send failure is ignored), whether the loop stops, and the fatal
/// error to surface, if any.
pub struct StepOutcome {
    pub prints: Vec<Notice>,
    pub send: Option<OutboundFrame>,
    pub best_effort: bool,
    pub done: bool,
    pub failure: Option<WsError>,
}

impl View for StepOutcome {
    type V = StepModel;

    open spec fn view(&self) -> StepModel {
        StepModel {
            prints: self.prints.deep_view(),
            send: match &self.send {
                Some(f) => Some(f@),
                None => None,
            },
            best_effort: self.best_effort,
            done: self.done,
            failure: self.failure,
        }
    }
}

/// The echo of an outbound console line.
pub open spec fn echo_line(l: Seq<char>) -> Seq<char> {
    "> "@ + l
}

/// The step owed for one console line: with slash commands enabled and a
/// line starting with the marker, the interpreted control action; any
/// other line is echoed and sent verbatim as a text frame.
pub open spec fn console_step(slash: bool, l: Seq<char>) -> StepModel {
    if slash && l.len() > 0 && l[0] == '/' {
        match slash_action(l) {
            ActionModel::Ping(p) => StepModel {
                prints: Seq::empty(),
                send: Some(OutFrameModel::Ping(p)),
                best_effort: false,
                done: false,
                failure: None,
            },
            ActionModel::Pong(p) => StepModel {
                prints: Seq::empty(),
                send: Some(OutFrameModel::Pong(p)),
                best_effort: false,
                done: false,
                failure: None,
            },
            ActionModel::CloseTerm(c, r) => StepModel {
                prints: Seq::empty(),
                send: Some(OutFrameModel::Close(Some((c, r)))),
                best_effort: false,
                done: true,
                failure: None,
            },
            ActionModel::Unrecognized => StepModel {
                prints: seq![NoticeModel::Warn("error: Unrecognized slash command."@)],
                send: None,
                best_effort: false,
                done: false,
                failure: None,
            },
        }
    } else {
        StepModel {
            prints: seq![NoticeModel::Line(echo_line(l))],
            send: Some(OutFrameModel::Text(l)),
            best_effort: false,
            done: false,
            failure: None,
        }
    }
}

/// The step owed for each event. Console end and stream end stop the
/// loop quietly; read failures stop it with a transport error; an
/// inbound frame is answered as `frame_outcome` states; the interrupt
/// sends one best-effort close and stops.
pub open spec fn step_model(slash: bool, show: bool, ev: EventModel) -> StepModel {
    match ev {
        EventModel::ConsoleLine(l) => console_step(slash, l),
        EventModel::ConsoleClosed => StepModel {
            prints: Seq::empty(),
            send: None,
            best_effort: false,
            done: true,
            failure: None,
        },
        EventModel::ConsoleFailed => StepModel {
            prints: Seq::empty(),
            send: None,
            best_effort: false,
            done: true,
            failure: Some(WsError::TransportFailure),
        },
        EventModel::Frame(f) => {
            let fo = frame_outcome(f, show);
            StepModel {
                prints: fo.prints,
                send: fo.reply,
                best_effort: false,
                done: fo.done,
                failure: None,
            }
        },
        EventModel::TransportFailed => StepModel {
            prints: Seq::empty(),
            send: None,
            best_effort: false,
            done: true,
            failure: Some(WsError::TransportFailure),
        },
        EventModel::StreamEnded => StepModel {
            prints: Seq::empty(),
            send: None,
            best_effort: false,
            done: true,
            failure: None,
        },
        EventModel::Interrupted => StepModel {
            prints: Seq::empty(),
            send: Some(OutFrameModel::Close(None)),
            best_effort: true,
            done: true,
            failure: None,
        },
    }
}

fn quiet_step(send: Option<OutboundFrame>, best_effort: bool, done: bool, failure: Option<
    WsError,
>) -> (o: StepOutcome)
    ensures
        o@ == (StepModel {
            prints: Seq::<NoticeModel>::empty(),
            send: match send {
                Some(f) => Some(f@),
                None => None,
            },
            best_effort,
            done,
            failure,
        }),
{
    let v: Vec<Notice> = Vec::new();
    let o = StepOutcome { prints: v, send, best_effort, done, failure };
    proof {
        assert(o@.prints =~= Seq::<NoticeModel>::empty());
        assert(o@ =~= (StepModel {
            prints: Seq::<NoticeModel>::empty(),
            send: o@.send,
            best_effort,
            done,
            failure,
        }));
    }
    o
}

/// Dispatch one event, as `step_model` states it.
pub fn session_step(slash: bool, show: bool, ev: SessionEvent) -> (o: StepOutcome)
    ensures
        o@ == step_model(slash, show, ev@),
{
    let ghost em = ev@;
    match ev {
        SessionEvent::ConsoleLine(line) => {
            let is_command = slash && line.as_str().unicode_len() > 0 && line.as_str().get_char(0)
                == '/';
            if is_command {
                let action = parse_slash_command(line.as_str());
                let o = match action {
                    ControlAction::SendPing(p) => quiet_step(
                        Some(OutboundFrame::Ping(p)),
                        false,
                        false,
                        None,
                    ),
                    ControlAction::SendPong(p) => quiet_step(
                        Some(OutboundFrame::Pong(p)),
                        false,
                        false,
                        None,
                    ),
                    ControlAction::SendCloseAndTerminate(c, r) => quiet_step(
                        Some(OutboundFrame::Close(Some((c, r)))),
                        false,
                        true,
                        None,
                    ),
                    ControlAction::Unrecognized => {
                        let mut v: Vec<Notice> = Vec::new();
                        v.push(Notice::Warn(String::from_str("error: Unrecognized slash command.")));
                        proof {
                            assert(v.deep_view() =~= seq![
                                NoticeModel::Warn("error: Unrecognized slash command."@),
                            ]);
                        }
                        StepOutcome {
                            prints: v,
                            send: None,
                            best_effort: false,
                            done: false,
                            failure: None,
                        }
                    },
                };
                proof {
                    assert(o@ =~= step_model(slash, show, em));
                }
                o
            } else {
                let mut echo = String::from_str("> ");
                echo.append(line.as_str());
                let mut v: Vec<Notice> = Vec::new();
                let ghost lm = line@;
                v.push(Notice::Line(echo));
                proof {
                    assert(v.deep_view() =~= seq![NoticeModel::Line(echo_line(lm))]);
                }
                let o = StepOutcome {
                    prints: v,
                    send: Some(OutboundFrame::Text(line)),
                    best_effort: false,
                    done: false,
                    failure: None,
                };
                proof {
                    assert(o@ =~= step_model(slash, show, em));
                }
                o
            }
        },
        SessionEvent::ConsoleClosed => quiet_step(None, false, true, None),
        SessionEvent::ConsoleFailed => quiet_step(
            None,
            false,
            true,
            Some(WsError::TransportFailure),
        ),
        SessionEvent::Frame(f) => {
            let fo = frame_response(f, show);
            let o = StepOutcome {
                prints: fo.prints,
                send: fo.reply,
                best_effort: false,
                done: fo.done,
                failure: None,
            };
            proof {
                assert(o@ =~= step_model(slash, show, em));
            }
            o
        },
        SessionEvent::TransportFailed => quiet_step(
            None,
            false,
            true,
            Some(WsError::TransportFailure),
        ),
        SessionEvent::StreamEnded => quiet_step(None, false, true, None),
        SessionEvent::Interrupted => quiet_step(Some(OutboundFrame::Close(None)), true, true, None),
    }
}

/// With slash commands enabled, a line whose first token is `/ping`
/// sends exactly one ping frame — and no text frame — whose payload is
/// the second token's bytes, and the loop goes on.
pub proof fn lemma_ping_command(l: Seq<char>, show: bool)
    requires
        l.len() > 0,
        l[0] == '/',
        tokens_of(l).len() >= 1,
        tokens_of(l)[0] == "/ping"@,
    ensures
        step_model(true, show, EventModel::ConsoleLine(l)).send == Some(
            OutFrameModel::Ping(
                vstd::utf8::encode_utf8(crate::command::token_or_empty(tokens_of(l), 1)),
            ),
        ),
        !step_model(true, show, EventModel::ConsoleLine(l)).done,
        step_model(true, show, EventModel::ConsoleLine(l)).prints == Seq::<NoticeModel>::empty(),
{
    reveal_strlit("/ping");
    reveal_strlit("ping");
    assert("/ping"@.drop_first() =~= "ping"@);
    assert(tokens_of(l)[0].len() > 0 && tokens_of(l)[0][0] == '/');
}

/// With slash commands enabled, a line whose first token is `/close`
/// sends exactly one close frame — with the second token's code, 1000 by
/// default, and the remaining tokens as reason — and then terminates.
pub proof fn lemma_close_command(l: Seq<char>, show: bool)
    requires
        l.len() > 0,
        l[0] == '/',
        tokens_of(l).len() >= 1,
        tokens_of(l)[0] == "/close"@,
    ensures
        step_model(true, show, EventModel::ConsoleLine(l)).send == Some(
            OutFrameModel::Close(
                Some(
                    (
                        crate::command::close_code(tokens_of(l)),
                        crate::command::close_reason(tokens_of(l)),
                    ),
                ),
            ),
        ),
        step_model(true, show, EventModel::ConsoleLine(l)).done,
{
    reveal_strlit("/close");
    reveal_strlit("close");
    reveal_strlit("ping");
    reveal_strlit("pong");
    assert("/close"@.drop_first() =~= "close"@);
    assert(tokens_of(l)[0].len() > 0 && tokens_of(l)[0][0] == '/');
    assert("close"@ != "ping"@);
    assert("close"@ != "pong"@);
}

/// With slash commands disabled, every console line — also one that
/// starts with the command marker — is echoed and sent verbatim as a
/// text frame, and the loop goes on.
pub proof fn lemma_slash_disabled_verbatim(l: Seq<char>, show: bool)
    ensures
        step_model(false, show, EventModel::ConsoleLine(l)).send == Some(OutFrameModel::Text(l)),
        step_model(false, show, EventModel::ConsoleLine(l)).prints == seq![
            NoticeModel::Line(echo_line(l)),
        ],
        !step_model(false, show, EventModel::ConsoleLine(l)).done,
        step_model(false, show, EventModel::ConsoleLine(l)).failure is None,
{
}

/// An inbound ping with payload `p` makes the session send exactly one
/// pong with payload `p`, keep running, and notify the console exactly
/// when the display flag is set.
pub proof fn lemma_session_ping_pong(slash: bool, show: bool, p: Seq<u8>)
    ensures
        step_model(slash, show, EventModel::Frame(FrameModel::Ping(p))).send == Some(
            OutFrameModel::Pong(p),
        ),
        !step_model(slash, show, EventModel::Frame(FrameModel::Ping(p))).done,
        show ==> step_model(slash, show, EventModel::Frame(FrameModel::Ping(p))).prints == seq![
            NoticeModel::Line(crate::frames::ping_notice(p)),
        ],
        !show ==> step_model(slash, show, EventModel::Frame(FrameModel::Ping(p))).prints
            == Seq::<NoticeModel>::empty(),
{
}

/// An inbound close frame, whatever its payload, stops the loop without
/// any further outbound frame.
pub proof fn lemma_session_close_stops(
    slash: bool,
    show: bool,
    info: Option<(u16, Seq<char>)>,
)
    ensures
        step_model(slash, show, EventModel::Frame(FrameModel::Close(info))).done,
        step_model(slash, show, EventModel::Frame(FrameModel::Close(info))).send is None,
        step_model(slash, show, EventModel::Frame(FrameModel::Close(info))).prints
            == Seq::<NoticeModel>::empty(),
{
}

} // verus!
