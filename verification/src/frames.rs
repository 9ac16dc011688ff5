//! Inbound-frame handling: the automatic reaction to each protocol frame
//! and the console lines it produces.
use vstd::prelude::*;

use vstd::utf8::{decode_utf8, valid_utf8};

verus! {

/// Mathematical image of an `InboundFrame`.
#[verifier::ext_equal]
pub enum FrameModel {
    Text(Seq<char>),
    Binary(Seq<u8>),
    Ping(Seq<u8>),
    Pong(Seq<u8>),
    Close(Option<(u16, Seq<char>)>),
    Other,
}

/// One frame received from the server, as handed to the responder.
/// `Other` stands for any protocol frame outside the five data and
/// control kinds; the responder ignores it.
pub enum InboundFrame {
    Text(String),
    Binary(Vec<u8>),
    Ping(Vec<u8>),
    Pong(Vec<u8>),
    Close(Option<(u16, String)>),
    Other,
}

impl View for InboundFrame {
    type V = FrameModel;

    open spec fn view(&self) -> FrameModel {
        match self {
            InboundFrame::Text(t) => FrameModel::Text(t@),
            InboundFrame::Binary(b) => FrameModel::Binary(b@),
            InboundFrame::Ping(p) => FrameModel::Ping(p@),
            InboundFrame::Pong(p) => FrameModel::Pong(p@),
            InboundFrame::Close(None) => FrameModel::Close(None),
            InboundFrame::Close(Some((c, r))) => FrameModel::Close(Some((*c, r@))),
            InboundFrame::Other => FrameModel::Other,
        }
    }
}

/// Mathematical image of an `OutboundFrame`.
#[verifier::ext_equal]
pub enum OutFrameModel {
    Text(Seq<char>),
    Ping(Seq<u8>),
    Pong(Seq<u8>),
    Close(Option<(u16, Seq<char>)>),
}

/// One frame for the session to send.
pub enum OutboundFrame {
    Text(String),
    Ping(Vec<u8>),
    Pong(Vec<u8>),
    Close(Option<(u16, String)>),
}

impl View for OutboundFrame {
    type V = OutFrameModel;

    open spec fn view(&self) -> OutFrameModel {
        match self {
            OutboundFrame::Text(t) => OutFrameModel::Text(t@),
            OutboundFrame::Ping(p) => OutFrameModel::Ping(p@),
            OutboundFrame::Pong(p) => OutFrameModel::Pong(p@),
            OutboundFrame::Close(None) => OutFrameModel::Close(None),
            OutboundFrame::Close(Some((c, r))) => OutFrameModel::Close(Some((*c, r@))),
        }
    }
}

/// Mathematical image of a `Notice`.
#[verifier::ext_equal]
pub enum NoticeModel {
    Line(Seq<char>),
    Warn(Seq<char>),
}

/// One console line the session asks the caller to print: `Line` on the
/// ordinary output channel, `Warn` on the error channel.
pub enum Notice {
    Line(String),
    Warn(String),
}

impl View for Notice {
    type V = NoticeModel;

    open spec fn view(&self) -> NoticeModel {
        match self {
            Notice::Line(s) => NoticeModel::Line(s@),
            Notice::Warn(s) => NoticeModel::Warn(s@),
        }
    }
}

impl DeepView for Notice {
    type V = NoticeModel;

    open spec fn deep_view(&self) -> NoticeModel {
        self.view()
    }
}

/// What `String::from_utf8_lossy` decodes `b` to.
pub uninterp spec fn lossy_utf8(b: Seq<u8>) -> Seq<char>;

/// Relies on `String::from_utf8_lossy`: the result is a function of the
/// bytes alone, and valid UTF-8 decodes to exactly its own characters.
#[verifier::external_body]
pub fn utf8_lossy(b: &Vec<u8>) -> (r: String)
    ensures
        r@ == lossy_utf8(b@),
        valid_utf8(b@) ==> r@ == decode_utf8(b@),
{
    String::from_utf8_lossy(b).into_owned()
}

/// The console line for an inbound payload: the inbound prefix and the
/// payload text.
pub open spec fn inbound_line(t: Seq<char>) -> Seq<char> {
    "< "@ + t
}

/// The console notification for an inbound ping with payload `p`.
pub open spec fn ping_notice(p: Seq<u8>) -> Seq<char> {
    "< Received ping (data: \""@ + lossy_utf8(p) + "\")"@
}

/// The console notification for an inbound pong with payload `p`.
pub open spec fn pong_notice(p: Seq<u8>) -> Seq<char> {
    "< Received pong (data: \""@ + lossy_utf8(p) + "\")"@
}

/// Mathematical image of a `FrameOutcome`.
#[verifier::ext_equal]
pub struct FrameOutcomeModel {
    pub prints: Seq<NoticeModel>,
    pub reply: Option<OutFrameModel>,
    pub done: bool,
}

/// The required reaction to one inbound frame: console lines to print in
/// order, at most one automatic reply to send, and whether the session
/// loop must stop.
pub struct FrameOutcome {
    pub prints: Vec<Notice>,
    pub reply: Option<OutboundFrame>,
    pub done: bool,
}

impl View for FrameOutcome {
    type V = FrameOutcomeModel;

    open spec fn view(&self) -> FrameOutcomeModel {
        FrameOutcomeModel {
            prints: self.prints.deep_view(),
            reply: match &self.reply {
                Some(f) => Some(f@),
                None => None,
            },
            done: self.done,
        }
    }
}

/// The reaction the responder owes to each inbound frame: print text and
/// binary payloads, answer a ping with a pong carrying the same payload,
/// note a pong, stop on close, ignore anything else. Ping and pong are
/// echoed to the console only when `show` is set.
pub open spec fn frame_outcome(f: FrameModel, show: bool) -> FrameOutcomeModel {
    match f {
        FrameModel::Text(t) => FrameOutcomeModel {
            prints: seq![NoticeModel::Line(inbound_line(t))],
            reply: None,
            done: false,
        },
        FrameModel::Binary(b) => FrameOutcomeModel {
            prints: seq![NoticeModel::Line(inbound_line(lossy_utf8(b)))],
            reply: None,
            done: false,
        },
        FrameModel::Ping(p) => FrameOutcomeModel {
            prints: if show {
                seq![NoticeModel::Line(ping_notice(p))]
            } else {
                Seq::empty()
            },
            reply: Some(OutFrameModel::Pong(p)),
            done: false,
        },
        FrameModel::Pong(p) => FrameOutcomeModel {
            prints: if show {
                seq![NoticeModel::Line(pong_notice(p))]
            } else {
                Seq::empty()
            },
            reply: None,
            done: false,
        },
        FrameModel::Close(_) => FrameOutcomeModel { prints: Seq::empty(), reply: None, done: true },
        FrameModel::Other => FrameOutcomeModel { prints: Seq::empty(), reply: None, done: false },
    }
}

fn no_notices() -> (v: Vec<Notice>)
    ensures
        v.deep_view() == Seq::<NoticeModel>::empty(),
{
    let v: Vec<Notice> = Vec::new();
    proof {
        assert(v.deep_view() =~= Seq::<NoticeModel>::empty());
    }
    v
}

fn one_notice(n: Notice) -> (v: Vec<Notice>)
    ensures
        v.deep_view() == seq![n@],
{
    let ghost m = n@;
    let mut v: Vec<Notice> = Vec::new();
    v.push(n);
    proof {
        assert(v.deep_view() =~= seq![m]);
    }
    v
}

/// Decide the reaction to one inbound frame, as `frame_outcome` states
/// it. Consumes the frame so a ping's payload moves into the pong reply.
pub fn frame_response(f: InboundFrame, show: bool) -> (o: FrameOutcome)
    ensures
        o@ == frame_outcome(f@, show),
{
    let ghost fm = f@;
    match f {
        InboundFrame::Text(t) => {
            let mut line = String::from_str("< ");
            line.append(t.as_str());
            let o = FrameOutcome {
                prints: one_notice(Notice::Line(line)),
                reply: None,
                done: false,
            };
            proof {
                assert(o@ =~= frame_outcome(fm, show));
            }
            o
        },
        InboundFrame::Binary(b) => {
            let text = utf8_lossy(&b);
            let mut line = String::from_str("< ");
            line.append(text.as_str());
            let o = FrameOutcome {
                prints: one_notice(Notice::Line(line)),
                reply: None,
                done: false,
            };
            proof {
                assert(o@ =~= frame_outcome(fm, show));
            }
            o
        },
        InboundFrame::Ping(p) => {
            let prints = if show {
                let text = utf8_lossy(&p);
                let mut line = String::from_str("< Received ping (data: \"");
                line.append(text.as_str());
                line.append("\")");
                one_notice(Notice::Line(line))
            } else {
                no_notices()
            };
            let o = FrameOutcome { prints, reply: Some(OutboundFrame::Pong(p)), done: false };
            proof {
                assert(o@ =~= frame_outcome(fm, show));
            }
            o
        },
        InboundFrame::Pong(p) => {
            let prints = if show {
                let text = utf8_lossy(&p);
                let mut line = String::from_str("< Received pong (data: \"");
                line.append(text.as_str());
                line.append("\")");
                one_notice(Notice::Line(line))
            } else {
                no_notices()
            };
            let o = FrameOutcome { prints, reply: None, done: false };
            proof {
                assert(o@ =~= frame_outcome(fm, show));
            }
            o
        },
        InboundFrame::Close(_) => {
            let o = FrameOutcome { prints: no_notices(), reply: None, done: true };
            proof {
                assert(o@ =~= frame_outcome(fm, show));
            }
            o
        },
        InboundFrame::Other => {
            let o = FrameOutcome { prints: no_notices(), reply: None, done: false };
            proof {
                assert(o@ =~= frame_outcome(fm, show));
            }
            o
        },
    }
}

/// An inbound ping with payload `p` is answered by exactly one pong with
/// the same payload, never stops the loop, and is echoed to the console
/// exactly when the display flag is set.
pub proof fn lemma_ping_pong(p: Seq<u8>, show: bool)
    ensures
        frame_outcome(FrameModel::Ping(p), show).reply == Some(OutFrameModel::Pong(p)),
        !frame_outcome(FrameModel::Ping(p), show).done,
        show ==> frame_outcome(FrameModel::Ping(p), show).prints == seq![
            NoticeModel::Line(ping_notice(p)),
        ],
        !show ==> frame_outcome(FrameModel::Ping(p), show).prints == Seq::<NoticeModel>::empty(),
{
}

/// An inbound close frame, whatever its payload, stops the loop and
/// sends nothing and prints nothing.
pub proof fn lemma_close_terminates(info: Option<(u16, Seq<char>)>, show: bool)
    ensures
        frame_outcome(FrameModel::Close(info), show).done,
        frame_outcome(FrameModel::Close(info), show).reply is None,
        frame_outcome(FrameModel::Close(info), show).prints == Seq::<NoticeModel>::empty(),
{
}

} // verus!
