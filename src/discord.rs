//! The webhook side of a press: the JSON body that is posted, and how the
//! transport's report on one attempt is classified.
use vstd::prelude::*;
use vstd::string::StringExecFns;

verus! {

/// The classified result of one notification attempt.
#[derive(Clone, Copy, Debug, PartialEq, Eq, Structural)]
pub enum DispatchOutcome {
    /// The endpoint answered 200 or 204.
    Delivered,
    /// No request could be made; nothing was sent.
    RequestBuildFailed,
    /// The request was made but sending it failed.
    SendFailed,
    /// The endpoint answered with another status.
    RemoteRejected(u16),
}

/// How far one attempt got, as the transport reports it.
#[derive(Clone, Copy, Debug, PartialEq, Eq, Structural)]
pub enum TransportReport {
    /// The request could not be built.
    RequestError,
    /// The request was built; sending it, or reading the answer, failed.
    SendError,
    /// The endpoint answered with this status code.
    Status(u16),
}

pub open spec fn is_success(status: u16) -> bool {
    status == 200 || status == 204
}

pub open spec fn outcome_for(report: TransportReport) -> DispatchOutcome {
    match report {
        TransportReport::RequestError => DispatchOutcome::RequestBuildFailed,
        TransportReport::SendError => DispatchOutcome::SendFailed,
        TransportReport::Status(status) => if is_success(status) {
            DispatchOutcome::Delivered
        } else {
            DispatchOutcome::RemoteRejected(status)
        },
    }
}

/// Whether `status` counts as delivery.
pub fn is_success_status(status: u16) -> (r: bool)
    ensures
        r == is_success(status),
{
    status == 200 || status == 204
}

/// The outcome of an attempt from what the transport reported.
pub fn outcome_of(report: TransportReport) -> (r: DispatchOutcome)
    ensures
        r == outcome_for(report),
{
    match report {
        TransportReport::RequestError => DispatchOutcome::RequestBuildFailed,
        TransportReport::SendError => DispatchOutcome::SendFailed,
        TransportReport::Status(status) => {
            if is_success_status(status) {
                DispatchOutcome::Delivered
            } else {
                DispatchOutcome::RemoteRejected(status)
            }
        },
    }
}

impl DispatchOutcome {
    /// Whether the endpoint's answer body is worth keeping for diagnostics:
    /// only when it refused the request.
    pub fn captures_body(&self) -> (r: bool)
        ensures
            r == (*self is RemoteRejected),
    {
        match self {
            DispatchOutcome::RemoteRejected(_) => true,
            _ => false,
        }
    }
}

/// The text form of a JSON boolean.
pub open spec fn bool_text(b: bool) -> Seq<char> {
    if b {
        "true"@
    } else {
        "false"@
    }
}

/// `{"content": "<content>", "tts": <tts>, "embeds": [<embed>]}`, with the
/// content and embed placed as they are, unescaped.
pub open spec fn payload_text(content: Seq<char>, tts: bool, embed: Seq<char>) -> Seq<char> {
    "{\"content\": \""@ + content + "\", \"tts\": "@ + bool_text(tts) + ", \"embeds\": ["@ + embed
        + "]}"@
}

/// The body builder of one webhook: it knows whether messages are to be
/// read aloud.
pub struct Discord {
    tts: bool,
}

impl Discord {
    pub closed spec fn tts(&self) -> bool {
        self.tts
    }

    pub fn new(tts: bool) -> (r: Discord)
        ensures
            r.tts() == tts,
    {
        Discord { tts }
    }

    /// The body that posts `content` with `embed_json` as the one embed
    /// (none when it is empty).
    pub fn payload(&self, content: &str, embed_json: &str) -> (r: String)
        ensures
            r@ == payload_text(content@, self.tts(), embed_json@),
    {
        let mut body = String::from_str("{\"content\": \"");
        body.append(content);
        body.append("\", \"tts\": ");
        if self.tts {
            body.append("true");
        } else {
            body.append("false");
        }
        body.append(", \"embeds\": [");
        body.append(embed_json);
        body.append("]}");
        body
    }

    /// The body of a plain text message.
    pub fn message_payload(&self, message: &str) -> (r: String)
        ensures
            r@ == payload_text(message@, self.tts(), Seq::empty()),
    {
        proof {
            reveal_strlit("");
        }
        self.payload(message, "")
    }

    /// The body of an embed without text.
    pub fn embed_payload(&self, embed_json: &str) -> (r: String)
        ensures
            r@ == payload_text(Seq::empty(), self.tts(), embed_json@),
    {
        proof {
            reveal_strlit("");
        }
        self.payload("", embed_json)
    }
}

} // verus!
