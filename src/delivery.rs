use vstd::prelude::*;
use vstd::string::StringExecFns;
use crate::events::{kind_name, EventKind};
use crate::transcode::{encode, encode_model, DocModel, Document, Term, TermModel};

verus! {

/// What a mailbox message reports.
#[derive(Debug, Clone, Copy, PartialEq, Eq, Structural)]
pub enum ResultTag {
    /// An asynchronous call succeeded.
    Success,
    /// An asynchronous call failed in the native library.
    Failure,
    /// The native object fired an event nobody asked a result for.
    Event,
}

/// The atom that tags a message of each kind.
pub open spec fn tag_name(t: ResultTag) -> Seq<char> {
    match t {
        ResultTag::Success => "ok"@,
        ResultTag::Failure => "error"@,
        ResultTag::Event => "event"@,
    }
}

/// A message bound for one actor's mailbox.
#[derive(Debug, PartialEq)]
pub struct MailboxMessage {
    pub tag: ResultTag,
    /// The caller's correlation token, passed through untouched; events carry none.
    pub token: Option<Term>,
    pub payload: Term,
}

/// The outcome of a native asynchronous operation, as values.
pub open spec fn outcome_model(o: &Result<Document, String>) -> Result<DocModel, Seq<char>> {
    match o {
        Ok(d) => Ok(d@),
        Err(e) => Err(e@),
    }
}

/// The payload an outcome is delivered as: the transcoded value, or the
/// native error's description as a binary.
pub open spec fn outcome_payload(o: Result<DocModel, Seq<char>>) -> TermModel {
    match o {
        Ok(d) => encode_model(d),
        Err(e) => TermModel::Binary(e),
    }
}

/// The tag an outcome is delivered with.
pub open spec fn outcome_tag(o: Result<DocModel, Seq<char>>) -> ResultTag {
    match o {
        Ok(_) => ResultTag::Success,
        Err(_) => ResultTag::Failure,
    }
}

/// A message as values: tag, token, payload.
pub open spec fn message_model(m: &MailboxMessage) -> (ResultTag, Option<TermModel>, TermModel) {
    (
        m.tag,
        match m.token {
            Some(t) => Some(t@),
            None => None,
        },
        m.payload@,
    )
}

/// The message that answers the call correlated by `token` once its
/// operation has finished with `outcome`.
pub open spec fn completion_model(token: TermModel, o: Result<DocModel, Seq<char>>) -> (
    ResultTag,
    Option<TermModel>,
    TermModel,
) {
    (outcome_tag(o), Some(token), outcome_payload(o))
}

/// Builds the message that answers an asynchronous call: the outcome,
/// transcoded, under the caller's correlation token.
pub fn completion_message(token: Term, outcome: Result<Document, String>) -> (m: MailboxMessage)
    ensures
        message_model(&m) == completion_model(token@, outcome_model(&outcome)),
        m.token == Some(token),
{
    match outcome {
        Ok(d) => MailboxMessage { tag: ResultTag::Success, token: Some(token), payload: encode(&d) },
        Err(e) => MailboxMessage { tag: ResultTag::Failure, token: Some(token), payload: Term::Binary(e) },
    }
}

/// The payload of an event message: the event's atom, followed by its
/// transcoded argument when it has one.
pub open spec fn event_payload(kind: EventKind, arg: Option<DocModel>) -> TermModel {
    match arg {
        Some(d) => TermModel::Tuple(seq![TermModel::Atom(kind_name(kind)), encode_model(d)]),
        None => TermModel::Tuple(seq![TermModel::Atom(kind_name(kind))]),
    }
}

/// Builds the unsolicited message a fired event is delivered as.
pub fn event_message(kind: EventKind, arg: Option<Document>) -> (m: MailboxMessage)
    ensures
        m.tag == ResultTag::Event,
        m.token is None,
        m.payload@ == event_payload(
            kind,
            match arg {
                Some(d) => Some(d@),
                None => None,
            },
        ),
{
    let name = Term::Atom(String::from_str(kind.name()));
    let mut items: Vec<Term> = Vec::new();
    items.push(name);
    match &arg {
        Some(d) => {
            items.push(encode(d));
        },
        None => {},
    }
    let ghost elems = items@;
    let payload = Term::Tuple(items);
    proof {
        assert(payload@->Tuple_0.len() == elems.len());
        assert(payload@->Tuple_0[0] == elems[0]@);
        assert(elems[0]@ == TermModel::Atom(kind_name(kind)));
        if elems.len() > 1 {
            assert(payload@->Tuple_0[1] == elems[1]@);
        }
        match arg {
            Some(d) => {
                assert(payload@->Tuple_0 =~= seq![TermModel::Atom(kind_name(kind)), encode_model(d@)]);
            },
            None => {
                assert(payload@->Tuple_0 =~= seq![TermModel::Atom(kind_name(kind))]);
            },
        }
    }
    MailboxMessage { tag: ResultTag::Event, token: None, payload }
}

/// Correlation integrity: however the completions of several calls are
/// ordered, the message built for each completion carries the token and the
/// outcome of the call that completed, so calls with distinct tokens never
/// receive each other's messages.
pub proof fn lemma_correlation(
    tokens: Seq<TermModel>,
    outcomes: Seq<Result<DocModel, Seq<char>>>,
    order: Seq<int>,
)
    requires
        tokens.len() == outcomes.len(),
        forall|i: int, j: int| 0 <= i < j < tokens.len() ==> tokens[i] != tokens[j],
        forall|k: int| 0 <= k < order.len() ==> 0 <= #[trigger] order[k] < tokens.len(),
        order.no_duplicates(),
    ensures
        forall|k: int|
            0 <= k < order.len() ==> {
                let m = completion_model(tokens[#[trigger] order[k]], outcomes[order[k]]);
                &&& m.1 == Some(tokens[order[k]])
                &&& m.0 == outcome_tag(outcomes[order[k]])
                &&& m.2 == outcome_payload(outcomes[order[k]])
            },
        forall|k1: int, k2: int|
            0 <= k1 < order.len() && 0 <= k2 < order.len() && k1 != k2 ==> completion_model(
                tokens[#[trigger] order[k1]],
                outcomes[order[k1]],
            ).1 != completion_model(tokens[#[trigger] order[k2]], outcomes[order[k2]]).1,
{
    assert forall|k1: int, k2: int|
        0 <= k1 < order.len() && 0 <= k2 < order.len() && k1 != k2 implies completion_model(
        tokens[#[trigger] order[k1]],
        outcomes[order[k1]],
    ).1 != completion_model(tokens[#[trigger] order[k2]], outcomes[order[k2]]).1 by {
        assert(order[k1] != order[k2]);
        if order[k1] < order[k2] {
            assert(tokens[order[k1]] != tokens[order[k2]]);
        } else {
            assert(tokens[order[k2]] != tokens[order[k1]]);
        }
    }
}

/// The tuple a message reaches the host runtime as:
/// `{tag, token or nil, payload}`.
pub open spec fn message_term_model(m: &MailboxMessage) -> TermModel {
    TermModel::Tuple(
        seq![
            TermModel::Atom(tag_name(m.tag)),
            match m.token {
                Some(t) => t@,
                None => TermModel::Nil,
            },
            m.payload@,
        ],
    )
}

/// The atom name of a tag.
pub fn tag_atom(t: ResultTag) -> (r: &'static str)
    ensures
        r@ == tag_name(t),
{
    match t {
        ResultTag::Success => "ok",
        ResultTag::Failure => "error",
        ResultTag::Event => "event",
    }
}

/// Writes a message as the term that is enqueued in the mailbox.
pub fn message_term(m: MailboxMessage) -> (t: Term)
    ensures
        t@ == message_term_model(&m),
{
    let ghost g = m;
    let tag = Term::Atom(String::from_str(tag_atom(m.tag)));
    let token = match m.token {
        Some(t) => t,
        None => Term::Nil,
    };
    let mut items: Vec<Term> = Vec::new();
    items.push(tag);
    items.push(token);
    items.push(m.payload);
    let ghost elems = items@;
    let t = Term::Tuple(items);
    proof {
        assert(t@->Tuple_0.len() == 3);
        assert(t@->Tuple_0[0] == elems[0]@);
        assert(t@->Tuple_0[1] == elems[1]@);
        assert(t@->Tuple_0[2] == elems[2]@);
        assert(t@->Tuple_0 =~= message_term_model(&g)->Tuple_0);
    }
    t
}

} // verus!
