//! What the client is sent, and how it looks on the wire.

use crate::decimal::{decimal, render_count};
use crate::json::{
    json_lines, json_model, json_number, json_object1, json_object2, json_text, json_texts,
    object1, object2, Json,
};
use serde_json::Value;
use vstd::prelude::*;

verus! {

/// The texts of a list of lines.
pub open spec fn texts(lines: Seq<String>) -> Seq<Seq<char>> {
    Seq::new(lines.len(), |i: int| lines[i]@)
}

/// What a response tells the client.
#[derive(Debug, PartialEq, Eq)]
#[allow(inconsistent_fields)]
pub enum Payload {
    /// The number of lines seen so far.
    Progress { total: usize },
    /// The first lines of the output, sent once the output has grown past them.
    Preview { lines: Vec<String> },
    /// The number of lines of the whole output; with all of them, where no
    /// preview went before.
    Final { total: usize, lines: Option<Vec<String>> },
    /// A failure of the run.
    Error { message: String },
}

/// A payload with the request that it answers.
#[derive(Debug, PartialEq, Eq)]
pub struct Response {
    pub id: u64,
    pub payload: Payload,
}

#[verifier::ext_equal]
#[allow(inconsistent_fields)]
pub enum PayloadView {
    Progress { total: nat },
    Preview { lines: Seq<Seq<char>> },
    Final { total: nat, lines: Option<Seq<Seq<char>>> },
    Error { message: Seq<char> },
}

#[verifier::ext_equal]
pub struct ResponseView {
    pub id: u64,
    pub payload: PayloadView,
}

impl View for Payload {
    type V = PayloadView;

    open spec fn view(&self) -> PayloadView {
        match *self {
            Payload::Progress { total } => PayloadView::Progress { total: total as nat },
            Payload::Preview { lines } => PayloadView::Preview { lines: texts(lines@) },
            Payload::Final { total, lines } => PayloadView::Final {
                total: total as nat,
                lines: match lines {
                    Some(lines) => Some(texts(lines@)),
                    None => None,
                },
            },
            Payload::Error { message } => PayloadView::Error { message: message@ },
        }
    }
}

impl View for Response {
    type V = ResponseView;

    open spec fn view(&self) -> ResponseView {
        ResponseView { id: self.id, payload: self.payload@ }
    }
}

/// The views of a list of responses.
pub open spec fn response_views(responses: Seq<Response>) -> Seq<ResponseView> {
    Seq::new(responses.len(), |i: int| responses[i]@)
}

/// A result and the request that it belongs to.
pub open spec fn envelope(result: Json, id: u64) -> Json {
    object2("result"@, result, "id"@, Json::Number(id as int))
}

/// The JSON document that carries a response to the client. A count travels as
/// decimal text.
pub open spec fn wire(r: ResponseView) -> Json {
    match r.payload {
        PayloadView::Progress { total } => envelope(
            object1("total"@, Json::Text(decimal(total))),
            r.id,
        ),
        PayloadView::Preview { lines } => envelope(object1("lines"@, json_texts(lines)), r.id),
        PayloadView::Final { total, lines: None } => envelope(
            object1("total"@, Json::Text(decimal(total))),
            r.id,
        ),
        PayloadView::Final { total, lines: Some(lines) } => envelope(
            object2("total"@, Json::Text(decimal(total)), "lines"@, json_texts(lines)),
            r.id,
        ),
        PayloadView::Error { message } => object2(
            "error"@,
            Json::Text(message),
            "id"@,
            Json::Number(r.id as int),
        ),
    }
}

impl Response {
    /// The JSON document that carries this response to the client.
    pub fn to_json(&self) -> (v: Value)
        ensures
            json_model(v) == wire(self@),
    {
        proof {
            reveal_strlit("result");
            reveal_strlit("id");
            reveal_strlit("total");
            reveal_strlit("lines");
            reveal_strlit("error");
            assert("result"@.len() != "id"@.len());
            assert("error"@.len() != "id"@.len());
            assert("total"@[0] != "lines"@[0]);
        }
        match &self.payload {
            Payload::Progress { total } => {
                let result = json_object1("total", json_text(render_count(*total)));
                json_object2("result", result, "id", json_number(self.id))
            },
            Payload::Preview { lines } => {
                let result = json_object1("lines", json_lines(lines));
                json_object2("result", result, "id", json_number(self.id))
            },
            Payload::Final { total, lines: None } => {
                let result = json_object1("total", json_text(render_count(*total)));
                json_object2("result", result, "id", json_number(self.id))
            },
            Payload::Final { total, lines: Some(lines) } => {
                let result = json_object2(
                    "total",
                    json_text(render_count(*total)),
                    "lines",
                    json_lines(lines),
                );
                json_object2("result", result, "id", json_number(self.id))
            },
            Payload::Error { message } => json_object2(
                "error",
                json_text(message.clone()),
                "id",
                json_number(self.id),
            ),
        }
    }
}

} // verus!
