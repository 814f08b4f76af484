//! The request that answers an inline query.
//!
//! Field-level skip rules: an empty results sequence and absent
//! `switch_pm_*` options are omitted from the JSON object entirely — the
//! key is absent, never `null` or `[]`.

use vstd::prelude::*;

verus! {

use crate::Error;
use crate::codec::bool_bytes;
use crate::codec::json_str;
use crate::codec::lit;
use crate::codec::push_bool;
use crate::codec::push_json_string;
use crate::codec::push_text;
use crate::http::HttpRequest;
use crate::http::HttpRequestV;
use crate::http::JsonEncodable;
use crate::http::JsonRequestType;
use crate::http::JsonTrueToUnitResponse;
use crate::http::Method;
use crate::http::BodyV;
use crate::http::Request;
use crate::http::RequestType;
use crate::http::RequestUrl;
use crate::types::InlineQueryId;
use crate::types::InlineQueryResult;
use crate::types::ToInlineQueryId;

/// Answer to an inline query.
#[derive(Debug, Clone, PartialEq, Eq)]
pub struct AnswerInlineQuery {
    pub inline_query_id: InlineQueryId,
    pub results: Vec<InlineQueryResult>,
    pub is_personal: bool,
    pub switch_pm_text: Option<String>,
    pub switch_pm_parameter: Option<String>,
}

/// The JSON object of one offered result.
pub open spec fn result_json(r: InlineQueryResult) -> Seq<u8> {
    lit("{\"type\":") + json_str(r.kind@) + lit(",\"id\":") + json_str(r.id@) + lit("}")
}

/// The comma-separated renderings of a run of results.
pub open spec fn results_items_json(rs: Seq<InlineQueryResult>) -> Seq<u8>
    decreases rs.len(),
{
    if rs.len() == 0 {
        Seq::empty()
    } else if rs.len() == 1 {
        result_json(rs[0])
    } else {
        results_items_json(rs.drop_last()) + lit(",") + result_json(rs.last())
    }
}

/// The JSON object of the whole request: one key per non-skipped field, in
/// declaration order, with the empty results sequence and absent options
/// omitted.
pub open spec fn answer_json(q: AnswerInlineQuery) -> Seq<u8> {
    lit("{\"inline_query_id\":") + json_str(q.inline_query_id.0@) + (if q.results@.len() == 0 {
        Seq::<u8>::empty()
    } else {
        lit(",\"results\":[") + results_items_json(q.results@) + lit("]")
    }) + lit(",\"is_personal\":") + bool_bytes(q.is_personal) + (match q.switch_pm_text {
        Some(t) => lit(",\"switch_pm_text\":") + json_str(t@),
        None => Seq::<u8>::empty(),
    }) + (match q.switch_pm_parameter {
        Some(p) => lit(",\"switch_pm_parameter\":") + json_str(p@),
        None => Seq::<u8>::empty(),
    }) + lit("}")
}

impl AnswerInlineQuery {
    /// Builds the answer with the caller's fields and the domain default of
    /// personal visibility.
    pub fn new(
        inline_query_id: InlineQueryId,
        results: Vec<InlineQueryResult>,
        switch_pm_text: Option<String>,
        switch_pm_parameter: Option<String>,
    ) -> (r: AnswerInlineQuery)
        ensures
            r == (AnswerInlineQuery {
                inline_query_id,
                results,
                is_personal: true,
                switch_pm_text,
                switch_pm_parameter,
            }),
    {
        AnswerInlineQuery {
            inline_query_id,
            results,
            is_personal: true,
            switch_pm_text,
            switch_pm_parameter,
        }
    }

    /// Appends one more result to offer.
    pub fn add_inline_result(&mut self, result: InlineQueryResult)
        ensures
            final(self).inline_query_id == old(self).inline_query_id,
            final(self).results@ == old(self).results@.push(result),
            final(self).is_personal == old(self).is_personal,
            final(self).switch_pm_text == old(self).switch_pm_text,
            final(self).switch_pm_parameter == old(self).switch_pm_parameter,
    {
        self.results.push(result);
    }
}

fn write_result(r: &InlineQueryResult, out: &mut Vec<u8>)
    ensures
        final(out)@ == old(out)@ + result_json(*r),
{
    push_text(out, "{\"type\":");
    push_json_string(out, r.kind.as_str());
    push_text(out, ",\"id\":");
    push_json_string(out, r.id.as_str());
    push_text(out, "}");
    proof {
        assert(out@ =~= old(out)@ + result_json(*r));
    }
}

fn write_results_items(results: &Vec<InlineQueryResult>, out: &mut Vec<u8>)
    requires
        results@.len() > 0,
    ensures
        final(out)@ == old(out)@ + results_items_json(results@),
{
    let n = results.len();
    let mut i: usize = 0;
    while i < n
        invariant
            0 < n == results@.len(),
            i <= n,
            out@ == old(out)@ + results_items_json(results@.take(i as int)),
        decreases n - i,
    {
        if i > 0 {
            push_text(out, ",");
        }
        write_result(&results[i], out);
        proof {
            let rs = results@;
            if i == 0 {
                assert(rs.take(1)[0] == rs[0]);
            } else {
                assert(rs.take(i + 1).drop_last() =~= rs.take(i as int));
                assert(rs.take(i + 1).last() == rs[i as int]);
            }
            assert(out@ =~= old(out)@ + results_items_json(rs.take(i + 1)));
        }
        i = i + 1;
    }
    proof {
        assert(results@.take(n as int) =~= results@);
    }
}

impl JsonEncodable for AnswerInlineQuery {
    open spec fn json_spec(&self) -> Seq<u8> {
        answer_json(*self)
    }

    #[verifier::rlimit(60)]
    fn write_json(&self, out: &mut Vec<u8>) {
        push_text(out, "{\"inline_query_id\":");
        push_json_string(out, self.inline_query_id.0.as_str());
        let ghost head = old(out)@ + lit("{\"inline_query_id\":") + json_str(
            self.inline_query_id.0@,
        );
        assert(out@ =~= head);
        if self.results.len() > 0 {
            push_text(out, ",\"results\":[");
            write_results_items(&self.results, out);
            push_text(out, "]");
        }
        let ghost with_results = head + (if self.results@.len() == 0 {
            Seq::<u8>::empty()
        } else {
            lit(",\"results\":[") + results_items_json(self.results@) + lit("]")
        });
        assert(out@ =~= with_results);
        push_text(out, ",\"is_personal\":");
        push_bool(out, self.is_personal);
        let ghost with_personal = with_results + lit(",\"is_personal\":") + bool_bytes(
            self.is_personal,
        );
        assert(out@ =~= with_personal);
        match &self.switch_pm_text {
            Some(t) => {
                push_text(out, ",\"switch_pm_text\":");
                push_json_string(out, t.as_str());
            },
            None => {},
        }
        let ghost with_text = with_personal + (match &self.switch_pm_text {
            Some(t) => lit(",\"switch_pm_text\":") + json_str(t@),
            None => Seq::<u8>::empty(),
        });
        assert(out@ =~= with_text);
        match &self.switch_pm_parameter {
            Some(p) => {
                push_text(out, ",\"switch_pm_parameter\":");
                push_json_string(out, p.as_str());
            },
            None => {},
        }
        push_text(out, "}");
        proof {
            assert(out@ =~= old(out)@ + self.json_spec());
        }
    }
}

impl Request for AnswerInlineQuery {
    type Type = JsonRequestType<Self>;

    type Response = JsonTrueToUnitResponse;

    open spec fn envelope_spec(&self) -> HttpRequestV {
        HttpRequestV {
            url: "answerInlineQuery"@,
            method: Method::Post,
            body: BodyV::Json(answer_json(*self)),
        }
    }

    fn serialize(&self) -> (r: Result<HttpRequest, Error>) {
        JsonRequestType::<Self>::serialize(RequestUrl::method("answerInlineQuery"), self)
    }
}

/// Capability sugar: anything that can stand for an inline-query id can
/// answer the query.
pub trait CanAnswerInlineQuery: Sized {
    /// The characters of the query id this value stands for.
    spec fn answer_query_id_spec(&self) -> Seq<char>;

    fn answer(
        self,
        results: Vec<InlineQueryResult>,
        switch_pm_text: Option<String>,
        switch_pm_parameter: Option<String>,
    ) -> (r: AnswerInlineQuery)
        ensures
            r.inline_query_id.0@ == self.answer_query_id_spec(),
            r.results == results,
            r.is_personal == true,
            r.switch_pm_text == switch_pm_text,
            r.switch_pm_parameter == switch_pm_parameter,
    ;
}

impl<T: ToInlineQueryId> CanAnswerInlineQuery for T {
    open spec fn answer_query_id_spec(&self) -> Seq<char> {
        self.query_id_spec()
    }

    fn answer(
        self,
        results: Vec<InlineQueryResult>,
        switch_pm_text: Option<String>,
        switch_pm_parameter: Option<String>,
    ) -> (r: AnswerInlineQuery) {
        let id = self.to_query_id();
        AnswerInlineQuery::new(id, results, switch_pm_text, switch_pm_parameter)
    }
}

} // verus!
