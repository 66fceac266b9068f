//! Execution planning and the request lifecycle.
//!
//! [`build_request_plan`] turns an [`Http`] description into the exact
//! wire-level plan a worker must carry out: final header list (the parameter
//! kind's forced content type is applied after, and thereby over, the
//! user-supplied headers) and the body encoding. The lifecycle operations
//! [`Http::send`], [`Http::complete`], [`Http::cancel`] and
//! [`Http::dismiss_result`] drive the `Idle` / `Pending` / `Completed` state
//! machine; the caller performs the planned call off the interactive thread
//! and hands the outcome back through `complete`.

use vstd::prelude::*;

use crate::request::{
    content_type_of, form_view, header_view, same_request_fields, FormParamV, Http, Lifecycle,
    Method, ParamType, RequestResult,
};
use crate::strutil::ci_eq_char;

verus! {

/// One part of a planned multipart body.
pub enum PartPlan {
    /// A text field, attached under its name.
    TextPart { name: String, value: String },
    /// A file field: the file's contents are read at send time and attached
    /// under the name; a missing file fails the whole call.
    FilePart { name: String, path: String },
}

/// Spec-level image of one multipart part.
pub enum PartView {
    TextPart { name: Seq<char>, value: Seq<char> },
    FilePart { name: Seq<char>, path: Seq<char> },
}

/// Spec-level image of one planned part.
pub open spec fn part_view(p: PartPlan) -> PartView {
    match p {
        PartPlan::TextPart { name, value } => PartView::TextPart { name: name@, value: value@ },
        PartPlan::FilePart { name, path } => PartView::FilePart { name: name@, path: path@ },
    }
}

/// Spec-level image of a planned part list.
pub open spec fn parts_view(v: Seq<PartPlan>) -> Seq<PartView> {
    v.map_values(|p: PartPlan| part_view(p))
}

/// How the body of a planned request is encoded.
pub enum BodyPlan {
    /// No body.
    NoBody,
    /// The text sent verbatim as the body.
    Text(String),
    /// A multipart form body.
    Multipart(Vec<PartPlan>),
    /// No body; the pairs become URL query parameters, in order.
    QueryParams(Vec<(String, String)>),
}

/// Everything a worker needs to carry out one call.
pub struct RequestPlan {
    pub method: Method,
    pub url: String,
    pub headers: Vec<(String, String)>,
    pub body: BodyPlan,
}

/// The final header list: the user's headers, in order, followed by the
/// parameter kind's forced content type when there is one.
pub open spec fn planned_headers(hs: Seq<(Seq<char>, Seq<char>)>, pt: ParamType) -> Seq<
    (Seq<char>, Seq<char>),
> {
    if content_type_of(pt).len() == 0 {
        hs
    } else {
        hs.push(("Content-Type"@, content_type_of(pt)))
    }
}

/// The multipart parts of a form entry list: a text entry becomes a text
/// part, a file entry with a path becomes a file part, and a file entry
/// without a path is dropped.
pub open spec fn multipart_parts(form: Seq<FormParamV>) -> Seq<PartView>
    decreases form.len(),
{
    if form.len() == 0 {
        Seq::empty()
    } else {
        let rest = multipart_parts(form.drop_last());
        let e = form.last();
        if e.3 is File {
            match e.2 {
                Option::Some(p) => rest.push(PartView::FilePart { name: e.0, path: p }),
                Option::None => rest,
            }
        } else {
            rest.push(PartView::TextPart { name: e.0, value: e.1 })
        }
    }
}

/// The query pairs of a form entry list: key and text value of every entry,
/// in order.
pub open spec fn query_pairs(form: Seq<FormParamV>) -> Seq<(Seq<char>, Seq<char>)> {
    form.map_values(|e: FormParamV| (e.0, e.1))
}

/// Spec-level image of a pair list.
pub open spec fn pairs_view(v: Seq<(String, String)>) -> Seq<(Seq<char>, Seq<char>)> {
    v.map_values(|h: (String, String)| (h.0@, h.1@))
}

/// The plan is exactly what the description calls for.
pub open spec fn plan_matches(r: RequestPlan, h: Http) -> bool {
    &&& r.method == h.method
    &&& r.url@ == h.url@
    &&& header_view(r.headers@) == planned_headers(header_view(h.header@), h.param_type)
    &&& match h.param_type {
        ParamType::FormData => r.body matches BodyPlan::Multipart(parts) && parts_view(parts@)
            == multipart_parts(form_view(h.form_param@)),
        ParamType::Json => r.body matches BodyPlan::Text(t) && t@ == h.text_param@,
        ParamType::Other => r.body matches BodyPlan::Text(t) && t@ == h.text_param@,
        ParamType::Query => r.body matches BodyPlan::QueryParams(q) && pairs_view(q@)
            == query_pairs(form_view(h.form_param@)),
        ParamType::NoBody => r.body is NoBody,
    }
}

/// Builds the wire-level plan for a request description.
pub fn build_request_plan(h: &Http) -> (r: RequestPlan)
    ensures
        plan_matches(r, *h),
{
    let mut headers: Vec<(String, String)> = Vec::new();
    let mut i: usize = 0;
    while i < h.header.len()
        invariant
            0 <= i <= h.header@.len(),
            headers@.len() == i,
            header_view(headers@) == header_view(h.header@).take(i as int),
        decreases h.header@.len() - i,
    {
        let pair = (h.header[i].0.clone(), h.header[i].1.clone());
        headers.push(pair);
        proof {
            assert(header_view(headers@) =~= header_view(h.header@).take(i + 1));
        }
        i += 1;
    }
    proof {
        assert(header_view(h.header@).take(h.header@.len() as int) =~= header_view(h.header@));
    }
    let ct = h.param_type.get_content_type();
    if !ct.as_str().is_empty() {
        headers.push((String::from_str("Content-Type"), ct));
        proof {
            assert(header_view(headers@) =~= planned_headers(
                header_view(h.header@),
                h.param_type,
            ));
        }
    }
    let body = match h.param_type {
        ParamType::FormData => BodyPlan::Multipart(plan_parts(&h.form_param)),
        ParamType::Json => BodyPlan::Text(h.text_param.clone()),
        ParamType::Other => BodyPlan::Text(h.text_param.clone()),
        ParamType::Query => BodyPlan::QueryParams(plan_query(&h.form_param)),
        ParamType::NoBody => BodyPlan::NoBody,
    };
    RequestPlan { method: h.method, url: h.url.clone(), headers: headers, body: body }
}

fn plan_parts(form: &Vec<crate::request::FormParam>) -> (r: Vec<PartPlan>)
    ensures
        parts_view(r@) == multipart_parts(form_view(form@)),
{
    let mut parts: Vec<PartPlan> = Vec::new();
    let mut i: usize = 0;
    while i < form.len()
        invariant
            0 <= i <= form@.len(),
            parts_view(parts@) == multipart_parts(form_view(form@).take(i as int)),
        decreases form@.len() - i,
    {
        let entry = &form[i];
        proof {
            assert(form_view(form@).take(i + 1).drop_last() =~= form_view(form@).take(i as int));
            assert(form_view(form@).take(i + 1).last() == form_view(form@)[i as int]);
        }
        match entry.3 {
            crate::request::FormParamType::File => {
                match &entry.2 {
                    Option::Some(path) => {
                        parts.push(
                            PartPlan::FilePart { name: entry.0.clone(), path: path.clone() },
                        );
                        proof {
                            assert(parts_view(parts@) =~= multipart_parts(
                                form_view(form@).take(i + 1),
                            ));
                        }
                    },
                    Option::None => {
                        proof {
                            assert(parts_view(parts@) =~= multipart_parts(
                                form_view(form@).take(i + 1),
                            ));
                        }
                    },
                }
            },
            crate::request::FormParamType::Text => {
                parts.push(PartPlan::TextPart { name: entry.0.clone(), value: entry.1.clone() });
                proof {
                    assert(parts_view(parts@) =~= multipart_parts(form_view(form@).take(i + 1)));
                }
            },
        }
        i += 1;
    }
    proof {
        assert(form_view(form@).take(form@.len() as int) =~= form_view(form@));
    }
    parts
}

fn plan_query(form: &Vec<crate::request::FormParam>) -> (r: Vec<(String, String)>)
    ensures
        pairs_view(r@) == query_pairs(form_view(form@)),
{
    let mut pairs: Vec<(String, String)> = Vec::new();
    let mut i: usize = 0;
    while i < form.len()
        invariant
            0 <= i <= form@.len(),
            pairs@.len() == i,
            pairs_view(pairs@) == query_pairs(form_view(form@)).take(i as int),
        decreases form@.len() - i,
    {
        let entry = &form[i];
        pairs.push((entry.0.clone(), entry.1.clone()));
        proof {
            assert(pairs_view(pairs@) =~= query_pairs(form_view(form@)).take(i + 1));
        }
        i += 1;
    }
    proof {
        assert(query_pairs(form_view(form@)).take(form@.len() as int) =~= query_pairs(
            form_view(form@),
        ));
    }
    pairs
}

/// A header key that names the content type, compared without regard to
/// ASCII case.
pub open spec fn is_content_type_key(k: Seq<char>) -> bool {
    &&& k.len() == "content-type"@.len()
    &&& forall|j: int| 0 <= j < k.len() ==> ci_eq_char(#[trigger] k[j], "content-type"@[j])
}

/// The content type a receiver sees: the value of the last header whose key
/// names the content type, if any.
pub open spec fn outgoing_content_type(hs: Seq<(Seq<char>, Seq<char>)>) -> Option<Seq<char>>
    decreases hs.len(),
{
    if hs.len() == 0 {
        Option::None
    } else if is_content_type_key(hs.last().0) {
        Option::Some(hs.last().1)
    } else {
        outgoing_content_type(hs.drop_last())
    }
}

/// Law: when the parameter kind forces a content type, the forced value is
/// what goes out, whatever content-type headers the user supplied.
pub proof fn lemma_forced_content_type_overrides(
    hs: Seq<(Seq<char>, Seq<char>)>,
    pt: ParamType,
)
    requires
        content_type_of(pt).len() > 0,
    ensures
        outgoing_content_type(planned_headers(hs, pt)) == Option::Some(content_type_of(pt)),
{
    reveal_strlit("Content-Type");
    reveal_strlit("content-type");
    assert(is_content_type_key("Content-Type"@));
}

/// Law: sending with the JSON parameter kind puts `application/json` on the
/// wire, whatever the user's own content-type header says.
pub proof fn lemma_json_content_type_wins(hs: Seq<(Seq<char>, Seq<char>)>)
    ensures
        outgoing_content_type(planned_headers(hs, ParamType::Json)) == Option::Some(
            "application/json"@,
        ),
{
    reveal_strlit("application/json");
    lemma_forced_content_type_overrides(hs, ParamType::Json);
}

/// Name for what `url::Url::parse` decides about a string: whether it is a
/// well-formed URL, and the rendering of the parse error when it is not.
/// Both depend on the string alone.
pub uninterp spec fn url_parse_result(s: Seq<char>) -> Result<(), Seq<char>>;

/// Relies on url's `Url::parse` (a WHATWG URL parser): acceptance and the
/// error's rendering are functions of the input string alone.
#[verifier::external_body]
fn check_url(s: &str) -> (r: Result<(), String>)
    ensures
        r is Ok <==> url_parse_result(s@) is Ok,
        r matches Err(m) ==> url_parse_result(s@) matches Err(v) && m@ == v,
{
    match url::Url::parse(s) {
        Ok(_) => Ok(()),
        Err(e) => Err(e.to_string()),
    }
}

/// What `send` answers: run this plan on a worker, or nothing to do.
pub enum SendAction {
    /// Carry out the plan off the interactive thread and hand the outcome
    /// back to [`Http::complete`] under the given call number.
    Dispatch { call_id: u64, plan: RequestPlan },
    /// A call is already pending; nothing was changed.
    AlreadyPending,
    /// The URL does not parse; the request completed with the parse error
    /// and nothing is dispatched.
    Rejected,
}

/// The lifecycle after a worker hands back the outcome of call `call_id`:
/// only the matching pending call completes; a cancelled or superseded call
/// changes nothing.
pub open spec fn complete_step(l: Lifecycle, call_id: u64, outcome: RequestResult) -> Lifecycle {
    if l matches Lifecycle::Pending { call_id: c } && c == call_id {
        Lifecycle::Completed { outcome }
    } else {
        l
    }
}

/// The lifecycle after cancelling: a pending call is forgotten; otherwise
/// nothing changes.
pub open spec fn cancel_step(l: Lifecycle) -> Lifecycle {
    if l is Pending {
        Lifecycle::Idle
    } else {
        l
    }
}

/// The lifecycle after dismissing a result: a completed outcome is cleared;
/// otherwise nothing changes.
pub open spec fn dismiss_step(l: Lifecycle) -> Lifecycle {
    if l is Completed {
        Lifecycle::Idle
    } else {
        l
    }
}

/// Law: a cancelled call's late outcome is dropped silently. After a pending
/// call is cancelled the request is idle, and completing that same call
/// afterwards leaves it idle: the result slot of the reused request is never
/// written by the stale call.
pub proof fn lemma_cancelled_call_never_lands(call_id: u64, outcome: RequestResult)
    ensures
        cancel_step(Lifecycle::Pending { call_id }) is Idle,
        complete_step(cancel_step(Lifecycle::Pending { call_id }), call_id, outcome)
            == cancel_step(Lifecycle::Pending { call_id }),
{
}

/// Law: an outcome under a call number that is not the pending one changes
/// nothing at all.
pub proof fn lemma_stale_outcome_ignored(l: Lifecycle, call_id: u64, outcome: RequestResult)
    requires
        !(l matches Lifecycle::Pending { call_id: c } && c == call_id),
    ensures
        complete_step(l, call_id, outcome) == l,
{
}

impl Http {
    /// Dispatches the request, from an idle or completed state only.
    ///
    /// A pending call blocks a second dispatch: `send` is then a no-op. A
    /// completed state is acknowledged first and then dispatched afresh, as
    /// from idle; the old outcome is discarded. When the URL does not parse,
    /// nothing is dispatched and the request completes at once with the
    /// parse error.
    pub fn send(&mut self) -> (r: SendAction)
        ensures
            same_request_fields(*old(self), *final(self)),
            old(self).lifecycle is Pending ==> (*final(self) == *old(self) && r
                is AlreadyPending),
            (!(old(self).lifecycle is Pending) && url_parse_result(old(self).url@) is Ok) ==> {
                &&& final(self).lifecycle == (Lifecycle::Pending {
                    call_id: old(self).next_call,
                })
                &&& final(self).next_call == (if old(self).next_call == u64::MAX {
                    0u64
                } else {
                    (old(self).next_call + 1) as u64
                })
                &&& r matches SendAction::Dispatch { call_id, plan } && call_id == old(
                    self,
                ).next_call && plan_matches(plan, *old(self))
            },
            (!(old(self).lifecycle is Pending) && url_parse_result(old(self).url@) is Err) ==> {
                &&& final(self).lifecycle matches Lifecycle::Completed { outcome: Err(m) }
                    && url_parse_result(old(self).url@) matches Err(v) && m@ == v
                &&& final(self).next_call == old(self).next_call
                &&& r is Rejected
            },
    {
        if matches!(&self.lifecycle, Lifecycle::Pending { .. }) {
            return SendAction::AlreadyPending;
        }
        match check_url(self.url.as_str()) {
            Result::Ok(_) => {
                let plan = build_request_plan(self);
                let call_id = self.next_call;
                self.next_call = if self.next_call == u64::MAX {
                    0
                } else {
                    self.next_call + 1
                };
                self.lifecycle = Lifecycle::Pending { call_id };
                SendAction::Dispatch { call_id, plan }
            },
            Result::Err(m) => {
                self.lifecycle = Lifecycle::Completed { outcome: Result::Err(m) };
                SendAction::Rejected
            },
        }
    }

    /// Hands back the outcome of call `call_id`. Only the matching pending
    /// call completes; an outcome for a cancelled or superseded call is
    /// dropped and nothing changes.
    pub fn complete(&mut self, call_id: u64, outcome: RequestResult)
        ensures
            same_request_fields(*old(self), *final(self)),
            final(self).next_call == old(self).next_call,
            final(self).lifecycle == complete_step(old(self).lifecycle, call_id, outcome),
    {
        let landed = match &self.lifecycle {
            Lifecycle::Pending { call_id: c } => *c == call_id,
            _ => false,
        };
        if landed {
            self.lifecycle = Lifecycle::Completed { outcome };
        }
    }

    /// Forgets a pending call. The worker is not aborted: its eventual
    /// outcome no longer matches any pending call and is dropped by
    /// [`Http::complete`].
    pub fn cancel(&mut self)
        ensures
            same_request_fields(*old(self), *final(self)),
            final(self).next_call == old(self).next_call,
            final(self).lifecycle == cancel_step(old(self).lifecycle),
    {
        if matches!(&self.lifecycle, Lifecycle::Pending { .. }) {
            self.lifecycle = Lifecycle::Idle;
        }
    }

    /// Clears a completed outcome, back to idle.
    pub fn dismiss_result(&mut self)
        ensures
            same_request_fields(*old(self), *final(self)),
            final(self).next_call == old(self).next_call,
            final(self).lifecycle == dismiss_step(old(self).lifecycle),
    {
        if matches!(&self.lifecycle, Lifecycle::Completed { .. }) {
            self.lifecycle = Lifecycle::Idle;
        }
    }
}

} // verus!
