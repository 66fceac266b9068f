//! The request data model: HTTP method, body parameter kinds, the
//! `Http` request description shared by manual editing and import, the
//! ephemeral `Response`, and the request lifecycle states.

use vstd::prelude::*;

verus! {

/// HTTP method of a request.
#[derive(Clone, Copy, Debug, PartialEq, Eq, Structural)]
pub enum Method {
    Post,
    Get,
    Put,
    Delete,
    Patch,
}

impl Default for Method {
    fn default() -> (r: Self)
        ensures
            r == Method::Get,
    {
        Method::Get
    }
}

/// How the body parameters of a request are interpreted.
#[derive(Clone, Copy, Debug, PartialEq, Eq, Structural)]
pub enum ParamType {
    /// No body at all.
    NoBody,
    /// `form_param` is sent as a multipart form.
    FormData,
    /// `text_param` is sent verbatim, with a JSON content type.
    Json,
    /// `form_param` is appended to the URL as query parameters.
    Query,
    /// `text_param` is sent verbatim, with no forced content type.
    Other,
}

impl Default for ParamType {
    fn default() -> (r: Self)
        ensures
            r == ParamType::Json,
    {
        ParamType::Json
    }
}

/// The content type that a parameter kind forces onto the outgoing request;
/// empty when the kind forces none.
pub open spec fn content_type_of(pt: ParamType) -> Seq<char> {
    match pt {
        ParamType::FormData => "multipart/form-data"@,
        ParamType::Json => "application/json"@,
        _ => Seq::empty(),
    }
}

impl ParamType {
    /// The forced content type as a string; empty when the kind forces none.
    pub fn get_content_type(&self) -> (r: String)
        ensures
            r@ == content_type_of(*self),
    {
        match self {
            ParamType::FormData => String::from_str("multipart/form-data"),
            ParamType::Json => String::from_str("application/json"),
            _ => String::new(),
        }
    }
}

/// Kind of one multipart form entry: a plain text value or a file path.
#[derive(Clone, Copy, Debug, PartialEq, Eq, Structural)]
pub enum FormParamType {
    File,
    Text,
}

impl Default for FormParamType {
    fn default() -> (r: Self)
        ensures
            r == FormParamType::Text,
    {
        FormParamType::Text
    }
}

/// One form entry: key, text value, optional file path, and kind.
pub type FormParam = (String, String, Option<String>, FormParamType);

/// Spec-level image of one form entry.
pub type FormParamV = (Seq<char>, Seq<char>, Option<Seq<char>>, FormParamType);

/// Spec-level image of an optional string.
pub open spec fn opt_view(o: Option<String>) -> Option<Seq<char>> {
    match o {
        Option::Some(s) => Option::Some(s@),
        Option::None => Option::None,
    }
}

/// Spec-level image of one form entry.
pub open spec fn form_param_view(p: FormParam) -> FormParamV {
    (p.0@, p.1@, opt_view(p.2), p.3)
}

/// Spec-level image of a form entry list.
pub open spec fn form_view(v: Seq<FormParam>) -> Seq<FormParamV> {
    v.map_values(|p: FormParam| form_param_view(p))
}

/// Spec-level image of a header list.
pub open spec fn header_view(v: Seq<(String, String)>) -> Seq<(Seq<char>, Seq<char>)> {
    v.map_values(|h: (String, String)| (h.0@, h.1@))
}

/// What a finished call produced: status code, the advertised content
/// length if any, and the body decoded as text.
#[derive(Clone, Debug)]
pub struct Response {
    pub code: u16,
    pub size: Option<u64>,
    pub body: String,
}

/// Outcome of one executed call.
pub type RequestResult = Result<Response, String>;

/// Where a request stands with respect to execution. At most one call is
/// outstanding per request; a pending call is identified by the number its
/// dispatch handed out.
#[derive(Debug)]
pub enum Lifecycle {
    /// No call in flight and no unacknowledged result.
    Idle,
    /// A call was dispatched and has not been resolved or cancelled.
    Pending { call_id: u64 },
    /// A call finished; the outcome waits to be read or dismissed.
    Completed { outcome: RequestResult },
}

/// An editable HTTP request description.
#[derive(Debug)]
pub struct Http {
    /// Stable identifier, generated at creation, never changed.
    pub id: String,
    /// Display label.
    pub name: String,
    /// Raw URL text; validated only when the request is sent.
    pub url: String,
    /// Change this through [`Http::set_method`], which keeps the parameter
    /// kind coupled to the method.
    pub method: Method,
    /// Ordered header pairs; duplicates are allowed and all are sent.
    pub header: Vec<(String, String)>,
    /// Body text used when `param_type` is `Json` or `Other`.
    pub text_param: String,
    /// Form entries used when `param_type` is `FormData` or `Query`.
    pub form_param: Vec<FormParam>,
    /// How the body parameters are interpreted.
    pub param_type: ParamType,
    /// Whether the editing surface shows the header tab.
    pub show_header: bool,
    /// The number the next dispatched call will carry.
    pub next_call: u64,
    /// Execution state; change it only through the lifecycle operations.
    pub lifecycle: Lifecycle,
}

/// Relies on rand's `Alphanumeric` distribution: `sample_string` with length
/// seven returns a string of exactly seven random alphanumeric ASCII
/// characters.
#[verifier::external_body]
pub(crate) fn get_uuid() -> (r: String)
    ensures
        r@.len() == 7,
{
    rand::distr::SampleString::sample_string(&rand::distr::Alphanumeric, &mut rand::rng(), 7)
}

/// The fields of a request that describe it to the user, as opposed to its
/// execution state: everything but `next_call` and `lifecycle`.
pub open spec fn same_request_fields(a: Http, b: Http) -> bool {
    &&& a.id == b.id
    &&& a.name == b.name
    &&& a.url == b.url
    &&& a.method == b.method
    &&& a.header == b.header
    &&& a.text_param == b.text_param
    &&& a.form_param == b.form_param
    &&& a.param_type == b.param_type
    &&& a.show_header == b.show_header
}

impl Default for Http {
    fn default() -> (r: Self)
        ensures
            r.id@.len() == 7,
            r.name@ == "New http request"@,
            r.url@.len() == 0,
            r.method == Method::Get,
            r.header@.len() == 0,
            r.text_param@.len() == 0,
            r.form_param@.len() == 0,
            r.param_type == ParamType::Json,
            r.show_header,
            r.next_call == 0,
            r.lifecycle is Idle,
    {
        Http {
            id: get_uuid(),
            name: String::from_str("New http request"),
            url: String::new(),
            method: Method::Get,
            header: Vec::new(),
            text_param: String::new(),
            form_param: Vec::new(),
            param_type: ParamType::Json,
            show_header: true,
            next_call: 0,
            lifecycle: Lifecycle::Idle,
        }
    }
}

impl Http {
    /// The label to display: the name, or a fixed fallback when it is empty.
    pub fn request_name(&self) -> (r: &str)
        ensures
            self.name@.len() == 0 ==> r@ == "Http Request"@,
            self.name@.len() > 0 ==> r@ == self.name@,
    {
        if self.name.as_str().is_empty() {
            "Http Request"
        } else {
            self.name.as_str()
        }
    }

    /// The stable identifier.
    pub fn get_id(&self) -> (r: String)
        ensures
            r@ == self.id@,
    {
        self.id.clone()
    }

    /// Switches the HTTP method. A change of method clears the form entries
    /// and re-couples the parameter kind: `Get` works on query parameters,
    /// every other method starts over from a multipart form. Selecting the
    /// method already set changes nothing.
    pub fn set_method(&mut self, m: Method)
        ensures
            m == old(self).method ==> *final(self) == *old(self),
            m != old(self).method ==> {
                &&& final(self).method == m
                &&& final(self).form_param@.len() == 0
                &&& final(self).param_type == (if m is Get {
                    ParamType::Query
                } else {
                    ParamType::FormData
                })
                &&& final(self).id == old(self).id
                &&& final(self).name == old(self).name
                &&& final(self).url == old(self).url
                &&& final(self).header == old(self).header
                &&& final(self).text_param == old(self).text_param
                &&& final(self).show_header == old(self).show_header
                &&& final(self).next_call == old(self).next_call
                &&& final(self).lifecycle == old(self).lifecycle
            },
    {
        if m != self.method {
            self.method = m;
            self.form_param = Vec::new();
            self.param_type = if matches!(m, Method::Get) {
                ParamType::Query
            } else {
                ParamType::FormData
            };
        }
    }
}

} // verus!
