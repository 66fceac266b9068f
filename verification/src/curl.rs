//! Importing a curl-style command line.
//!
//! [`parse_curl`] tokenizes the command (see [`crate::tokenizer`]) and scans
//! the tokens left to right, consuming each exactly once with a look-ahead
//! of one token for flag arguments, and produces a fully populated
//! [`Http`] request or a typed [`ImportError`]. The scan is specified by the
//! accumulator machine [`import_step`] / [`import_scan`].

use vstd::prelude::*;

use crate::request::{
    form_view, get_uuid, header_view, opt_view, FormParam, FormParamType, FormParamV, Http,
    Lifecycle, Method, ParamType,
};
use crate::strutil::{contains_ci, contains_seq, str_contains, str_contains_ci, str_eq, to_upper,
    upper_seq};
use crate::tokenizer::{split_words, tokenize, words_view};

verus! {

/// Why a command line failed to import.
#[derive(Clone, Copy, Debug, PartialEq, Eq, Structural)]
pub enum ImportError {
    /// The command string is empty.
    EmptyCommand,
    /// The tokenizer found a quote that is never closed.
    Malformed,
    /// No token was left to serve as the URL.
    MissingUrl,
    /// The method named after `-X` is not one the model knows.
    UnknownMethod,
}

/// The human-readable rendering of an import error.
pub open spec fn message_of(e: ImportError) -> Seq<char> {
    match e {
        ImportError::EmptyCommand => "Empty curl command"@,
        ImportError::Malformed => "Mismatched quotes"@,
        ImportError::MissingUrl => "No url found"@,
        ImportError::UnknownMethod => "No such method"@,
    }
}

impl ImportError {
    /// The message shown to the user.
    pub fn message(&self) -> (r: String)
        ensures
            r@ == message_of(*self),
    {
        match self {
            ImportError::EmptyCommand => String::from_str("Empty curl command"),
            ImportError::Malformed => String::from_str("Mismatched quotes"),
            ImportError::MissingUrl => String::from_str("No url found"),
            ImportError::UnknownMethod => String::from_str("No such method"),
        }
    }
}

/// The first position at or after `i` where `sep` occurs in `s`.
pub open spec fn find_sep(s: Seq<char>, sep: Seq<char>, i: int) -> Option<int>
    decreases s.len() - i,
    when 0 <= i
{
    if sep.len() == 0 {
        Option::Some(i)
    } else if i + sep.len() > s.len() {
        Option::None
    } else if s.subrange(i, i + sep.len() as int) == sep {
        Option::Some(i)
    } else {
        find_sep(s, sep, i + 1)
    }
}

/// Splitting at the first occurrence of a separator: everything before it,
/// and everything after it (later occurrences stay in the second half).
/// Without an occurrence the whole text is the first half.
pub open spec fn split_first_spec(sep: Seq<char>, s: Seq<char>) -> (Seq<char>, Seq<char>) {
    match find_sep(s, sep, 0) {
        Option::None => (s, Seq::empty()),
        Option::Some(i) => (s.subrange(0, i), s.subrange(i + sep.len() as int, s.len() as int)),
    }
}

/// Splits `origin` at the first occurrence of `sep`; see
/// [`split_first_spec`].
pub fn split_string(sep: &str, origin: &str) -> (r: (String, String))
    ensures
        r.0@ == split_first_spec(sep@, origin@).0,
        r.1@ == split_first_spec(sep@, origin@).1,
{
    let n = origin.unicode_len();
    let m = sep.unicode_len();
    if m == 0 {
        let after = String::from_str(origin);
        proof {
            assert(origin@.subrange(0, 0) =~= Seq::<char>::empty());
            assert(origin@.subrange(0, n as int) =~= origin@);
        }
        return (String::new(), after);
    }
    if m > n {
        return (String::from_str(origin), String::new());
    }
    let mut i: usize = 0;
    while i <= n - m
        invariant
            n == origin@.len(),
            m == sep@.len(),
            0 < m <= n,
            0 <= i <= n - m + 1,
            find_sep(origin@, sep@, 0) == find_sep(origin@, sep@, i as int),
        decreases n - i,
    {
        let mut j: usize = 0;
        let mut hit = true;
        while j < m
            invariant
                n == origin@.len(),
                m == sep@.len(),
                0 <= i,
                i + m <= n,
                0 <= j <= m,
                hit ==> forall|t: int| 0 <= t < j ==> origin@[i + t] == #[trigger] sep@[t],
                !hit ==> origin@.subrange(i as int, i + m as int) != sep@,
            decreases m - j,
        {
            if origin.get_char(i + j) != sep.get_char(j) {
                proof {
                    assert(origin@.subrange(i as int, i + m as int) != sep@) by {
                        if origin@.subrange(i as int, i + m as int) == sep@ {
                            assert(origin@.subrange(i as int, i + m as int)[j as int]
                                == sep@[j as int]);
                        }
                    }
                }
                hit = false;
                j = m;
            } else {
                j += 1;
            }
        }
        if hit {
            proof {
                assert forall|t: int| 0 <= t < m implies origin@.subrange(
                    i as int,
                    i + m as int,
                )[t] == sep@[t] by {
                    assert(origin@[i + t] == sep@[t]);
                }
                assert(origin@.subrange(i as int, i + m as int) =~= sep@);
                assert(find_sep(origin@, sep@, i as int) == Option::Some(i as int));
            }
            let before = origin.substring_char(0, i);
            let after = origin.substring_char(i + m, n);
            return (String::from_str(before), String::from_str(after));
        }
        i += 1;
    }
    proof {
        assert(find_sep(origin@, sep@, i as int) is None);
    }
    (String::from_str(origin), String::new())
}

/// What the scan is waiting for: the argument of the flag just read, or the
/// next free token.
#[derive(Clone, Copy, Debug, PartialEq, Eq, Structural)]
pub enum Expect {
    /// No flag is waiting for an argument.
    Free,
    /// The next token is a `key:value` header.
    HeaderArg,
    /// The next token is a form entry.
    FormArg,
    /// The next token is the body text.
    DataArg,
    /// The next token is the method name.
    MethodArg,
}

/// The accumulators of the token scan.
pub struct ImportAcc {
    pub url: Option<Seq<char>>,
    pub method: Seq<char>,
    pub headers: Seq<(Seq<char>, Seq<char>)>,
    pub text_param: Seq<char>,
    pub form: Seq<FormParamV>,
    pub ctype_hint: Seq<char>,
    pub expect: Expect,
}

/// The accumulators before any token is read.
pub open spec fn init_import() -> ImportAcc {
    ImportAcc {
        url: Option::None,
        method: "GET"@,
        headers: Seq::empty(),
        text_param: Seq::empty(),
        form: Seq::empty(),
        ctype_hint: Seq::empty(),
        expect: Expect::Free,
    }
}

/// One token of the scan.
///
/// A flag stores what its following token will mean; the argument token is
/// then consumed accordingly. `-H`/`--header` arguments split at the first
/// colon, and a key that names the content type (regardless of ASCII case)
/// captures the value as the content-type hint. `-F`/`--form` arguments drop
/// everything from the first semicolon, split at the first `=`, and a value
/// starting with `@` makes a file entry out of the rest. `--data`,
/// `--data-raw` and `-d` store the body text (the last occurrence wins).
/// `-X`/`--request` stores the upper-cased method. `--data-binary` is
/// recognized and ignored, and consumes no argument. Any other token
/// starting with `-` is ignored; any other token becomes the URL (the last
/// one wins).
pub open spec fn import_step(acc: ImportAcc, tok: Seq<char>) -> ImportAcc {
    match acc.expect {
        Expect::HeaderArg => {
            let kv = split_first_spec(":"@, tok);
            ImportAcc {
                headers: acc.headers.push(kv),
                ctype_hint: if contains_ci(kv.0, "content-type"@) {
                    kv.1
                } else {
                    acc.ctype_hint
                },
                expect: Expect::Free,
                ..acc
            }
        },
        Expect::FormArg => {
            let kv = split_first_spec("="@, split_first_spec(";"@, tok).0);
            let entry: FormParamV = if kv.1.len() > 0 && kv.1[0] == '@' {
                (kv.0, Seq::empty(), Option::Some(kv.1.drop_first()), FormParamType::File)
            } else {
                (kv.0, kv.1, Option::None, FormParamType::Text)
            };
            ImportAcc { form: acc.form.push(entry), expect: Expect::Free, ..acc }
        },
        Expect::DataArg => ImportAcc { text_param: tok, expect: Expect::Free, ..acc },
        Expect::MethodArg => ImportAcc { method: upper_seq(tok), expect: Expect::Free, ..acc },
        Expect::Free => {
            if tok == "-H"@ || tok == "--header"@ {
                ImportAcc { expect: Expect::HeaderArg, ..acc }
            } else if tok == "-F"@ || tok == "--form"@ {
                ImportAcc { expect: Expect::FormArg, ..acc }
            } else if tok == "--data"@ || tok == "--data-raw"@ || tok == "-d"@ {
                ImportAcc { expect: Expect::DataArg, ..acc }
            } else if tok == "-X"@ || tok == "--request"@ {
                ImportAcc { expect: Expect::MethodArg, ..acc }
            } else if tok == "--data-binary"@ {
                acc
            } else if tok.len() > 0 && tok[0] == '-' {
                acc
            } else {
                ImportAcc { url: Option::Some(tok), ..acc }
            }
        },
    }
}

/// The whole token sequence scanned left to right.
pub open spec fn import_scan(toks: Seq<Seq<char>>) -> ImportAcc
    decreases toks.len(),
{
    if toks.len() == 0 {
        init_import()
    } else {
        import_step(import_scan(toks.drop_last()), toks.last())
    }
}

/// The accumulators after scanning the tokens of `s`; meaningful only when
/// `tokenize(s)` succeeds.
pub open spec fn scanned(s: Seq<char>) -> ImportAcc {
    import_scan(tokenize(s)->Some_0)
}

/// The method a name denotes, if any.
pub open spec fn method_of_name(m: Seq<char>) -> Option<Method> {
    if m == "GET"@ {
        Option::Some(Method::Get)
    } else if m == "DELETE"@ {
        Option::Some(Method::Delete)
    } else if m == "PUT"@ {
        Option::Some(Method::Put)
    } else if m == "POST"@ {
        Option::Some(Method::Post)
    } else if m == "PATCH"@ {
        Option::Some(Method::Patch)
    } else {
        Option::None
    }
}

/// The parameter kind derived from the content-type hint: JSON when the
/// hint mentions `application/json`, otherwise `Other`.
pub open spec fn derived_param_type(hint: Seq<char>) -> ParamType {
    if contains_seq(hint, "application/json"@) {
        ParamType::Json
    } else {
        ParamType::Other
    }
}

/// On which inputs importing fails.
pub open spec fn import_fails(s: Seq<char>) -> bool {
    ||| s.len() == 0
    ||| tokenize(s) is None
    ||| scanned(s).url is None
    ||| method_of_name(scanned(s).method) is None
}

/// Which error a failing input produces; the checks happen in this order.
pub open spec fn import_error_of(s: Seq<char>) -> ImportError {
    if s.len() == 0 {
        ImportError::EmptyCommand
    } else if tokenize(s) is None {
        ImportError::Malformed
    } else if scanned(s).url is None {
        ImportError::MissingUrl
    } else {
        ImportError::UnknownMethod
    }
}

/// The imported request is exactly what the scan of `s` calls for, with a
/// fresh identifier and the default name.
pub open spec fn import_matches(h: Http, s: Seq<char>) -> bool {
    let acc = scanned(s);
    &&& acc.url == Option::Some(h.url@)
    &&& method_of_name(acc.method) == Option::Some(h.method)
    &&& header_view(h.header@) == acc.headers
    &&& h.text_param@ == acc.text_param
    &&& form_view(h.form_param@) == acc.form
    &&& h.param_type == derived_param_type(acc.ctype_hint)
    &&& h.name@ == "New http request"@
    &&& h.id@.len() == 7
    &&& h.show_header
    &&& h.next_call == 0
    &&& h.lifecycle is Idle
}

impl Http {
    /// Builds a request from the accumulators of a command-line scan. Fails
    /// exactly when the method name is unknown.
    pub fn from_curl(
        url: String,
        method: String,
        header: Vec<(String, String)>,
        text_param: String,
        form_param: Vec<FormParam>,
        param_type: String,
    ) -> (r: Result<Http, ImportError>)
        ensures
            r is Err <==> method_of_name(method@) is None,
            r matches Err(e) ==> e == ImportError::UnknownMethod,
            r matches Ok(h) ==> {
                &&& h.url == url
                &&& method_of_name(method@) == Option::Some(h.method)
                &&& h.header == header
                &&& h.text_param == text_param
                &&& h.form_param == form_param
                &&& h.param_type == derived_param_type(param_type@)
                &&& h.name@ == "New http request"@
                &&& h.id@.len() == 7
                &&& h.show_header
                &&& h.next_call == 0
                &&& h.lifecycle is Idle
            },
    {
        let m = if str_eq(method.as_str(), "GET") {
            Option::Some(Method::Get)
        } else if str_eq(method.as_str(), "DELETE") {
            Option::Some(Method::Delete)
        } else if str_eq(method.as_str(), "PUT") {
            Option::Some(Method::Put)
        } else if str_eq(method.as_str(), "POST") {
            Option::Some(Method::Post)
        } else if str_eq(method.as_str(), "PATCH") {
            Option::Some(Method::Patch)
        } else {
            Option::None
        };
        match m {
            Option::None => Result::Err(ImportError::UnknownMethod),
            Option::Some(method) => {
                let param_type = if str_contains(param_type.as_str(), "application/json") {
                    ParamType::Json
                } else {
                    ParamType::Other
                };
                Result::Ok(
                    Http {
                        id: get_uuid(),
                        name: String::from_str("New http request"),
                        url,
                        method,
                        header,
                        text_param,
                        form_param,
                        param_type,
                        show_header: true,
                        next_call: 0,
                        lifecycle: Lifecycle::Idle,
                    },
                )
            },
        }
    }
}

/// Removes the first character.
fn strip_first_char(s: &str) -> (r: String)
    requires
        s@.len() > 0,
    ensures
        r@ == s@.drop_first(),
{
    let n = s.unicode_len();
    let rest = s.substring_char(1, n);
    proof {
        assert(rest@ =~= s@.drop_first());
    }
    String::from_str(rest)
}

/// Imports a curl-style command line into a request description.
///
/// The command is tokenized like a shell word list; the tokens are scanned
/// left to right as [`import_step`] specifies. An empty command, a quote
/// mismatch, a missing URL or an unknown method name fail with the matching
/// [`ImportError`]; nothing partial is ever returned.
pub fn parse_curl(curl: &str) -> (r: Result<Http, ImportError>)
    ensures
        r is Err <==> import_fails(curl@),
        r matches Err(e) ==> e == import_error_of(curl@),
        r matches Ok(h) ==> import_matches(h, curl@),
{
    if curl.is_empty() {
        return Result::Err(ImportError::EmptyCommand);
    }
    let tokens = match split_words(curl) {
        Result::Ok(v) => v,
        Result::Err(_) => {
            return Result::Err(ImportError::Malformed);
        },
    };
    let ghost toks = tokenize(curl@)->Some_0;
    proof {
        assert(words_view(tokens@) == toks);
    }
    let mut url: Option<String> = Option::None;
    let mut method: String = String::from_str("GET");
    let mut headers: Vec<(String, String)> = Vec::new();
    let mut text_param: String = String::new();
    let mut form: Vec<FormParam> = Vec::new();
    let mut hint: String = String::new();
    let mut expect = Expect::Free;
    let mut i: usize = 0;
    proof {
        assert(toks.take(0) =~= Seq::<Seq<char>>::empty());
        assert(header_view(headers@) =~= Seq::<(Seq<char>, Seq<char>)>::empty());
        assert(form_view(form@) =~= Seq::<FormParamV>::empty());
    }
    while i < tokens.len()
        invariant
            toks == words_view(tokens@),
            0 <= i <= tokens@.len(),
            (ImportAcc {
                url: opt_view(url),
                method: method@,
                headers: header_view(headers@),
                text_param: text_param@,
                form: form_view(form@),
                ctype_hint: hint@,
                expect: expect,
            }) == import_scan(toks.take(i as int)),
        decreases tokens@.len() - i,
    {
        let ghost acc0 = import_scan(toks.take(i as int));
        let t = &tokens[i];
        proof {
            assert(toks.take(i + 1).drop_last() =~= toks.take(i as int));
            assert(toks.take(i + 1).last() == t@);
        }
        match expect {
            Expect::HeaderArg => {
                let kv = split_string(":", t.as_str());
                if str_contains_ci(kv.0.as_str(), "content-type") {
                    hint = kv.1.clone();
                }
                headers.push(kv);
                proof {
                    assert(header_view(headers@) =~= acc0.headers.push(
                        split_first_spec(":"@, t@),
                    ));
                }
                expect = Expect::Free;
            },
            Expect::FormArg => {
                let semi = split_string(";", t.as_str());
                let kv = split_string("=", semi.0.as_str());
                let is_file = kv.1.as_str().unicode_len() > 0 && kv.1.as_str().get_char(0) == '@';
                if is_file {
                    let path = strip_first_char(kv.1.as_str());
                    form.push((kv.0, String::new(), Option::Some(path), FormParamType::File));
                } else {
                    form.push((kv.0, kv.1, Option::None, FormParamType::Text));
                }
                proof {
                    assert(form_view(form@) =~= import_step(acc0, t@).form);
                }
                expect = Expect::Free;
            },
            Expect::DataArg => {
                text_param = t.clone();
                expect = Expect::Free;
            },
            Expect::MethodArg => {
                method = to_upper(t.as_str());
                expect = Expect::Free;
            },
            Expect::Free => {
                if str_eq(t.as_str(), "-H") || str_eq(t.as_str(), "--header") {
                    expect = Expect::HeaderArg;
                } else if str_eq(t.as_str(), "-F") || str_eq(t.as_str(), "--form") {
                    expect = Expect::FormArg;
                } else if str_eq(t.as_str(), "--data") || str_eq(t.as_str(), "--data-raw")
                    || str_eq(t.as_str(), "-d") {
                    expect = Expect::DataArg;
                } else if str_eq(t.as_str(), "-X") || str_eq(t.as_str(), "--request") {
                    expect = Expect::MethodArg;
                } else if str_eq(t.as_str(), "--data-binary") {
                } else if t.as_str().unicode_len() > 0 && t.as_str().get_char(0) == '-' {
                } else {
                    url = Option::Some(t.clone());
                }
            },
        }
        i += 1;
    }
    proof {
        assert(toks.take(tokens@.len() as int) =~= toks);
    }
    let url_val = match url {
        Option::None => {
            return Result::Err(ImportError::MissingUrl);
        },
        Option::Some(u) => u,
    };
    Http::from_curl(url_val, method, headers, text_param, form, hint)
}

/// The state of the import window: whether it shows, the working copy of the
/// visibility flag, the command text being edited, and the error of the last
/// failed import.
pub struct Curl {
    pub show_curl_window: bool,
    pub temp_show: bool,
    pub error: Option<String>,
    pub text: String,
}

impl Default for Curl {
    fn default() -> (r: Self)
        ensures
            !r.show_curl_window,
            !r.temp_show,
            r.error is None,
            r.text@.len() == 0,
    {
        Curl {
            show_curl_window: false,
            temp_show: false,
            error: Option::None,
            text: String::new(),
        }
    }
}

impl Curl {
    /// Folds the working copy of the visibility flag into the real one: the
    /// window stays shown only while both agree.
    pub fn sync_visibility(&mut self)
        ensures
            final(self).show_curl_window == (old(self).show_curl_window && old(self).temp_show),
            final(self).temp_show == old(self).temp_show,
            final(self).error == old(self).error,
            final(self).text == old(self).text,
    {
        self.show_curl_window = self.show_curl_window && self.temp_show;
    }

    /// The import action. On success the text and the error are cleared, the
    /// window is marked for closing, and the imported request is handed
    /// back; on failure the error message is kept for display and nothing
    /// else changes.
    pub fn submit(&mut self) -> (r: Option<Http>)
        ensures
            final(self).show_curl_window == old(self).show_curl_window,
            import_fails(old(self).text@) ==> {
                &&& r is None
                &&& final(self).error matches Some(m) && m@ == message_of(
                    import_error_of(old(self).text@),
                )
                &&& final(self).text == old(self).text
                &&& final(self).temp_show == old(self).temp_show
            },
            !import_fails(old(self).text@) ==> {
                &&& r matches Some(h) && import_matches(h, old(self).text@)
                &&& final(self).text@.len() == 0
                &&& final(self).error is None
                &&& !final(self).temp_show
            },
    {
        match parse_curl(self.text.as_str()) {
            Result::Ok(http) => {
                self.text = String::new();
                self.error = Option::None;
                self.temp_show = false;
                Option::Some(http)
            },
            Result::Err(e) => {
                self.error = Option::Some(e.message());
                Option::None
            },
        }
    }
}

} // verus!
