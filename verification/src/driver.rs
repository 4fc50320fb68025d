//! The WebDriver session client: it owns the session token, builds each
//! operation's request, and reads each response, failing without a
//! network exchange whenever no session exists.

use vstd::prelude::*;

use crate::http::{Method, Transport, chars_to_string, send_request};
use crate::json::{
    Json, JsonField, JsonFieldV, JsonV, push_chars_of_str, spec_index_key,
};

verus! {

/// A handle to a page element, as the remote endpoint named it. It is
/// consumed by the one operation that uses it.
pub struct Element {
    pub element_id: String,
}

/// The WebDriver client: the loopback port it speaks to and, once a
/// session was created, that session's token. The token is the only
/// long-lived state.
pub struct Driver {
    pub port: u16,
    pub session_id: Option<String>,
}

/// The session token in a session-creation response: the string under
/// `value.sessionId`, if that is what the response holds.
pub open spec fn spec_session_id_of(v: JsonV) -> Option<Seq<char>> {
    match spec_index_key(spec_index_key(v, "value"@), "sessionId"@) {
        JsonV::Str(s) => Some(s),
        _ => None,
    }
}

/// The string under `value`, if `value` is a string.
pub open spec fn spec_value_string_of(v: JsonV) -> Option<Seq<char>> {
    match spec_index_key(v, "value"@) {
        JsonV::Str(s) => Some(s),
        _ => None,
    }
}

/// How a find-element response reads, in the model.
pub enum ElementReadV {
    Found(Seq<char>),
    ErrorShaped,
    Malformed,
}

/// How a find-element response reads.
pub enum ElementRead {
    Found(String),
    ErrorShaped,
    Malformed,
}

impl View for ElementRead {
    type V = ElementReadV;

    open spec fn view(&self) -> ElementReadV {
        match self {
            ElementRead::Found(s) => ElementReadV::Found(s@),
            ElementRead::ErrorShaped => ElementReadV::ErrorShaped,
            ElementRead::Malformed => ElementReadV::Malformed,
        }
    }
}

/// How a find-element response reads: error-shaped when `value.message`
/// or `value.error` is a string; otherwise the handle is the string value
/// of the first field of the `value` object; a `value` that is no object,
/// has no field, or whose first value is no string is malformed.
pub open spec fn spec_element_read(v: JsonV) -> ElementReadV {
    let val = spec_index_key(v, "value"@);
    if spec_index_key(val, "message"@) is Str || spec_index_key(val, "error"@) is Str {
        ElementReadV::ErrorShaped
    } else {
        match val {
            JsonV::Obj(fields) => if fields.len() > 0 && fields[0].value is Str {
                ElementReadV::Found(fields[0].value->Str_0)
            } else {
                ElementReadV::Malformed
            },
            _ => ElementReadV::Malformed,
        }
    }
}

/// Reads the session token out of a session-creation response.
pub fn interpret_session_response(res: &Json) -> (r: Option<String>)
    ensures
        match r {
            Some(s) => spec_session_id_of(res@) == Some(s@),
            None => spec_session_id_of(res@) is None,
        },
{
    match res.get("value") {
        Some(val) => match val.get("sessionId") {
            Some(sid) => match sid.as_string() {
                Some(s) => Some(s.clone()),
                None => None,
            },
            None => None,
        },
        None => None,
    }
}

/// Reads the string under `value` out of a current-url response.
pub fn interpret_url_response(res: &Json) -> (r: Option<String>)
    ensures
        match r {
            Some(s) => spec_value_string_of(res@) == Some(s@),
            None => spec_value_string_of(res@) is None,
        },
{
    match res.get("value") {
        Some(val) => match val.as_string() {
            Some(s) => Some(s.clone()),
            None => None,
        },
        None => None,
    }
}

/// Reads a find-element response.
pub fn interpret_element_response(res: &Json) -> (r: ElementRead)
    ensures
        r@ == spec_element_read(res@),
{
    match res.get("value") {
        Some(val) => {
            let msg_is_str = match val.get("message") {
                Some(m) => m.is_string(),
                None => false,
            };
            let err_is_str = match val.get("error") {
                Some(e) => e.is_string(),
                None => false,
            };
            if msg_is_str || err_is_str {
                return ElementRead::ErrorShaped;
            }
            match val {
                Json::Obj(fields) => {
                    if fields.len() > 0 {
                        proof {
                            assert(val@->Obj_0[0] == fields@[0]@);
                        }
                        match fields[0].value.as_string() {
                            Some(s) => ElementRead::Found(s.clone()),
                            None => ElementRead::Malformed,
                        }
                    } else {
                        ElementRead::Malformed
                    }
                },
                _ => ElementRead::Malformed,
            }
        },
        None => ElementRead::Malformed,
    }
}

/// A string value.
fn jstr(s: &str) -> (r: Json)
    ensures
        r@ == JsonV::Str(s@),
{
    Json::Str(s.to_owned())
}

/// A field with this key and value.
fn jfield(key: &str, value: Json) -> (r: JsonField)
    ensures
        r@ == (JsonFieldV { key: key@, value: value@ }),
{
    JsonField { key: key.to_owned(), value }
}

/// An object of one field.
fn obj1(f: JsonField) -> (r: Json)
    ensures
        r@ == JsonV::Obj(seq![f@]),
{
    let ghost fv = f@;
    let mut v: Vec<JsonField> = Vec::new();
    v.push(f);
    let r = Json::Obj(v);
    proof {
        assert(r@->Obj_0 =~= seq![fv]);
    }
    r
}

/// An object of two fields, in order.
fn obj2(f0: JsonField, f1: JsonField) -> (r: Json)
    ensures
        r@ == JsonV::Obj(seq![f0@, f1@]),
{
    let ghost fv0 = f0@;
    let ghost fv1 = f1@;
    let mut v: Vec<JsonField> = Vec::new();
    v.push(f0);
    v.push(f1);
    let r = Json::Obj(v);
    proof {
        assert(r@->Obj_0 =~= seq![fv0, fv1]);
    }
    r
}

/// An empty array.
fn arr0() -> (r: Json)
    ensures
        r@ == JsonV::Arr(Seq::empty()),
{
    let r = Json::Arr(Vec::new());
    proof {
        assert(r@->Arr_0 =~= Seq::<JsonV>::empty());
    }
    r
}

/// An array of one item.
fn arr1(x: Json) -> (r: Json)
    ensures
        r@ == JsonV::Arr(seq![x@]),
{
    let ghost xv = x@;
    let mut v: Vec<Json> = Vec::new();
    v.push(x);
    let r = Json::Arr(v);
    proof {
        assert(r@->Arr_0 =~= seq![xv]);
    }
    r
}

/// An array of two items, in order.
fn arr2(x: Json, y: Json) -> (r: Json)
    ensures
        r@ == JsonV::Arr(seq![x@, y@]),
{
    let ghost xv = x@;
    let ghost yv = y@;
    let mut v: Vec<Json> = Vec::new();
    v.push(x);
    v.push(y);
    let r = Json::Arr(v);
    proof {
        assert(r@->Arr_0 =~= seq![xv, yv]);
    }
    r
}

/// The capabilities payload of create-session: a Firefox and a Chrome
/// first-match, each carrying its browser's native headless argument
/// exactly when `headless` is set, and an empty argument list otherwise.
pub open spec fn spec_session_body(headless: bool) -> JsonV {
    JsonV::Obj(
        seq![
            JsonFieldV {
                key: "capabilities"@,
                value: JsonV::Obj(
                    seq![
                        JsonFieldV {
                            key: "firstMatch"@,
                            value: JsonV::Arr(
                                seq![
                                    JsonV::Obj(
                                        seq![
                                            JsonFieldV {
                                                key: "browserName"@,
                                                value: JsonV::Str("firefox"@),
                                            },
                                            JsonFieldV {
                                                key: "moz:firefoxOptions"@,
                                                value: JsonV::Obj(
                                                    seq![
                                                        JsonFieldV {
                                                            key: "args"@,
                                                            value: JsonV::Arr(
                                                                if headless {
                                                                    seq![JsonV::Str("-headless"@)]
                                                                } else {
                                                                    Seq::empty()
                                                                },
                                                            ),
                                                        },
                                                    ],
                                                ),
                                            },
                                        ],
                                    ),
                                    JsonV::Obj(
                                        seq![
                                            JsonFieldV {
                                                key: "browserName"@,
                                                value: JsonV::Str("chrome"@),
                                            },
                                            JsonFieldV {
                                                key: "goog:chromeOptions"@,
                                                value: JsonV::Obj(
                                                    seq![
                                                        JsonFieldV {
                                                            key: "args"@,
                                                            value: JsonV::Arr(
                                                                if headless {
                                                                    seq![JsonV::Str("--headless"@)]
                                                                } else {
                                                                    Seq::empty()
                                                                },
                                                            ),
                                                        },
                                                    ],
                                                ),
                                            },
                                        ],
                                    ),
                                ],
                            ),
                        },
                    ],
                ),
            },
        ],
    )
}

/// Builds the capabilities payload of create-session.
pub fn session_body(headless: bool) -> (r: Json)
    ensures
        r@ == spec_session_body(headless),
{
    let firefox_args = if headless {
        arr1(jstr("-headless"))
    } else {
        arr0()
    };
    let firefox = obj2(
        jfield("browserName", jstr("firefox")),
        jfield("moz:firefoxOptions", obj1(jfield("args", firefox_args))),
    );
    let chrome_args = if headless {
        arr1(jstr("--headless"))
    } else {
        arr0()
    };
    let chrome = obj2(
        jfield("browserName", jstr("chrome")),
        jfield("goog:chromeOptions", obj1(jfield("args", chrome_args))),
    );
    let first_match = arr2(firefox, chrome);
    obj1(jfield("capabilities", obj1(jfield("firstMatch", first_match))))
}

/// The create-session capabilities offer a Firefox and a Chrome match,
/// and carry `-headless` in the Firefox args and `--headless` in the
/// Chrome args exactly when `headless` is set; with it clear, both
/// argument lists are empty.
pub proof fn lemma_session_body_headless(headless: bool)
    ensures
        ({
            let body = spec_session_body(headless);
            let first = spec_index_key(spec_index_key(body, "capabilities"@), "firstMatch"@);
            &&& first is Arr
            &&& first->Arr_0.len() == 2
            &&& spec_index_key(first->Arr_0[0], "browserName"@) == JsonV::Str("firefox"@)
            &&& spec_index_key(first->Arr_0[1], "browserName"@) == JsonV::Str("chrome"@)
            &&& spec_index_key(spec_index_key(first->Arr_0[0], "moz:firefoxOptions"@), "args"@)
                == JsonV::Arr(
                if headless {
                    seq![JsonV::Str("-headless"@)]
                } else {
                    Seq::empty()
                },
            )
            &&& spec_index_key(spec_index_key(first->Arr_0[1], "goog:chromeOptions"@), "args"@)
                == JsonV::Arr(
                if headless {
                    seq![JsonV::Str("--headless"@)]
                } else {
                    Seq::empty()
                },
            )
        }),
{
    reveal_with_fuel(crate::json::spec_lookup_from, 4);
    reveal_strlit("browserName");
    reveal_strlit("moz:firefoxOptions");
    reveal_strlit("goog:chromeOptions");
    assert("browserName"@.len() != "moz:firefoxOptions"@.len());
    assert("browserName"@.len() != "goog:chromeOptions"@.len());
}

impl Driver {
    /// Creates a client after checking that the endpoint answers at all:
    /// one GET on the root path must come back. The client starts without
    /// a session.
    pub fn new<T: Transport>(t: &mut T, port: u16) -> (r: Result<Driver, &'static str>)
        ensures
            r matches Ok(d) ==> d.port == port && d.session_id is None,
            r matches Err(e) ==> e@ == "Failed to connect to driver"@,
    {
        let body = Json::empty_object();
        match send_request(t, port, Method::GET, "/", &body) {
            Ok(_) => Ok(Driver { port, session_id: None }),
            Err(_) => Err("Failed to connect to driver"),
        }
    }

    /// Sends one request inside the current session, on the path
    /// `/session/{token}{path}`. Without a session it fails at once, and
    /// no exchange is made.
    fn session_request<T: Transport>(
        &self,
        t: &mut T,
        m: Method,
        path: &str,
        body: &Json,
    ) -> (r: Result<Json, ()>)
        ensures
            self.session_id is None ==> r is Err,
    {
        let sid = match &self.session_id {
            Some(sid) => sid,
            None => {
                return Err(());
            },
        };
        let mut path_chars: Vec<char> = Vec::new();
        push_chars_of_str("/session/", &mut path_chars);
        push_chars_of_str(sid.as_str(), &mut path_chars);
        push_chars_of_str(path, &mut path_chars);
        let full_path = chars_to_string(path_chars);
        send_request(t, self.port, m, full_path.as_str(), body)
    }

    /// Creates a session: POSTs the capabilities payload to `/session`
    /// and, when the response carries `value.sessionId` as a string,
    /// stores that token. On any failure the client is unchanged.
    pub fn new_session<T: Transport>(&mut self, t: &mut T, headless: bool) -> (r: Result<
        (),
        &'static str,
    >)
        ensures
            final(self).port == old(self).port,
            r matches Ok(u) ==> final(self).session_id is Some,
            r matches Err(e) ==> *final(self) == *old(self) && (e@
                == "Failed to create new session"@ || e@
                == "Failed to get session ID from response"@),
    {
        let body = session_body(headless);
        let res = match send_request(t, self.port, Method::POST, "/session", &body) {
            Ok(res) => res,
            Err(_) => {
                return Err("Failed to create new session");
            },
        };
        match interpret_session_response(&res) {
            Some(sid) => {
                self.session_id = Some(sid);
                Ok(())
            },
            None => Err("Failed to get session ID from response"),
        }
    }

    /// Navigates the session to `url`: POSTs `{url}` and ignores the
    /// response body. Without a session it fails at once.
    pub fn navigate_to<T: Transport>(&self, t: &mut T, url: &str) -> (r: Result<
        (),
        &'static str,
    >)
        ensures
            self.session_id is None ==> r is Err,
            r matches Err(e) ==> e@ == "Failed to navigate to url"@,
    {
        let body = obj1(jfield("url", jstr(url)));
        match self.session_request(t, Method::POST, "/url", &body) {
            Ok(_) => Ok(()),
            Err(_) => Err("Failed to navigate to url"),
        }
    }

    /// The session's current URL: the string under `value` of a GET on
    /// the session's url path; any other response shape fails. Without a
    /// session it fails at once.
    pub fn get_current_url<T: Transport>(&self, t: &mut T) -> (r: Result<String, &'static str>)
        ensures
            self.session_id is None ==> r is Err,
            r matches Err(e) ==> e@ == "Failed to get current url"@,
    {
        let body = Json::empty_object();
        let res = match self.session_request(t, Method::GET, "/url", &body) {
            Ok(res) => res,
            Err(_) => {
                return Err("Failed to get current url");
            },
        };
        match interpret_url_response(&res) {
            Some(url) => Ok(url),
            None => Err("Failed to get current url"),
        }
    }

    /// Finds one element by CSS selector. An exchange failure, an
    /// error-shaped response and a malformed response each fail under
    /// their own reason; otherwise the first field of `value` names the
    /// element. Without a session it fails at once.
    pub fn find_element_by_css_selector<T: Transport>(&self, t: &mut T, selector: &str) -> (r:
        Result<Element, &'static str>)
        ensures
            self.session_id is None ==> r is Err,
            r matches Err(e) ==> (e@ == "Failed to parse response"@ || e@
                == "Failed to find element"@ || e@ == "Malformed element response"@),
    {
        let body = obj2(jfield("using", jstr("css selector")), jfield("value", jstr(selector)));
        let res = match self.session_request(t, Method::POST, "/element", &body) {
            Ok(res) => res,
            Err(_) => {
                return Err("Failed to parse response");
            },
        };
        match interpret_element_response(&res) {
            ElementRead::Found(element_id) => Ok(Element { element_id }),
            ElementRead::ErrorShaped => Err("Failed to find element"),
            ElementRead::Malformed => Err("Malformed element response"),
        }
    }

    /// Tries find-element up to `retries` times, pausing 100 ms after
    /// each failed attempt: the first success wins. With every attempt
    /// failed, or zero retries, it fails as not-found. Without a session
    /// every attempt fails at once.
    pub fn find_element_by_css_selector_with_retries<T: Transport>(
        &self,
        t: &mut T,
        selector: &str,
        retries: u8,
    ) -> (r: Result<Element, &'static str>)
        ensures
            self.session_id is None ==> r is Err,
            retries == 0 ==> r is Err,
            r matches Err(e) ==> e@ == "Failed to find element"@,
    {
        let mut attempt: u8 = 0;
        while attempt < retries
            invariant
                attempt <= retries,
            decreases retries - attempt,
        {
            let res = self.find_element_by_css_selector(t, selector);
            if res.is_ok() {
                return res;
            }
            t.pause_ms(100);
            attempt += 1;
        }
        Err("Failed to find element")
    }

    /// Clicks an element, consuming its handle: POSTs an empty body to
    /// the element's click path and ignores the response body. Without a
    /// session it fails at once.
    pub fn click_element<T: Transport>(&self, t: &mut T, element: Element) -> (r: Result<
        (),
        &'static str,
    >)
        ensures
            self.session_id is None ==> r is Err,
            r matches Err(e) ==> e@ == "Failed to click element"@,
    {
        let mut path_chars: Vec<char> = Vec::new();
        push_chars_of_str("/element/", &mut path_chars);
        push_chars_of_str(element.element_id.as_str(), &mut path_chars);
        push_chars_of_str("/click", &mut path_chars);
        let path = chars_to_string(path_chars);
        let body = Json::empty_object();
        match self.session_request(t, Method::POST, path.as_str(), &body) {
            Ok(_) => Ok(()),
            Err(_) => Err("Failed to click element"),
        }
    }

    /// Types text into an element, consuming its handle: POSTs `{text}`
    /// to the element's value path and ignores the response body. Without
    /// a session it fails at once.
    pub fn send_keys<T: Transport>(&self, t: &mut T, element: Element, keys: &str) -> (r: Result<
        (),
        &'static str,
    >)
        ensures
            self.session_id is None ==> r is Err,
            r matches Err(e) ==> e@ == "Failed to send keys"@,
    {
        let mut path_chars: Vec<char> = Vec::new();
        push_chars_of_str("/element/", &mut path_chars);
        push_chars_of_str(element.element_id.as_str(), &mut path_chars);
        push_chars_of_str("/value", &mut path_chars);
        let path = chars_to_string(path_chars);
        let body = obj1(jfield("text", jstr(keys)));
        match self.session_request(t, Method::POST, path.as_str(), &body) {
            Ok(_) => Ok(()),
            Err(_) => Err("Failed to send keys"),
        }
    }

    /// Ends the session: DELETEs it remotely and clears the stored token
    /// whatever the outcome, so the client is always unbound afterwards.
    /// It fails when there was no session, or when the exchange failed.
    pub fn close<T: Transport>(&mut self, t: &mut T) -> (r: Result<(), &'static str>)
        ensures
            final(self).session_id is None,
            final(self).port == old(self).port,
            old(self).session_id is None ==> r is Err,
            r matches Err(e) ==> e@ == "Failed to close session"@,
    {
        let body = Json::empty_object();
        let res = self.session_request(t, Method::DELETE, "", &body);
        self.session_id = None;
        match res {
            Ok(_) => Ok(()),
            Err(_) => Err("Failed to close session"),
        }
    }
}

} // verus!
