//! What is sent to the service and what comes back, as plain values: the
//! query string, the request, the transfer it turns into, and the response.

use vstd::prelude::*;
use vstd::string::{StringExecFns, StringSliceAdditionalSpecFns};
use vstd::utf8::{encode_utf8, valid_utf8};
use crate::params::{ascending_pairs, pairs_of, Pair, Param, Params};

verus! {

/// The HTTP methods that a request can use.
#[derive(Clone, Copy, Debug, PartialEq, Eq, Structural)]
pub enum HttpMethod {
    GET,
    POST,
    PUT,
}

/// Why an exchange gave no text.
pub type HttpErrorString = String;

/// The outcome of an exchange: the status code, absent where the transfer
/// failed, and the body as text or the reason why there is none.
#[derive(Debug, PartialEq, Eq)]
pub struct HttpResponse {
    pub code: Option<u32>,
    pub data: Result<String, HttpErrorString>,
}

/// A request as the client hands it to the transport.
#[derive(Debug, PartialEq, Eq)]
pub struct HttpRequest {
    pub url: String,
    pub query: Option<String>,
    pub body: Option<String>,
    pub method: HttpMethod,
}

/// What goes over the wire for a request: the address and the data sent
/// with it.
#[derive(Debug, PartialEq, Eq)]
pub struct Transfer {
    pub method: HttpMethod,
    pub url: String,
    pub data: String,
}

/// The digit `d` of a decimal number.
pub open spec fn digit_char(d: int) -> char {
    (48 + d) as u8 as char
}

/// A natural number in decimal, without leading zeros.
pub open spec fn decimal_digits(n: nat) -> Seq<char>
    decreases n,
{
    if n < 10 {
        seq![digit_char(n as int)]
    } else {
        decimal_digits(n / 10).push(digit_char((n % 10) as int))
    }
}

/// An integer in decimal, with a minus sign where it is negative.
pub open spec fn decimal(n: int) -> Seq<char> {
    if n < 0 {
        seq!['-'] + decimal_digits((-n) as nat)
    } else {
        decimal_digits(n as nat)
    }
}

/// One decimal digit as text.
fn digit_text(d: u64) -> (text: &'static str)
    requires
        d < 10,
    ensures
        text@ == seq![digit_char(d as int)],
{
    let text = match d {
        0 => "0",
        1 => "1",
        2 => "2",
        3 => "3",
        4 => "4",
        5 => "5",
        6 => "6",
        7 => "7",
        8 => "8",
        _ => "9",
    };
    proof {
        reveal_strlit("0");
        reveal_strlit("1");
        reveal_strlit("2");
        reveal_strlit("3");
        reveal_strlit("4");
        reveal_strlit("5");
        reveal_strlit("6");
        reveal_strlit("7");
        reveal_strlit("8");
        reveal_strlit("9");
        assert(text@ =~= seq![digit_char(d as int)]);
    }
    text
}

/// Appends the decimal digits of `n` to `text`.
fn append_digits(text: &mut String, n: u64)
    ensures
        final(text)@ == old(text)@ + decimal_digits(n as nat),
    decreases n,
{
    if n >= 10 {
        append_digits(text, n / 10);
    }
    text.append(digit_text(n % 10));
    assert(text@ =~= old(text)@ + decimal_digits(n as nat));
}

/// Appends `n` in decimal to `text`.
pub fn append_decimal(text: &mut String, n: i64)
    ensures
        final(text)@ == old(text)@ + decimal(n as int),
{
    if n < 0 {
        text.append("-");
        proof {
            reveal_strlit("-");
        }
        let magnitude: u64 = if n == i64::MIN {
            9223372036854775808u64
        } else {
            (-n) as u64
        };
        append_digits(text, magnitude);
        assert(text@ =~= old(text)@ + decimal(n as int));
    } else {
        append_digits(text, n as u64);
    }
}

/// The status code as the signed number that is shown for it: the code read
/// as a 32-bit two's complement number, and -1 where there is none.
pub open spec fn shown_code(code: Option<u32>) -> int {
    match code {
        Some(code) => if code < 0x8000_0000 {
            code as int
        } else {
            code - 0x1_0000_0000
        },
        None => -1,
    }
}

/// The text that stands for a response: the code on a line of its own, then
/// the body, or the error.
pub open spec fn shown_response(code: Option<u32>, data: Result<Seq<char>, Seq<char>>) -> Seq<
    char,
> {
    "Code: "@ + decimal(shown_code(code)) + "\n"@ + match data {
        Ok(body) => "Response: "@ + body,
        Err(reason) => "ERROR: "@ + reason,
    }
}

/// The text of a received body, or of the reason why there is none.
pub open spec fn data_text(data: Result<String, HttpErrorString>) -> Result<Seq<char>, Seq<char>> {
    match data {
        Ok(body) => Ok(body@),
        Err(reason) => Err(reason@),
    }
}

impl HttpResponse {
    /// The body of a response that has one.
    pub fn unwrap(self) -> (body: String)
        requires
            self.data is Ok,
        ensures
            self.data == Ok::<String, HttpErrorString>(body),
    {
        match self.data {
            Ok(body) => body,
            Err(_) => {
                assert(false);
                String::new()
            },
        }
    }

    /// The number shown for the status code.
    pub fn code_number(&self) -> (number: i32)
        ensures
            number == shown_code(self.code),
    {
        match self.code {
            Some(code) => if code < 0x8000_0000 {
                code as i32
            } else {
                ((code - 0x8000_0000) as i32) + i32::MIN
            },
            None => -1,
        }
    }

    /// The response as text.
    pub fn to_text(&self) -> (text: String)
        ensures
            text@ == shown_response(self.code, data_text(self.data)),
    {
        let mut text = "Code: ".to_owned();
        append_decimal(&mut text, self.code_number() as i64);
        text.append("\n");
        match &self.data {
            Ok(body) => {
                text.append("Response: ");
                text.append(body.as_str());
            },
            Err(reason) => {
                text.append("ERROR: ");
                text.append(reason.as_str());
            },
        }
        assert(text@ =~= shown_response(self.code, data_text(self.data)));
        text
    }
}

/// Calls `String::from_utf8`. Trusted: it gives back the text whose UTF-8
/// encoding the bytes are, and nothing where they are not valid UTF-8.
#[verifier::external_body]
fn text_from_utf8(bytes: Vec<u8>) -> (text: Option<String>)
    ensures
        match text {
            Some(text) => valid_utf8(bytes@) && encode_utf8(text@) == bytes@,
            None => !valid_utf8(bytes@),
        },
{
    String::from_utf8(bytes).ok()
}

/// What a finished transfer amounts to. A failed transfer has no status code
/// and hands on its reason. Otherwise the code is the one received and the
/// body is the received bytes read as UTF-8; bytes that are no UTF-8 make an
/// error of their own.
pub open spec fn received_response(
    code: Option<u32>,
    received: Result<Seq<u8>, Seq<char>>,
    response: HttpResponse,
) -> bool {
    match received {
        Err(reason) => response.code is None && data_text(response.data) == Err::<
            Seq<char>,
            Seq<char>,
        >(reason),
        Ok(bytes) => response.code == code && if valid_utf8(bytes) {
            response.data is Ok && encode_utf8(response.data->Ok_0@) == bytes
        } else {
            data_text(response.data) == Err::<Seq<char>, Seq<char>>(
                "invalid utf-8: corrupt contents"@,
            )
        },
    }
}

/// The bytes or the reason that a transfer ended with, as the contracts see
/// them.
pub open spec fn received_view(received: Result<Vec<u8>, HttpErrorString>) -> Result<
    Seq<u8>,
    Seq<char>,
> {
    match received {
        Ok(bytes) => Ok(bytes@),
        Err(reason) => Err(reason@),
    }
}

impl HttpResponse {
    /// Makes the response out of what a transfer ended with: the status
    /// code, if one was read, and the bytes received or the reason of the
    /// failure.
    pub fn from_transfer(code: Option<u32>, received: Result<Vec<u8>, HttpErrorString>) -> (response:
        HttpResponse)
        ensures
            received_response(code, received_view(received), response),
    {
        match received {
            Err(reason) => HttpResponse { code: None, data: Err(reason) },
            Ok(bytes) => match text_from_utf8(bytes) {
                Some(text) => HttpResponse { code, data: Ok(text) },
                None => HttpResponse {
                    code,
                    data: Err("invalid utf-8: corrupt contents".to_owned()),
                },
            },
        }
    }
}

/// The bytes that are escaped in a query: controls, everything beyond
/// ASCII's printable range, and space, `"`, `#`, `<` and `>`.
pub open spec fn query_escaped(byte: u8) -> bool {
    byte < 0x20 || byte > 0x7E || byte == 0x20 || byte == 0x22 || byte == 0x23 || byte == 0x3C
        || byte == 0x3E
}

/// The digit `n` of uppercase hexadecimal.
pub open spec fn hex_upper(n: int) -> char {
    if n < 10 {
        (48 + n) as u8 as char
    } else {
        (55 + n) as u8 as char
    }
}

/// Percent-encoding for a query: an escaped byte becomes `%` and its two
/// hexadecimal digits, every other byte stands for itself.
pub open spec fn percent_encoded(bytes: Seq<u8>) -> Seq<char>
    decreases bytes.len(),
{
    if bytes.len() == 0 {
        Seq::empty()
    } else {
        let byte = bytes[0];
        let head = if query_escaped(byte) {
            seq!['%', hex_upper(byte as int / 16), hex_upper(byte as int % 16)]
        } else {
            seq![byte as char]
        };
        head + percent_encoded(bytes.drop_first())
    }
}

/// Calls `percent_encoding::utf8_percent_encode` with `QUERY_ENCODE_SET`
/// and collects the pieces. Trusted: each byte of the text's UTF-8 encoding
/// that the set holds comes out as `%` and two uppercase hexadecimal digits,
/// every other byte unchanged.
#[verifier::external_body]
fn percent_encode_query(text: &str) -> (encoded: String)
    ensures
        encoded@ == percent_encoded(text.spec_bytes()),
{
    percent_encoding::utf8_percent_encode(text, percent_encoding::QUERY_ENCODE_SET).collect::<
        String,
    >()
}

/// The text of an optional string, empty where there is none.
pub open spec fn text_or_empty(value: Option<String>) -> Seq<char> {
    match value {
        Some(text) => text@,
        None => Seq::empty(),
    }
}

/// The data sent with a request: for a POST with a query the query,
/// percent-encoded; in every other case the body, or nothing.
pub open spec fn transfer_data(request: HttpRequest) -> Seq<char> {
    match (request.method, request.query) {
        (HttpMethod::POST, Some(query)) => percent_encoded(encode_utf8(query@)),
        _ => text_or_empty(request.body),
    }
}

/// The address of a request: a GET or a PUT with a query carries it after a
/// `?`; every other request goes to the address as it is.
pub open spec fn transfer_url(request: HttpRequest) -> Seq<char> {
    match (request.method, request.query) {
        (HttpMethod::POST, _) => request.url@,
        (_, None) => request.url@,
        (_, Some(query)) => request.url@ + "?"@ + query@,
    }
}

impl HttpRequest {
    /// What goes over the wire for this request.
    pub fn transfer(&self) -> (transfer: Transfer)
        ensures
            transfer.method == self.method,
            transfer.url@ == transfer_url(*self),
            transfer.data@ == transfer_data(*self),
    {
        let data = match (self.method, &self.query) {
            (HttpMethod::POST, Some(query)) => percent_encode_query(query.as_str()),
            _ => match &self.body {
                Some(body) => body.clone(),
                None => String::new(),
            },
        };
        let url = match (self.method, &self.query) {
            (HttpMethod::POST, _) => self.url.clone(),
            (_, None) => self.url.clone(),
            (_, Some(query)) => {
                let mut url = self.url.clone();
                url.append("?");
                url.append(query.as_str());
                url
            },
        };
        Transfer { method: self.method, url, data }
    }
}

/// Names and values as a query string: `name=value`, joined by `&`.
pub open spec fn joined(pairs: Seq<Pair>) -> Seq<char>
    decreases pairs.len(),
{
    if pairs.len() == 0 {
        Seq::empty()
    } else if pairs.len() == 1 {
        pairs[0].0 + "="@ + pairs[0].1
    } else {
        joined(pairs.drop_last()) + "&"@ + pairs.last().0 + "="@ + pairs.last().1
    }
}

/// The query string of a mapping: its pairs in ascending byte-wise order of
/// their names.
pub open spec fn query_text(params: Map<Seq<char>, Seq<char>>) -> Seq<char> {
    joined(ascending_pairs(params))
}

/// Writes the entries as a query string.
fn join(entries: &Vec<Param>) -> (text: String)
    ensures
        text@ == joined(pairs_of(entries@)),
{
    let ghost pairs = pairs_of(entries@);
    let mut text = String::new();
    let mut i: usize = 0;
    assert(pairs.take(0) =~= Seq::<Pair>::empty());
    while i < entries.len()
        invariant
            i <= entries@.len(),
            pairs == pairs_of(entries@),
            text@ == joined(pairs.take(i as int)),
        decreases entries@.len() - i,
    {
        proof {
            let next = pairs.take(i + 1);
            assert(next.drop_last() =~= pairs.take(i as int));
            assert(next.last() == pairs[i as int]);
            assert(next.len() == 1 ==> next[0] == pairs[i as int]);
            assert(i == 0 ==> joined(pairs.take(0)) =~= Seq::<char>::empty());
        }
        if i > 0 {
            text.append("&");
        }
        text.append(entries[i].key.as_str());
        text.append("=");
        text.append(entries[i].value.as_str());
        assert(text@ =~= joined(pairs.take(i + 1)));
        i += 1;
    }
    assert(pairs.take(i as int) =~= pairs);
    text
}

/// A query string in the making: names with their values.
#[derive(Debug, PartialEq, Eq)]
pub struct QueryString {
    map: Params,
}

impl View for QueryString {
    type V = Map<Seq<char>, Seq<char>>;

    closed spec fn view(&self) -> Map<Seq<char>, Seq<char>> {
        self.map@
    }
}

impl QueryString {
    /// A query string without parameters.
    pub fn new() -> (query: QueryString)
        ensures
            query@ == Map::<Seq<char>, Seq<char>>::empty(),
    {
        QueryString { map: Params::new() }
    }

    /// Sets `key` to `value` where there is a value, and changes nothing
    /// where there is none.
    pub fn add_opt(&mut self, key: &str, value: Option<String>) -> (query: &mut QueryString)
        ensures
            query@ == match value {
                Some(text) => old(self)@.insert(key@, text@),
                None => old(self)@,
            },
            *final(self) == *final(query),
    {
        match value {
            Some(text) => {
                self.map.insert(key.to_owned(), text);
            },
            None => {},
        }
        self
    }

    /// Sets `key` to the text that `value` is written as.
    pub fn add<A: core::fmt::Display>(&mut self, key: &str, value: A) -> (query: &mut QueryString)
        ensures
            exists|text: String| #[trigger]
                vstd::string::to_string_from_display_ensures::<A>(&value, text) && query@ == old(
                    self,
                )@.insert(key@, text@),
            *final(self) == *final(query),
    {
        let text = value.to_string();
        self.map.insert(key.to_owned(), text);
        self
    }

    /// The query string: `name=value` for each parameter, in ascending
    /// byte-wise order of the names, joined by `&`. Nothing is escaped here.
    pub fn build(&self) -> (text: String)
        ensures
            text@ == query_text(self@),
    {
        join(self.map.entries())
    }
}

} // verus!
