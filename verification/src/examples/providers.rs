//! Example providers of the example services.

use std::sync::atomic::{AtomicUsize, Ordering};
use std::sync::Arc;
use vstd::prelude::*;

use crate::controller::{Controller, ControllerModel};
use crate::controller::header_insert;
use crate::examples::benchmark::MetricService;
use crate::examples::echo::{EchoRequest, EchoResponse, EchoService};
use crate::examples::hello::{HelloRequest, HelloResponse, HelloService};
use crate::examples::messages::{Empty, TextMessage};
use crate::message::append_bytes;
use crate::protocol::http::HttpStatus;
use crate::service::ProviderSetError;
use crate::text::{
    decimal_digits, decimal_string, lemma_decimal_digits_value, parse_unsigned, push_str, str_bytes, str_chars,
    string_from_chars, utf8_str,
};
use vstd::utf8::*;

verus! {

/// Sends texts back.
#[derive(Clone, Copy, Debug)]
pub struct Echo;

/// The characters of `s` in reverse order.
pub fn reversed(s: &str) -> (r: String)
    ensures
        r@ == s@.reverse(),
{
    let cs = str_chars(s);
    let n = cs.len();
    let mut out: Vec<char> = Vec::new();
    let mut i: usize = 0;
    while i < n
        invariant
            n == cs@.len(),
            cs@ == s@,
            i <= n,
            out@.len() == i,
            forall|k: int| 0 <= k < i ==> out@[k] == cs@[n - 1 - k],
        decreases n - i,
    {
        out.push(cs[n - 1 - i]);
        i = i + 1;
    }
    assert(out@ =~= s@.reverse());
    string_from_chars(out.as_slice())
}

impl EchoService for Echo {
    /// The same text, with the same controller.
    fn echo(&self, msg: (EchoRequest, Controller)) -> (r: Result<(EchoResponse, Controller), ProviderSetError>)
        ensures
            r matches Ok((m, c)) && m@ == msg.0@ && c == msg.1,
    {
        let (req, controller) = msg;
        let mut resp = TextMessage::new();
        resp.set_msg(req.msg);
        Ok((resp, controller))
    }

    /// The text reversed, with the same controller.
    fn rev_echo(&self, msg: (EchoRequest, Controller)) -> (r: Result<(EchoResponse, Controller), ProviderSetError>)
        ensures
            r matches Ok((m, c)) && m@ == msg.0@.reverse() && c == msg.1,
    {
        let (req, controller) = msg;
        let mut resp = TextMessage::new();
        resp.set_msg(reversed(req.msg.as_str()));
        Ok((resp, controller))
    }
}

/// A controller answering with status `OK`, the text `body` as
/// `text/plain`.
pub open spec fn text_page(c: ControllerModel, body: Seq<char>) -> ControllerModel {
    ControllerModel {
        status: Some(HttpStatus::OK),
        response_body: encode_utf8(body),
        headers: header_insert(c.headers, "Content-Type"@, "text/plain"@),
        ..c
    }
}

/// Answers `body` as plain text through the controller.
fn answer_text(controller: &mut Controller, body: &str)
    ensures
        final(controller)@ == text_page(old(controller)@, body@),
{
    let mut bytes: Vec<u8> = Vec::new();
    append_bytes(&mut bytes, str_bytes(body));
    controller.response_body = bytes;
    controller.status = Some(HttpStatus::OK);
    controller.set_content_type("text/plain");
    assert(controller@.response_body =~= encode_utf8(body@));
}

/// Greets over http.
#[derive(Clone, Copy, Debug)]
pub struct Hello;

/// The greeting for `name`.
pub open spec fn greeting_to(name: Seq<char>) -> Seq<char> {
    "Hello to "@ + name + ".\n"@
}

impl HelloService for Hello {
    /// Answers a fixed greeting.
    fn hello_general(&self, msg: (HelloRequest, Controller)) -> (r: Result<(HelloResponse, Controller), ProviderSetError>)
        ensures
            r matches Ok((_, c)) && c@ == text_page(msg.1@, "Hello from the server.\n"@),
    {
        let (_, mut controller) = msg;
        answer_text(&mut controller, "Hello from the server.\n");
        Ok((Empty::new(), controller))
    }

    /// Greets the name that the request body holds; a body that is not
    /// text is refused.
    fn hello_to(&self, msg: (HelloRequest, Controller)) -> (r: Result<(HelloResponse, Controller), ProviderSetError>)
        ensures
            valid_utf8(msg.1@.request_body) ==> (r matches Ok((_, c)) && c@ == text_page(
                (ControllerModel { request_body: Seq::empty(), ..msg.1@ }),
                greeting_to(decode_utf8(msg.1@.request_body)),
            )),
            !valid_utf8(msg.1@.request_body) ==> r == Err::<(HelloResponse, Controller), ProviderSetError>(
                ProviderSetError::InvalidRequest,
            ),
    {
        let (_, mut controller) = msg;
        let mut raw: Vec<u8> = Vec::new();
        std::mem::swap(&mut raw, &mut controller.request_body);
        match utf8_str(raw.as_slice()) {
            Some(name) => {
                let mut text: Vec<char> = Vec::new();
                push_str(&mut text, "Hello to ");
                push_str(&mut text, name);
                push_str(&mut text, ".\n");
                let greeting = string_from_chars(text.as_slice());
                assert(greeting@ =~= greeting_to(name@));
                answer_text(&mut controller, greeting.as_str());
                Ok((Empty::new(), controller))
            },
            None => Err(ProviderSetError::InvalidRequest),
        }
    }
}

/// Reports the throughput that a server keeps in a shared counter.
#[derive(Clone, Debug)]
pub struct Metric {
    throughput: Arc<AtomicUsize>,
}

/// The page that reports throughput `n`.
pub open spec fn throughput_text(n: nat) -> Seq<char> {
    "Throughput: "@ + decimal_digits(n)
}

/// The page that reports the count `n` read from a counter.
pub open spec fn count_page(n: usize) -> Seq<char> {
    throughput_text(n as nat)
}

impl Metric {
    /// The shared counter it reads.
    pub closed spec fn counter(&self) -> Arc<AtomicUsize> {
        self.throughput
    }

    /// A provider reading `throughput`.
    pub fn new(throughput: Arc<AtomicUsize>) -> (r: Self)
        ensures
            r.counter() == throughput,
    {
        Metric { throughput }
    }

    /// Answers the page for throughput `n` through `controller`.
    pub fn report(n: usize, controller: &mut Controller)
        ensures
            final(controller)@ == text_page(old(controller)@, throughput_text(n as nat)),
    {
        let mut text: Vec<char> = Vec::new();
        push_str(&mut text, "Throughput: ");
        let digits = decimal_string(n);
        push_str(&mut text, digits.as_str());
        let page = string_from_chars(text.as_slice());
        assert(page@ =~= throughput_text(n as nat));
        answer_text(controller, page.as_str());
    }
}

/// The metric page tells the count it reports: it starts with
/// "Throughput: ", and the rest reads back as the count, as std parses an
/// unsigned number. So pages of different counts differ.
pub proof fn lemma_count_page_reads_back(n: usize, k: usize)
    ensures
        count_page(n).take(12) == "Throughput: "@,
        parse_unsigned(count_page(n).skip(12), usize::MAX as nat) == Some(n as nat),
        count_page(n) == count_page(k) ==> n == k,
{
    reveal_strlit("Throughput: ");
    lemma_decimal_digits_value(n as nat);
    lemma_decimal_digits_value(k as nat);
    let p = count_page(n);
    assert(p.take(12) =~= "Throughput: "@);
    assert(p.skip(12) =~= decimal_digits(n as nat));
    assert(count_page(k).skip(12) =~= decimal_digits(k as nat));
    assert(decimal_digits(n as nat)[0] != '+');
}

impl MetricService for Metric {
    /// Answers the current throughput as a plain text page.
    fn metric(&self, msg: (Empty, Controller)) -> (r: Result<(Empty, Controller), ProviderSetError>)
        ensures
            r matches Ok((_, c)) && exists|n: usize|
                #[trigger] call_ensures(AtomicUsize::load, (&*self.counter(), Ordering::Relaxed), n) && c@
                    == text_page(msg.1@, count_page(n)),
    {
        let (empty, mut controller) = msg;
        let n = self.throughput.load(Ordering::Relaxed);
        Metric::report(n, &mut controller);
        Ok((empty, controller))
    }
}

} // verus!
