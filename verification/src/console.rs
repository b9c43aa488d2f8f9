//! The operator console's side of the panel: how it reads replies, which
//! routes it calls, and how its state moves with each message.

use vstd::prelude::*;
use vstd::string::*;
use crate::action::{NatAction, ServiceAction};
use crate::json::{as_bool, as_text, json_of, member, parse, Json};
use crate::text::{slice_text, trim_of, trimmed};

verus! {

/// Where the backend listens.
pub const API: &'static str = "http://127.0.0.1:5000";

/// The text that the console shows for a reply body, given what the body
/// holds once read as JSON: the payload's text where the reply is a
/// success that has one, else the error behind a label where there is one,
/// else the body as it came.
pub open spec fn shown_text(
    ok: Option<bool>,
    text: Option<Seq<char>>,
    error: Option<Seq<char>>,
    body: Seq<char>,
) -> Seq<char> {
    if ok == Some(true) && text is Some {
        text->0
    } else if error is Some {
        "error: "@ + error->0
    } else {
        body
    }
}

/// The success flag of a reply document.
pub open spec fn doc_ok(doc: Json) -> Option<bool> {
    match doc.member("ok"@) {
        Some(flag) => flag.as_bool(),
        None => None,
    }
}

/// The payload text of a reply document.
pub open spec fn doc_text(doc: Json) -> Option<Seq<char>> {
    match doc.member("data"@) {
        Some(data) => match data.member("text"@) {
            Some(text) => text.as_text(),
            None => None,
        },
        None => None,
    }
}

/// The error message of a reply document.
pub open spec fn doc_error(doc: Json) -> Option<Seq<char>> {
    match doc.member("error"@) {
        Some(error) => error.as_text(),
        None => None,
    }
}

/// The text that the console shows for a reply body.
pub open spec fn parsed_text(body: Seq<char>) -> Seq<char> {
    match json_of(body) {
        Some(doc) => shown_text(doc_ok(doc), doc_text(doc), doc_error(doc), body),
        None => body,
    }
}

/// The text to show for a reply body whose fields have been read.
pub fn reply_text(ok: Option<bool>, text: Option<&str>, error: Option<&str>, body: &str) -> (r:
    String)
    ensures
        r@ == shown_text(ok, slice_text(text), slice_text(error), body@),
{
    let success = match ok {
        Some(flag) => flag,
        None => false,
    };
    if success {
        if let Some(payload) = text {
            return payload.to_owned();
        }
    }
    if let Some(message) = error {
        let mut shown = "error: ".to_owned();
        shown.append(message);
        return shown;
    }
    body.to_owned()
}

/// The text to show for a reply body: the body is read as JSON and its
/// fields are handed to [`reply_text`]; a body that is no JSON document is
/// shown as it came.
pub fn parse_text(body: &str) -> (r: String)
    ensures
        r@ == parsed_text(body@),
{
    match parse(body) {
        Some(doc) => {
            let ok = match member(&doc, "ok") {
                Some(flag) => as_bool(flag),
                None => None,
            };
            let text = match member(&doc, "data") {
                Some(data) => match member(data, "text") {
                    Some(text) => as_text(text),
                    None => None,
                },
                None => None,
            };
            let error = match member(&doc, "error") {
                Some(error) => as_text(error),
                None => None,
            };
            reply_text(ok, text, error, body)
        },
        None => body.to_owned(),
    }
}

/// The pages of the console.
#[derive(Debug, Clone, Copy, PartialEq, Eq, Structural)]
pub enum Page {
    Services,
    Network,
    Tools,
    Vault,
}

impl Default for Page {
    fn default() -> (r: Page)
        ensures
            r == Page::Services,
    {
        Page::Services
    }
}

/// What the console asks of the outside after a message: nothing, or one
/// round of calls to the backend.
#[derive(Debug)]
pub enum Effect {
    /// Nothing is to be done.
    Idle,
    /// Load the service status, the logs and the target's address anew.
    Reload,
    /// Call the service route with this action for this service.
    Service(ServiceAction, String),
    /// Call the NAT route, on or off, with this uplink.
    Nat(bool, String),
    /// Call the route that sets up the USB gadget.
    UsbEnsure,
}

/// Mathematical value of an [`Effect`].
pub enum EffectView {
    Idle,
    Reload,
    Service(ServiceAction, Seq<char>),
    Nat(bool, Seq<char>),
    UsbEnsure,
}

impl View for Effect {
    type V = EffectView;

    open spec fn view(&self) -> EffectView {
        match self {
            Effect::Idle => EffectView::Idle,
            Effect::Reload => EffectView::Reload,
            Effect::Service(action, name) => EffectView::Service(*action, name@),
            Effect::Nat(on, uplink) => EffectView::Nat(*on, uplink@),
            Effect::UsbEnsure => EffectView::UsbEnsure,
        }
    }
}

/// The full address of a backend route.
pub fn api_url(path: &str) -> (r: String)
    ensures
        r@ == API@ + path@,
{
    let mut url = API.to_owned();
    url.append(path);
    url
}

/// The route that asks `action` of a service.
pub fn service_path(action: ServiceAction) -> (r: String)
    ensures
        r@ == "/api/svc/"@ + action.word(),
{
    let mut path = "/api/svc/".to_owned();
    path.append(action.as_str());
    path
}

/// The route that switches NAT on or off.
pub fn nat_path(on: bool) -> (r: String)
    ensures
        r@ == "/api/nat/"@ + (if on {
            NatAction::On
        } else {
            NatAction::Off
        }).word(),
{
    let mut path = "/api/nat/".to_owned();
    path.append(NatAction::from_switch(on).as_str());
    path
}

/// What can happen to the console: the operator acts, or a call to the
/// backend comes back.
#[derive(Debug)]
pub enum Msg {
    Go(Page),
    Refresh,
    StatusLoaded(String),
    LogsLoaded(String),
    SvcAction(ServiceAction, String),
    NatToggle(bool),
    NatDone(Result<String, String>),
    UplinkPick(String),
    TargetFound(String),
    UsbEnsure,
    Done(Result<String, String>),
}

/// Mathematical value of a [`Msg`].
pub enum MsgView {
    Go(Page),
    Refresh,
    StatusLoaded(Seq<char>),
    LogsLoaded(Seq<char>),
    SvcAction(ServiceAction, Seq<char>),
    NatToggle(bool),
    NatDone(Result<Seq<char>, Seq<char>>),
    UplinkPick(Seq<char>),
    TargetFound(Seq<char>),
    UsbEnsure,
    Done(Result<Seq<char>, Seq<char>>),
}

/// The characters on both sides of a result of strings.
pub open spec fn outcome_text(result: Result<String, String>) -> Result<Seq<char>, Seq<char>> {
    match result {
        Ok(text) => Ok(text@),
        Err(error) => Err(error@),
    }
}

impl View for Msg {
    type V = MsgView;

    open spec fn view(&self) -> MsgView {
        match self {
            Msg::Go(page) => MsgView::Go(*page),
            Msg::Refresh => MsgView::Refresh,
            Msg::StatusLoaded(text) => MsgView::StatusLoaded(text@),
            Msg::LogsLoaded(text) => MsgView::LogsLoaded(text@),
            Msg::SvcAction(action, name) => MsgView::SvcAction(*action, name@),
            Msg::NatToggle(on) => MsgView::NatToggle(*on),
            Msg::NatDone(result) => MsgView::NatDone(outcome_text(*result)),
            Msg::UplinkPick(name) => MsgView::UplinkPick(name@),
            Msg::TargetFound(text) => MsgView::TargetFound(text@),
            Msg::UsbEnsure => MsgView::UsbEnsure,
            Msg::Done(result) => MsgView::Done(outcome_text(*result)),
        }
    }
}

/// A copy of a result of strings.
fn copy_outcome(result: &Result<String, String>) -> (r: Result<String, String>)
    ensures
        outcome_text(r) == outcome_text(*result),
{
    match result {
        Ok(text) => Ok(text.clone()),
        Err(error) => Err(error.clone()),
    }
}

impl Clone for Msg {
    fn clone(&self) -> (r: Msg)
        ensures
            r@ == self@,
    {
        match self {
            Msg::Go(page) => Msg::Go(*page),
            Msg::Refresh => Msg::Refresh,
            Msg::StatusLoaded(text) => Msg::StatusLoaded(text.clone()),
            Msg::LogsLoaded(text) => Msg::LogsLoaded(text.clone()),
            Msg::SvcAction(action, name) => Msg::SvcAction(*action, name.clone()),
            Msg::NatToggle(on) => Msg::NatToggle(*on),
            Msg::NatDone(result) => Msg::NatDone(copy_outcome(result)),
            Msg::UplinkPick(name) => Msg::UplinkPick(name.clone()),
            Msg::TargetFound(text) => Msg::TargetFound(text.clone()),
            Msg::UsbEnsure => Msg::UsbEnsure,
            Msg::Done(result) => Msg::Done(copy_outcome(result)),
        }
    }
}

/// The message that a loaded service status becomes.
pub fn status_loaded(result: Result<String, String>) -> (r: Msg)
    ensures
        r@ == (match outcome_text(result) {
            Ok(body) => MsgView::StatusLoaded(parsed_text(body)),
            Err(error) => MsgView::Done(Err(error)),
        }),
{
    match result {
        Ok(body) => Msg::StatusLoaded(parse_text(body.as_str())),
        Err(error) => Msg::Done(Err(error)),
    }
}

/// The message that loaded logs become.
pub fn logs_loaded(result: Result<String, String>) -> (r: Msg)
    ensures
        r@ == (match outcome_text(result) {
            Ok(body) => MsgView::LogsLoaded(parsed_text(body)),
            Err(error) => MsgView::Done(Err(error)),
        }),
{
    match result {
        Ok(body) => Msg::LogsLoaded(parse_text(body.as_str())),
        Err(error) => Msg::Done(Err(error)),
    }
}

/// The message that a looked-up target address becomes; a failed call
/// counts as an empty address.
pub fn target_found(result: Result<String, String>) -> (r: Msg)
    ensures
        r@ == (match outcome_text(result) {
            Ok(body) => MsgView::TargetFound(parsed_text(body)),
            Err(_) => MsgView::TargetFound(Seq::empty()),
        }),
{
    match result {
        Ok(body) => Msg::TargetFound(parse_text(body.as_str())),
        Err(_) => Msg::TargetFound(String::new()),
    }
}

/// The message that the reply to a service or gadget call becomes.
pub fn call_done(result: Result<String, String>) -> (r: Msg)
    ensures
        r@ == (match outcome_text(result) {
            Ok(body) => MsgView::Done(Ok(parsed_text(body))),
            Err(error) => MsgView::Done(Err(error)),
        }),
{
    match result {
        Ok(body) => Msg::Done(Ok(parse_text(body.as_str()))),
        Err(error) => Msg::Done(Err(error)),
    }
}

/// The message that the reply to a NAT call becomes.
pub fn nat_done(result: Result<String, String>) -> (r: Msg)
    ensures
        r@ == (match outcome_text(result) {
            Ok(body) => MsgView::NatDone(Ok(parsed_text(body))),
            Err(error) => MsgView::NatDone(Err(error)),
        }),
{
    match result {
        Ok(body) => Msg::NatDone(Ok(parse_text(body.as_str()))),
        Err(error) => Msg::NatDone(Err(error)),
    }
}

/// The state of the console.
#[derive(Debug)]
pub struct Console {
    pub page: Page,
    pub status: String,
    pub busy: bool,
    pub last_error: Option<String>,
    pub nat_enabled: bool,
    pub uplink: String,
    pub target_ip: String,
}

/// Mathematical value of a [`Console`].
pub struct ConsoleView {
    pub page: Page,
    pub status: Seq<char>,
    pub busy: bool,
    pub last_error: Option<Seq<char>>,
    pub nat_enabled: bool,
    pub uplink: Seq<char>,
    pub target_ip: Seq<char>,
}

impl View for Console {
    type V = ConsoleView;

    open spec fn view(&self) -> ConsoleView {
        ConsoleView {
            page: self.page,
            status: self.status@,
            busy: self.busy,
            last_error: match self.last_error {
                Some(error) => Some(error@),
                None => None,
            },
            nat_enabled: self.nat_enabled,
            uplink: self.uplink@,
            target_ip: self.target_ip@,
        }
    }
}

/// The status text after `more` is added below it; a blank line parts the
/// two where there was text before.
pub open spec fn extended(status: Seq<char>, more: Seq<char>) -> Seq<char> {
    if status.len() == 0 {
        more
    } else {
        status + "\n\n"@ + more
    }
}

impl ConsoleView {
    /// The console as it starts: on the services page, idle, with the
    /// default uplink chosen.
    pub open spec fn initial() -> ConsoleView {
        ConsoleView {
            page: Page::Services,
            status: Seq::empty(),
            busy: false,
            last_error: None,
            nat_enabled: false,
            uplink: "eth0"@,
            target_ip: Seq::empty(),
        }
    }

    /// The console after the target's address, already trimmed, is noted.
    pub open spec fn with_target(self, address: Seq<char>) -> ConsoleView {
        ConsoleView { target_ip: address, ..self }
    }

    /// The console after a call came back with `result`; `blank` says
    /// whether a text that came back is empty once trimmed.
    pub open spec fn with_done(self, result: Result<Seq<char>, Seq<char>>, blank: bool) -> ConsoleView {
        match result {
            Ok(text) => if blank {
                ConsoleView { busy: false, ..self }
            } else {
                ConsoleView { busy: false, status: extended(self.status, text), ..self }
            },
            Err(error) => ConsoleView { busy: false, last_error: Some(error), ..self },
        }
    }

    /// The console after `message`, and what it asks of the outside.
    pub open spec fn step(self, message: MsgView) -> (ConsoleView, EffectView) {
        match message {
            MsgView::Go(page) => (ConsoleView { page, ..self }, EffectView::Idle),
            MsgView::Refresh => (ConsoleView { busy: true, ..self }, EffectView::Reload),
            MsgView::StatusLoaded(text) => (
                ConsoleView { busy: false, status: text, ..self },
                EffectView::Idle,
            ),
            MsgView::LogsLoaded(text) => (
                ConsoleView { busy: false, status: extended(self.status, text), ..self },
                EffectView::Idle,
            ),
            MsgView::SvcAction(action, name) => (
                ConsoleView { busy: true, ..self },
                EffectView::Service(action, name),
            ),
            MsgView::NatToggle(on) => (
                ConsoleView { nat_enabled: on, busy: true, ..self },
                EffectView::Nat(on, self.uplink),
            ),
            MsgView::NatDone(result) => (
                ConsoleView {
                    busy: false,
                    last_error: match result {
                        Ok(_) => None,
                        Err(error) => Some(error),
                    },
                    ..self
                },
                EffectView::Idle,
            ),
            MsgView::UplinkPick(name) => (ConsoleView { uplink: name, ..self }, EffectView::Idle),
            MsgView::TargetFound(text) => (self.with_target(trim_of(text)), EffectView::Idle),
            MsgView::UsbEnsure => (ConsoleView { busy: true, ..self }, EffectView::UsbEnsure),
            MsgView::Done(result) => (
                self.with_done(result, result is Ok && trim_of(result->Ok_0).len() == 0),
                EffectView::Idle,
            ),
        }
    }
}

impl Console {
    /// The console as it starts, and the first round of calls it asks for.
    pub fn new() -> (r: (Console, Effect))
        ensures
            r.0@ == ConsoleView::initial(),
            r.1@ == EffectView::Reload,
    {
        let console = Console {
            page: Page::Services,
            status: String::new(),
            busy: false,
            last_error: None,
            nat_enabled: false,
            uplink: "eth0".to_owned(),
            target_ip: String::new(),
        };
        (console, Effect::Reload)
    }

    /// Adds `more` below the status text, after a blank line where there
    /// was text before.
    pub fn extend_status(&mut self, more: &str)
        ensures
            final(self)@ == (ConsoleView {
                status: extended(old(self)@.status, more@),
                ..old(self)@
            }),
    {
        if !self.status.as_str().is_empty() {
            self.status.append("\n\n");
        }
        self.status.append(more);
        assert(Seq::<char>::empty() + more@ =~= more@);
    }

    /// Notes the target's address, given already trimmed.
    pub fn note_target(&mut self, address: &str)
        ensures
            final(self)@ == old(self)@.with_target(address@),
    {
        self.target_ip = address.to_owned();
    }

    /// Notes that a call came back with `result`; `blank` says whether a
    /// text that came back is empty once trimmed. A text that is not blank
    /// is added to the status; an error becomes the last error.
    pub fn note_done(&mut self, result: Result<String, String>, blank: bool)
        ensures
            final(self)@ == old(self)@.with_done(outcome_text(result), blank),
    {
        self.busy = false;
        match result {
            Ok(text) => {
                if !blank {
                    self.extend_status(text.as_str());
                }
            },
            Err(error) => {
                self.last_error = Some(error);
            },
        }
    }

    /// Moves the console by one message and says what it asks of the
    /// outside.
    pub fn update(&mut self, message: Msg) -> (effect: Effect)
        ensures
            (final(self)@, effect@) == old(self)@.step(message@),
    {
        match message {
            Msg::Go(page) => {
                self.page = page;
                Effect::Idle
            },
            Msg::Refresh => {
                self.busy = true;
                Effect::Reload
            },
            Msg::StatusLoaded(text) => {
                self.busy = false;
                self.status = text;
                Effect::Idle
            },
            Msg::LogsLoaded(text) => {
                self.busy = false;
                self.extend_status(text.as_str());
                Effect::Idle
            },
            Msg::SvcAction(action, name) => {
                self.busy = true;
                Effect::Service(action, name)
            },
            Msg::NatToggle(on) => {
                self.nat_enabled = on;
                self.busy = true;
                Effect::Nat(on, self.uplink.clone())
            },
            Msg::NatDone(result) => {
                self.busy = false;
                match result {
                    Ok(_) => {
                        self.last_error = None;
                    },
                    Err(error) => {
                        self.last_error = Some(error);
                    },
                }
                Effect::Idle
            },
            Msg::UplinkPick(name) => {
                self.uplink = name;
                Effect::Idle
            },
            Msg::TargetFound(text) => {
                self.note_target(trimmed(text.as_str()));
                Effect::Idle
            },
            Msg::UsbEnsure => {
                self.busy = true;
                Effect::UsbEnsure
            },
            Msg::Done(result) => {
                let blank = match &result {
                    Ok(text) => trimmed(text.as_str()).is_empty(),
                    Err(_) => false,
                };
                self.note_done(result, blank);
                Effect::Idle
            },
        }
    }
}

} // verus!
