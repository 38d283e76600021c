//! Decisions of the HTTP side: who may connect, and what is served.

use crate::outbound::MAX_CONTROL_MESSAGE_BYTES;
use crate::readiness::{awaiting_after, ready_after, ReadinessState};
use crate::text::{decimal, same_text};
use url::ParseError;
use vstd::prelude::*;

verus! {

/// Control sockets and viewers together.
pub const MAX_UPGRADED_CONNECTIONS: usize = 32;

pub const MAX_STREAM_MESSAGE_BYTES: usize = 4096;

/// `url::ParseError`: why a text is not a URL. Nothing is claimed of it; it is only
/// carried.
#[verifier::external_type_specification]
#[verifier::external_body]
pub struct ExParseError(url::ParseError);

/// The components of a URL that matter for its origin.
#[derive(Debug)]
pub struct UrlParts {
    pub scheme: String,
    pub host: Option<String>,
    pub username: String,
    pub password: Option<String>,
    /// The port, unless it is the default one of the scheme.
    pub port: Option<u16>,
}

/// The texts of the components.
pub struct UrlText {
    pub scheme: Seq<char>,
    pub host: Option<Seq<char>>,
    pub username: Seq<char>,
    pub password: Option<Seq<char>>,
    pub port: Option<u16>,
}

pub open spec fn text_of(text: Option<String>) -> Option<Seq<char>> {
    match text {
        Some(text) => Some(text@),
        None => None,
    }
}

impl UrlParts {
    pub open spec fn view(&self) -> UrlText {
        UrlText {
            scheme: self.scheme@,
            host: text_of(self.host),
            username: self.username@,
            password: text_of(self.password),
            port: self.port,
        }
    }
}

/// What `url::Url::parse` makes of a text, read through the URL's accessors; `None` if
/// it is not an absolute URL.
pub uninterp spec fn parsed_url(raw: Seq<char>) -> Option<UrlText>;

/// `url::Url::parse`: parses an absolute URL, whose scheme, host, user name, password
/// and port are read off with the accessors of `url::Url`. The components are a function of the
/// text; what function is left unsaid.
#[verifier::external_body]
fn parse_url(raw: &str) -> (r: Result<UrlParts, ParseError>)
    ensures
        match r {
            Ok(parts) => parsed_url(raw@) == Some(parts@),
            Err(_) => parsed_url(raw@) is None,
        },
{
    let url = url::Url::parse(raw)?;
    Ok(
        UrlParts {
            scheme: url.scheme().to_owned(),
            host: url.host_str().map(str::to_owned),
            username: url.username().to_owned(),
            password: url.password().map(str::to_owned),
            port: url.port(),
        },
    )
}

pub open spec fn web_scheme(scheme: Seq<char>) -> bool {
    scheme == "http"@ || scheme == "https"@
}

/// The origin of a URL with a host: its scheme, its host and a port that is not the
/// default one.
pub open spec fn web_origin(parts: UrlText) -> Seq<char> {
    parts.scheme + "://"@ + parts.host->0 + match parts.port {
        Some(port) => ":"@ + decimal(port as nat),
        None => Seq::empty(),
    }
}

/// `url::Url::origin` and `url::Origin::ascii_serialization` of an HTTP URL: its scheme,
/// its host and, unless it is the default one, its port. Such a URL always has a host.
#[verifier::external_body]
fn parse_origin(raw: &str) -> (r: Result<String, ParseError>)
    requires
        parsed_url(raw@) is Some,
        web_scheme(parsed_url(raw@)->0.scheme),
    ensures
        r is Ok,
        r->Ok_0@ == web_origin(parsed_url(raw@)->0),
{
    Ok(url::Url::parse(raw)?.origin().ascii_serialization())
}

#[derive(Debug)]
pub enum OriginError {
    Url(ParseError),
    Scheme,
    MissingHost,
    Credentials,
}

/// Which of the errors it is.
#[derive(Clone, Copy, Debug, PartialEq, Eq, Structural)]
pub enum OriginFault {
    Url,
    Scheme,
    MissingHost,
    Credentials,
}

impl OriginError {
    pub open spec fn view(&self) -> OriginFault {
        match self {
            OriginError::Url(_) => OriginFault::Url,
            OriginError::Scheme => OriginFault::Scheme,
            OriginError::MissingHost => OriginFault::MissingHost,
            OriginError::Credentials => OriginFault::Credentials,
        }
    }

    pub open spec fn spec_message(self) -> Seq<char> {
        match self@ {
            OriginFault::Url => "origin is not a URL"@,
            OriginFault::Scheme => "origin scheme must be HTTP or HTTPS"@,
            OriginFault::MissingHost => "origin must include a host"@,
            OriginFault::Credentials => "origin must not include credentials"@,
        }
    }

    pub fn message(&self) -> (text: &'static str)
        ensures
            text@ == self.spec_message(),
    {
        match self {
            OriginError::Url(_) => "origin is not a URL",
            OriginError::Scheme => "origin scheme must be HTTP or HTTPS",
            OriginError::MissingHost => "origin must include a host",
            OriginError::Credentials => "origin must not include credentials",
        }
    }
}

/// The origin that WebSocket upgrades must come from.
#[derive(Debug)]
pub struct Origin(String);

impl Clone for Origin {
    fn clone(&self) -> (r: Self)
        ensures
            r == *self,
    {
        Origin(self.0.clone())
    }
}

/// Only HTTP origins with a host and without credentials are taken.
pub open spec fn origin_fault(parts: UrlText) -> Option<OriginFault> {
    if !web_scheme(parts.scheme) {
        Some(OriginFault::Scheme)
    } else if parts.host is None {
        Some(OriginFault::MissingHost)
    } else if parts.username.len() > 0 || parts.password is Some {
        Some(OriginFault::Credentials)
    } else {
        None
    }
}

impl UrlParts {
    /// Why a URL has no origin that is taken, if it has none.
    pub fn refusal(&self) -> (r: Option<OriginError>)
        ensures
            match r {
                Some(error) => origin_fault(self@) == Some(error@),
                None => origin_fault(self@) is None,
            },
    {
        if !same_text(self.scheme.as_str(), "http") && !same_text(self.scheme.as_str(), "https") {
            return Some(OriginError::Scheme);
        }
        if self.host.is_none() {
            return Some(OriginError::MissingHost);
        }
        if self.username.as_str().unicode_len() > 0 || self.password.is_some() {
            return Some(OriginError::Credentials);
        }
        None
    }
}

pub open spec fn origin_result(r: Result<Origin, OriginError>) -> Result<Seq<char>, OriginFault> {
    match r {
        Ok(origin) => Ok(origin@),
        Err(error) => Err(error@),
    }
}

impl Origin {
    pub closed spec fn view(&self) -> Seq<char> {
        self.0@
    }

    /// Takes the origin of a text that is an acceptable URL.
    pub fn parse(raw: &str) -> (r: Result<Self, OriginError>)
        ensures
            origin_result(r) == match parsed_url(raw@) {
                Some(parts) => match origin_fault(parts) {
                    Some(fault) => Err(fault),
                    None => Ok(web_origin(parts)),
                },
                None => Err(OriginFault::Url),
            },
    {
        let parts = match parse_url(raw) {
            Ok(parts) => parts,
            Err(error) => {
                return Err(OriginError::Url(error));
            },
        };
        if let Some(error) = parts.refusal() {
            return Err(error);
        }
        match parse_origin(raw) {
            Ok(origin) => Ok(Origin(origin)),
            Err(error) => Err(OriginError::Url(error)),
        }
    }

    pub fn as_str(&self) -> (r: &str)
        ensures
            r@ == self@,
    {
        self.0.as_str()
    }
}

/// Whether a request's `Origin` headers, each as text if it is text, name exactly the
/// expected origin, once.
pub open spec fn origin_matches(origins: Seq<Option<String>>, expected: Seq<char>) -> bool {
    &&& origins.len() == 1
    &&& origins[0] is Some
    &&& origins[0]->0@ == expected
    &&& expected != "null"@
}

pub fn valid_origin(origins: &Vec<Option<String>>, expected: &Origin) -> (r: bool)
    ensures
        r == origin_matches(origins@, expected@),
{
    if origins.len() != 1 {
        return false;
    }
    match &origins[0] {
        Some(value) => same_text(value.as_str(), expected.as_str()) && !same_text(
            value.as_str(),
            "null",
        ),
        None => false,
    }
}

#[derive(Clone, Copy, Debug, PartialEq, Eq, Structural)]
pub enum SocketKind {
    Stream,
    Control,
}

#[derive(Clone, Copy, Debug, PartialEq, Eq, Structural)]
pub enum UpgradeDecision {
    Forbidden,
    Unavailable,
    Upgrade { max_message_bytes: usize },
}

/// A request from elsewhere is refused before it can take a place; a viewer may only
/// send small messages.
pub open spec fn spec_upgrade_decision(
    origin_valid: bool,
    admitted: bool,
    kind: SocketKind,
) -> UpgradeDecision {
    if !origin_valid {
        UpgradeDecision::Forbidden
    } else if !admitted {
        UpgradeDecision::Unavailable
    } else {
        UpgradeDecision::Upgrade {
            max_message_bytes: match kind {
                SocketKind::Stream => MAX_STREAM_MESSAGE_BYTES,
                SocketKind::Control => MAX_CONTROL_MESSAGE_BYTES,
            },
        }
    }
}

pub fn upgrade_decision(origin_valid: bool, admitted: bool, kind: SocketKind) -> (r: UpgradeDecision)
    ensures
        r == spec_upgrade_decision(origin_valid, admitted, kind),
{
    if !origin_valid {
        UpgradeDecision::Forbidden
    } else if !admitted {
        UpgradeDecision::Unavailable
    } else {
        match kind {
            SocketKind::Stream => UpgradeDecision::Upgrade {
                max_message_bytes: MAX_STREAM_MESSAGE_BYTES,
            },
            SocketKind::Control => UpgradeDecision::Upgrade {
                max_message_bytes: MAX_CONTROL_MESSAGE_BYTES,
            },
        }
    }
}

/// WebSocket upgrades require the configured origin: a request that names another one,
/// none, several, or one that is not text is forbidden, whatever else it asks for.
pub proof fn law_upgrades_require_the_origin(
    origins: Seq<Option<String>>,
    expected: Seq<char>,
    admitted: bool,
    kind: SocketKind,
)
    ensures
        spec_upgrade_decision(
            origin_matches(origins, expected),
            admitted,
            kind,
        ) is Upgrade ==> origins.len() == 1 && origins[0] is Some && origins[0]->0@ == expected,
        !origin_matches(origins, expected) ==> spec_upgrade_decision(
            origin_matches(origins, expected),
            admitted,
            kind,
        ) is Forbidden,
{
}

pub open spec fn health_status(ready: bool) -> int {
    if ready {
        200
    } else {
        503
    }
}

/// The health check: ready exactly while there is a picture to show.
pub fn health(ready: bool) -> (r: (u16, &'static str))
    ensures
        r.0 == health_status(ready),
        r.1@ == if ready {
            "ok\n"@
        } else {
            "unavailable\n"@
        },
{
    if ready {
        (200, "ok\n")
    } else {
        (503, "unavailable\n")
    }
}

/// Health confirms that there is video: it is good from a keyframe on, unless the
/// runtime has stopped, and bad while a keyframe is awaited.
pub proof fn law_health_confirms_video(state: ReadinessState)
    ensures
        health_status(ready_after(state) == ReadinessState::Ready) == 200 <==> state
            != ReadinessState::Stopped,
        health_status(awaiting_after(state) == ReadinessState::Ready) == 503,
{
}

/// How many slashes a path starts with.
pub open spec fn leading_slashes(path: Seq<char>) -> int
    decreases path.len(),
{
    if path.len() == 0 || path[0] != '/' {
        0
    } else {
        1 + leading_slashes(path.skip(1))
    }
}

/// The file that a request path names.
pub open spec fn spec_asset_path(path: Seq<char>) -> Seq<char> {
    if path == "/"@ {
        "index.html"@
    } else {
        path.skip(leading_slashes(path))
    }
}

pub fn asset_path(path: &str) -> (r: &str)
    ensures
        r@ == spec_asset_path(path@),
{
    if same_text(path, "/") {
        return "index.html";
    }
    let length: usize = path.unicode_len();
    let mut at: usize = 0;
    assert(path@.skip(0) =~= path@);
    while at < length && path.get_char(at) == '/'
        invariant
            at <= length,
            length == path@.len(),
            leading_slashes(path@) == at + leading_slashes(path@.skip(at as int)),
        decreases length - at,
    {
        assert(path@.skip(at as int)[0] == path@[at as int]);
        assert(path@.skip(at as int).skip(1) =~= path@.skip(at as int + 1));
        at = at + 1;
    }
    proof {
        if at < length {
            assert(path@.skip(at as int)[0] == path@[at as int]);
        }
        assert(path@.skip(at as int) =~= path@.subrange(at as int, length as int));
    }
    path.substring_char(at, length)
}

/// The media type that a browser accepts for a file extension.
pub open spec fn spec_mime(extension: Option<Seq<char>>) -> Seq<char> {
    match extension {
        Some(text) => if text == "html"@ {
            "text/html; charset=utf-8"@
        } else if text == "js"@ {
            "text/javascript; charset=utf-8"@
        } else if text == "css"@ {
            "text/css; charset=utf-8"@
        } else if text == "svg"@ {
            "image/svg+xml"@
        } else if text == "png"@ {
            "image/png"@
        } else if text == "ico"@ {
            "image/x-icon"@
        } else if text == "woff2"@ {
            "font/woff2"@
        } else if text == "json"@ || text == "map"@ {
            "application/json; charset=utf-8"@
        } else {
            "application/octet-stream"@
        },
        None => "application/octet-stream"@,
    }
}

pub fn mime_for_extension(extension: Option<&str>) -> (r: &'static str)
    ensures
        r@ == spec_mime(
            match extension {
                Some(text) => Some(text@),
                None => None,
            },
        ),
{
    match extension {
        Some(text) => {
            if same_text(text, "html") {
                "text/html; charset=utf-8"
            } else if same_text(text, "js") {
                "text/javascript; charset=utf-8"
            } else if same_text(text, "css") {
                "text/css; charset=utf-8"
            } else if same_text(text, "svg") {
                "image/svg+xml"
            } else if same_text(text, "png") {
                "image/png"
            } else if same_text(text, "ico") {
                "image/x-icon"
            } else if same_text(text, "woff2") {
                "font/woff2"
            } else if same_text(text, "json") || same_text(text, "map") {
                "application/json; charset=utf-8"
            } else {
                "application/octet-stream"
            }
        },
        None => "application/octet-stream",
    }
}

/// An origin is taken of an HTTP or HTTPS URL with a host and without credentials, and
/// of no other; what is wrong is told in that order.
pub proof fn law_origins_are_plain_web_addresses(parts: UrlText)
    ensures
        ({
            let web = parts.scheme == "http"@ || parts.scheme == "https"@;
            let credentials = parts.username.len() > 0 || parts.password is Some;
            &&& origin_fault(parts) is None <==> web && parts.host is Some && !credentials
            &&& origin_fault(parts) == Some(OriginFault::Scheme) <==> !web
            &&& origin_fault(parts) == Some(OriginFault::MissingHost) <==> web && parts.host is None
            &&& origin_fault(parts) == Some(OriginFault::Credentials) <==> web && parts.host is Some
                && credentials
        }),
{
}

/// A request comes from the expected origin if it names that one, once and as text, and
/// not the opaque one.
pub proof fn law_requests_name_their_origin_once(
    origins: Seq<Option<String>>,
    expected: Seq<char>,
)
    ensures
        origin_matches(origins, expected) <==> origins.len() == 1 && origins[0] is Some
            && origins[0]->0@ == expected && expected != "null"@,
{
}

/// A request from the expected origin that finds a place is upgraded: a viewer may send
/// messages of 4 KiB, a control socket of a clipboard text with every byte escaped.
pub proof fn law_upgrades_bound_what_may_be_sent(origin_valid: bool, admitted: bool)
    ensures
        spec_upgrade_decision(true, true, SocketKind::Stream) == (UpgradeDecision::Upgrade {
            max_message_bytes: 4096,
        }),
        spec_upgrade_decision(true, true, SocketKind::Control) == (UpgradeDecision::Upgrade {
            max_message_bytes: 6_295_552,
        }),
        spec_upgrade_decision(true, false, SocketKind::Stream) == UpgradeDecision::Unavailable,
        spec_upgrade_decision(true, false, SocketKind::Control) == UpgradeDecision::Unavailable,
        spec_upgrade_decision(false, admitted, SocketKind::Stream) == UpgradeDecision::Forbidden,
        spec_upgrade_decision(false, admitted, SocketKind::Control) == UpgradeDecision::Forbidden,
{
}

/// A path names the file behind its leading slashes, whatever their number; the root
/// alone names the index.
pub proof fn law_paths_name_files_behind_their_slashes(path: Seq<char>)
    ensures
        spec_asset_path("/"@) == "index.html"@,
        0 <= leading_slashes(path) <= path.len(),
        forall|i: int| 0 <= i < leading_slashes(path) ==> #[trigger] path[i] == '/',
        path != "/"@ ==> spec_asset_path(path) == path.skip(leading_slashes(path)) && (
        spec_asset_path(path).len() > 0 ==> spec_asset_path(path)[0] != '/'),
{
    lemma_leading_slashes(path);
}

proof fn lemma_leading_slashes(path: Seq<char>)
    ensures
        0 <= leading_slashes(path) <= path.len(),
        forall|i: int| 0 <= i < leading_slashes(path) ==> #[trigger] path[i] == '/',
        leading_slashes(path) < path.len() ==> path[leading_slashes(path)] != '/',
    decreases path.len(),
{
    if path.len() > 0 && path[0] == '/' {
        let rest = path.skip(1);
        lemma_leading_slashes(rest);
        assert forall|i: int| 0 <= i < leading_slashes(path) implies #[trigger] path[i] == '/' by {
            if i > 0 {
                assert(rest[i - 1] == path[i]);
            }
        }
        if leading_slashes(path) < path.len() {
            assert(rest[leading_slashes(rest)] == path[leading_slashes(path)]);
        }
    }
}

/// Each kind of file is served under its media type, and any other as plain bytes.
pub proof fn law_files_have_media_types(extension: Seq<char>)
    ensures
        spec_mime(Some("html"@)) == "text/html; charset=utf-8"@,
        spec_mime(Some("js"@)) == "text/javascript; charset=utf-8"@,
        spec_mime(Some("css"@)) == "text/css; charset=utf-8"@,
        spec_mime(Some("svg"@)) == "image/svg+xml"@,
        spec_mime(Some("png"@)) == "image/png"@,
        spec_mime(Some("ico"@)) == "image/x-icon"@,
        spec_mime(Some("woff2"@)) == "font/woff2"@,
        spec_mime(Some("json"@)) == "application/json; charset=utf-8"@,
        spec_mime(Some("map"@)) == "application/json; charset=utf-8"@,
        spec_mime(None) == "application/octet-stream"@,
        extension != "html"@ && extension != "js"@ && extension != "css"@ && extension != "svg"@
            && extension != "png"@ && extension != "ico"@ && extension != "woff2"@ && extension
            != "json"@ && extension != "map"@ ==> spec_mime(Some(extension))
            == "application/octet-stream"@,
{
    reveal_strlit("html");
    reveal_strlit("js");
    reveal_strlit("css");
    reveal_strlit("svg");
    reveal_strlit("png");
    reveal_strlit("ico");
    reveal_strlit("woff2");
    reveal_strlit("json");
    reveal_strlit("map");
    assert("html"@[0] == 'h' && "js"@[0] == 'j' && "css"@[0] == 'c' && "svg"@[0] == 's'
        && "png"@[0] == 'p' && "ico"@[0] == 'i' && "woff2"@[0] == 'w' && "json"@[0] == 'j'
        && "map"@[0] == 'm');
    assert("js"@.len() == 2 && "json"@.len() == 4);
}

} // verus!
