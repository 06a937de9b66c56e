use vstd::prelude::*;
use crate::address::{first_separator, SEPARATOR};
use crate::error::{ObsCmdError, UrlProblem};

verus! {

/// Whether `url::Url::parse` accepts a text.
pub uninterp spec fn url_accepts(s: Seq<char>) -> bool;

/// The scheme `url::Url::scheme` reports for a text that parses.
pub uninterp spec fn url_scheme(s: Seq<char>) -> Seq<char>;

/// The host `url::Url::host_str` reports for a text that parses.
pub uninterp spec fn url_host(s: Seq<char>) -> Option<Seq<char>>;

/// The explicit port `url::Url::port` reports for a text that parses.
pub uninterp spec fn url_port(s: Seq<char>) -> Option<u16>;

/// The path `url::Url::path` reports for a text that parses.
pub uninterp spec fn url_path(s: Seq<char>) -> Seq<char>;

/// The parts of a parsed URL that a connection target is made of.
pub struct UrlParts {
    pub scheme: String,
    pub host: Option<String>,
    pub port: Option<u16>,
    pub path: String,
}

pub open spec fn text_option(o: Option<String>) -> Option<Seq<char>> {
    match o {
        Some(s) => Some(s@),
        None => None,
    }
}

/// Relies on `url::Url::parse`, and on `scheme`, `host_str`, `port` and `path`
/// of the URL it returns: each depends on the text alone.
#[verifier::external_body]
fn parse_url(s: &str) -> (r: Option<UrlParts>)
    ensures
        r is Some <==> url_accepts(s@),
        r matches Some(p) ==> p.scheme@ == url_scheme(s@),
        r matches Some(p) ==> text_option(p.host) == url_host(s@),
        r matches Some(p) ==> p.port == url_port(s@),
        r matches Some(p) ==> p.path@ == url_path(s@),
{
    match url::Url::parse(s) {
        Ok(u) => Some(
            UrlParts {
                scheme: u.scheme().to_string(),
                host: u.host_str().map(|h| h.to_string()),
                port: u.port(),
                path: u.path().to_string(),
            },
        ),
        Err(_) => None,
    }
}

/// The first segment of a URL path, as `url::Url::path_segments` gives it:
/// none unless the path starts with a slash; otherwise the text after that
/// slash, up to the next one.
pub open spec fn first_path_segment(path: Seq<char>) -> Option<Seq<char>> {
    if path.len() > 0 && path[0] == SEPARATOR {
        let rest = path.skip(1);
        match first_separator(rest) {
            Some(i) => Some(rest.take(i)),
            None => Some(rest),
        }
    } else {
        None
    }
}

pub fn path_first_segment(path: &str) -> (r: Option<String>)
    ensures
        text_option(r) == first_path_segment(path@),
{
    let n = path.unicode_len();
    if n == 0 || path.get_char(0) != SEPARATOR {
        return None;
    }
    let rest = path.substring_char(1, n);
    assert(rest@ =~= path@.skip(1));
    let address = crate::address::resolve_address(rest, rest);
    // With the name itself as the hint, the container is the first segment.
    Some(address.container)
}

/// Where to connect, and with which password.
#[derive(Clone, Debug, PartialEq, Eq)]
pub struct ObsWebsocket {
    pub hostname: String,
    pub port: u16,
    pub password: Option<String>,
}

impl ObsWebsocket {
    pub open spec fn view(&self) -> (Seq<char>, u16, Option<Seq<char>>) {
        (self.hostname@, self.port, text_option(self.password))
    }
}

/// Why a `obsws://hostname:port/password` argument was refused.
#[derive(Clone, Copy, Debug, PartialEq, Eq)]
pub enum WebsocketUrlError {
    /// The text is no URL, or its scheme is not `obsws`.
    InvalidFormat,
    /// The URL names no host.
    InvalidHostname,
    /// The URL names no port.
    MissingPort,
}

/// The target an `obsws://hostname:port/password` argument names: the path
/// after its leading character is the password, an empty path none.
pub open spec fn websocket_target(s: Seq<char>) -> Result<
    (Seq<char>, u16, Option<Seq<char>>),
    WebsocketUrlError,
> {
    if !url_accepts(s) || url_scheme(s) != "obsws"@ {
        Err(WebsocketUrlError::InvalidFormat)
    } else if url_host(s) is None {
        Err(WebsocketUrlError::InvalidHostname)
    } else if url_port(s) is None {
        Err(WebsocketUrlError::MissingPort)
    } else {
        let path = url_path(s);
        Ok(
            (
                url_host(s).unwrap(),
                url_port(s).unwrap(),
                if path.len() == 0 {
                    None
                } else {
                    Some(path.skip(1))
                },
            ),
        )
    }
}

impl ObsWebsocket {
    /// Reads an `obsws://hostname:port/password` argument.
    pub fn from_url(s: &str) -> (r: Result<ObsWebsocket, WebsocketUrlError>)
        ensures
            match (r, websocket_target(s@)) {
                (Ok(t), Ok(v)) => t@ == v,
                (Err(e), Err(f)) => e == f,
                _ => false,
            },
    {
        let parts = match parse_url(s) {
            Some(p) => p,
            None => return Err(WebsocketUrlError::InvalidFormat),
        };
        if !crate::text::same_text(parts.scheme.as_str(), "obsws") {
            return Err(WebsocketUrlError::InvalidFormat);
        }
        let hostname = match parts.host {
            Some(h) => h,
            None => return Err(WebsocketUrlError::InvalidHostname),
        };
        let port = match parts.port {
            Some(p) => p,
            None => return Err(WebsocketUrlError::MissingPort),
        };
        let n = parts.path.as_str().unicode_len();
        let password = if n == 0 {
            None
        } else {
            Some(String::from_str(parts.path.as_str().substring_char(1, n)))
        };
        Ok(ObsWebsocket { hostname, port, password })
    }
}

impl std::str::FromStr for ObsWebsocket {
    type Err = WebsocketUrlError;

    fn from_str(s: &str) -> Result<ObsWebsocket, WebsocketUrlError> {
        ObsWebsocket::from_url(s)
    }
}

/// The target used when neither the environment nor the arguments name one.
pub open spec fn default_target() -> (Seq<char>, u16, Option<Seq<char>>) {
    ("localhost"@, 4455, Some("secret"@))
}

/// The target a connection URL from the environment names: it needs a host,
/// a port, and a first path segment, which is the password.
pub open spec fn environment_target(s: Seq<char>) -> Option<
    Result<(Seq<char>, u16, Option<Seq<char>>), UrlProblem>,
> {
    if !url_accepts(s) {
        None
    } else if url_host(s) is None {
        Some(Err(UrlProblem::MissingHostname))
    } else if url_port(s) is None {
        Some(Err(UrlProblem::MissingPort))
    } else if first_path_segment(url_path(s)) is None {
        Some(Err(UrlProblem::MissingPassword))
    } else {
        Some(Ok((url_host(s).unwrap(), url_port(s).unwrap(), first_path_segment(url_path(s)))))
    }
}

/// Settles where to connect: a URL from the environment wins over the
/// target given as an argument, which wins over the default.
pub fn resolve_target(environment_url: Option<String>, argument: Option<ObsWebsocket>) -> (r: Result<
    ObsWebsocket,
    ObsCmdError,
>)
    ensures
        match environment_url {
            Some(u) => match environment_target(u@) {
                None => r == Err::<ObsWebsocket, ObsCmdError>(ObsCmdError::UrlParseError { url: u }),
                Some(Err(problem)) => r == Err::<ObsWebsocket, ObsCmdError>(
                    ObsCmdError::WebSocketUrlParseError { problem },
                ),
                Some(Ok(v)) => r matches Ok(t) && t@ == v,
            },
            None => match argument {
                Some(a) => r == Ok::<ObsWebsocket, ObsCmdError>(a),
                None => r matches Ok(t) && t@ == default_target(),
            },
        },
{
    match environment_url {
        Some(u) => {
            let parts = match parse_url(u.as_str()) {
                Some(p) => p,
                None => return Err(ObsCmdError::UrlParseError { url: u }),
            };
            let hostname = match parts.host {
                Some(h) => h,
                None => return Err(
                    ObsCmdError::WebSocketUrlParseError { problem: UrlProblem::MissingHostname },
                ),
            };
            let port = match parts.port {
                Some(p) => p,
                None => return Err(
                    ObsCmdError::WebSocketUrlParseError { problem: UrlProblem::MissingPort },
                ),
            };
            let password = match path_first_segment(parts.path.as_str()) {
                Some(p) => p,
                None => return Err(
                    ObsCmdError::WebSocketUrlParseError { problem: UrlProblem::MissingPassword },
                ),
            };
            Ok(ObsWebsocket { hostname, port, password: Some(password) })
        },
        None => match argument {
            Some(a) => Ok(a),
            None => Ok(
                ObsWebsocket {
                    hostname: String::from_str("localhost"),
                    port: 4455,
                    password: Some(String::from_str("secret")),
                },
            ),
        },
    }
}

} // verus!
