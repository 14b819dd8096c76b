use vstd::prelude::*;
use url::{ParseError, Url};

verus! {

#[verifier::external_type_specification]
#[verifier::external_body]
pub struct ExUrl(Url);

#[verifier::external_type_specification]
#[verifier::external_body]
pub struct ExParseError(ParseError);

/// ASCII lowercasing of one character: 'A'..='Z' map to 'a'..='z', all else stays.
pub open spec fn ascii_lower(c: char) -> char {
    if 'A' <= c && c <= 'Z' {
        ((c as u32 + 32) as u32) as char
    } else {
        c
    }
}

/// ASCII lowercasing of a whole string, character by character.
pub open spec fn ascii_lowercase(s: Seq<char>) -> Seq<char> {
    s.map_values(|c: char| ascii_lower(c))
}

/// Relies on str::to_ascii_lowercase: 'A'..='Z' become 'a'..='z', every other
/// character is kept as it is.
#[verifier::external_body]
fn to_ascii_lowercase(s: &str) -> (r: String)
    ensures
        r@ == ascii_lowercase(s@),
{
    s.to_ascii_lowercase()
}

pub open spec fn is_lower_letter(c: char) -> bool {
    'a' <= c && c <= 'z'
}

/// A host name of lowercase letters in runs, the runs parted by single '-' or
/// '.' characters; it starts and ends with a letter.
pub open spec fn is_plain_host(h: Seq<char>) -> bool
    decreases h.len(),
{
    if h.len() == 0 || !is_lower_letter(h[0]) {
        false
    } else if h.len() == 1 {
        true
    } else if is_lower_letter(h[1]) {
        is_plain_host(h.drop_first())
    } else {
        (h[1] == '-' || h[1] == '.') && is_plain_host(h.subrange(2, h.len() as int))
    }
}

/// A path of one segment: '/' followed by one or more lowercase letters.
pub open spec fn is_plain_path(p: Seq<char>) -> bool {
    &&& p.len() >= 2
    &&& p[0] == '/'
    &&& forall|i: int| 1 <= i < p.len() ==> is_lower_letter(#[trigger] p[i])
}

/// An https address made of a plain host and a plain path, and nothing else.
pub open spec fn is_plain_https_url(s: Seq<char>) -> bool {
    exists|h: Seq<char>, p: Seq<char>|
        is_plain_host(h) && is_plain_path(p) && s == "https://"@ + h + p
}

/// The serialization of a URL, as `Url::as_str` returns it.
pub uninterp spec fn url_text(u: Url) -> Seq<char>;

/// Relies on url::Url::parse: an https address of modest length whose host is
/// made of lowercase letter runs joined by single '-' or '.' and whose path is
/// one segment of lowercase letters is a valid URL already in serialized form,
/// so parsing it succeeds and the URL's text is the input.
#[verifier::external_body]
fn parse_url(s: &str) -> (r: Result<Url, ParseError>)
    ensures
        is_plain_https_url(s@) && s@.len() <= 1000 ==> r is Ok && url_text(r->Ok_0) == s@,
{
    Url::parse(s)
}

/// Relies on url::Url::as_str: the serialization of the URL.
#[verifier::external_body]
pub fn url_as_str(u: &Url) -> (r: &str)
    ensures
        r@ == url_text(*u),
{
    u.as_str()
}

/// The API entrypoint of an environment whose API lives on `host`.
pub open spec fn entrypoint_of(host: Seq<char>) -> Seq<char> {
    "https://"@ + host + "/api"@
}

/// The entrypoint text of a plain host is a plain https address.
proof fn lemma_entrypoint_plain(host: Seq<char>)
    requires
        is_plain_host(host),
    ensures
        is_plain_https_url(entrypoint_of(host)),
{
    let p = "/api"@;
    reveal_strlit("/api");
    assert(is_plain_path(p));
    assert(entrypoint_of(host) == "https://"@ + host + p);
}

/// The entrypoint text of the API served from `host`.
fn entrypoint_string(host: &str) -> (r: String)
    ensures
        r@ == entrypoint_of(host@),
{
    let mut text = String::from_str("https://");
    text.append(host);
    text.append("/api");
    text
}

/// Builds the entrypoint text and parses it; a plain host always parses.
fn parse_entrypoint(host: &str) -> (r: Url)
    requires
        is_plain_host(host@),
        host@.len() <= 100,
    ensures
        url_text(r) == entrypoint_of(host@),
{
    let text = entrypoint_string(host);
    proof {
        lemma_entrypoint_plain(host@);
        reveal_strlit("https://");
        reveal_strlit("/api");
        assert(text@.len() <= 1000);
    }
    match parse_url(text.as_str()) {
        Ok(u) => u,
        Err(_) => unreached(),
    }
}

/// A deployment environment: a stateless variant with a canonical lowercase
/// tag, a service host and an API entrypoint.
///
/// Each variant proves, where it is defined, that its API host is plain, so
/// that its entrypoint always parses.
pub trait AtlasEnv: Sized {
    /// The canonical tag of the variant.
    spec fn spec_tag() -> Seq<char>;

    /// The host of the variant's FPS service.
    spec fn spec_fps_host() -> Seq<char>;

    /// The host that serves the variant's API.
    spec fn spec_api_host() -> Seq<char>;

    proof fn lemma_api_host_plain()
        ensures
            is_plain_host(Self::spec_api_host()),
            Self::spec_api_host().len() <= 100,
    ;

    /// Matches `val` against the tag, ignoring ASCII case; nothing else matches.
    fn from_str(val: &str) -> (r: Option<Self>)
        ensures
            r is Some <==> ascii_lowercase(val@) == Self::spec_tag(),
    ;

    /// The canonical tag.
    fn tag(&self) -> (r: &str)
        ensures
            r@ == Self::spec_tag(),
    ;

    /// The hostname of the FPS for this environment.
    fn fps_host(&self) -> (r: &str)
        ensures
            r@ == Self::spec_fps_host(),
    ;

    /// The host of the API for this environment.
    fn api_host(&self) -> (r: &str)
        ensures
            r@ == Self::spec_api_host(),
    ;

    /// The entrypoint of the API as text; it always ends in the "/api" path.
    fn entrypoint_text(&self) -> (r: String)
        ensures
            r@ == entrypoint_of(Self::spec_api_host()),
    {
        entrypoint_string(self.api_host())
    }

    /// The entrypoint of the API: every request starts from its "/api" path.
    fn freedom_entrypoint(&self) -> (r: Url)
        ensures
            url_text(r) == entrypoint_of(Self::spec_api_host()),
    {
        let host = self.api_host();
        proof {
            Self::lemma_api_host_plain();
        }
        parse_entrypoint(host)
    }
}

/// Matches `val` against `tag` ignoring ASCII case.
fn matches_tag(val: &str, tag: &str) -> (r: bool)
    ensures
        r == (ascii_lowercase(val@) == tag@),
{
    let lower = to_ascii_lowercase(val);
    let expected = String::from_str(tag);
    lower == expected
}

/// The test environment.
#[derive(Debug, Clone, Copy, PartialEq, Eq, PartialOrd, Ord, Hash)]
pub struct Test;

impl AtlasEnv for Test {
    open spec fn spec_tag() -> Seq<char> {
        "test"@
    }

    open spec fn spec_fps_host() -> Seq<char> {
        "fps.test.atlasground.com"@
    }

    open spec fn spec_api_host() -> Seq<char> {
        "test-api.atlasground.com"@
    }

    proof fn lemma_api_host_plain() {
        reveal_strlit("test-api.atlasground.com");
        reveal_with_fuel(is_plain_host, 30);
    }

    fn from_str(val: &str) -> (r: Option<Self>) {
        if matches_tag(val, "test") {
            Some(Test)
        } else {
            None
        }
    }

    fn tag(&self) -> (r: &str) {
        "test"
    }

    fn fps_host(&self) -> (r: &str) {
        "fps.test.atlasground.com"
    }

    fn api_host(&self) -> (r: &str) {
        "test-api.atlasground.com"
    }
}

/// The production environment.
#[derive(Debug, Clone, Copy, PartialEq, Eq, PartialOrd, Ord, Hash)]
pub struct Prod;

impl AtlasEnv for Prod {
    open spec fn spec_tag() -> Seq<char> {
        "prod"@
    }

    open spec fn spec_fps_host() -> Seq<char> {
        "fps.atlasground.com"@
    }

    open spec fn spec_api_host() -> Seq<char> {
        "api.atlasground.com"@
    }

    proof fn lemma_api_host_plain() {
        reveal_strlit("api.atlasground.com");
        reveal_with_fuel(is_plain_host, 30);
    }

    fn from_str(val: &str) -> (r: Option<Self>) {
        if matches_tag(val, "prod") {
            Some(Prod)
        } else {
            None
        }
    }

    fn tag(&self) -> (r: &str) {
        "prod"
    }

    fn fps_host(&self) -> (r: &str) {
        "fps.atlasground.com"
    }

    fn api_host(&self) -> (r: &str) {
        "api.atlasground.com"
    }
}

/// The entrypoints of both built-in environments are plain https addresses,
/// which `Url::parse` always accepts, and both end in the "/api" path.
pub proof fn lemma_builtin_entrypoints()
    ensures
        is_plain_https_url(entrypoint_of(Test::spec_api_host())),
        is_plain_https_url(entrypoint_of(Prod::spec_api_host())),
        entrypoint_of(Test::spec_api_host()).subrange(
            entrypoint_of(Test::spec_api_host()).len() - 4,
            entrypoint_of(Test::spec_api_host()).len() as int,
        ) == "/api"@,
        entrypoint_of(Prod::spec_api_host()).subrange(
            entrypoint_of(Prod::spec_api_host()).len() - 4,
            entrypoint_of(Prod::spec_api_host()).len() as int,
        ) == "/api"@,
{
    Test::lemma_api_host_plain();
    Prod::lemma_api_host_plain();
    lemma_entrypoint_plain(Test::spec_api_host());
    lemma_entrypoint_plain(Prod::spec_api_host());
    reveal_strlit("/api");
    let t = entrypoint_of(Test::spec_api_host());
    let p = entrypoint_of(Prod::spec_api_host());
    assert(t.subrange(t.len() - 4, t.len() as int) =~= "/api"@);
    assert(p.subrange(p.len() - 4, p.len() as int) =~= "/api"@);
}

/// What a configuration reads of an environment variant.
pub struct EnvironmentView {
    pub tag: Seq<char>,
    pub fps_host: Seq<char>,
    pub api_host: Seq<char>,
}

/// The view of variant `E`.
pub open spec fn env_view_of<E: AtlasEnv>() -> EnvironmentView {
    EnvironmentView { tag: E::spec_tag(), fps_host: E::spec_fps_host(), api_host: E::spec_api_host() }
}

/// An environment variant held by value: its tag, its FPS host and its API
/// host, read once from the variant when it is chosen.
#[derive(Debug)]
pub struct Environment {
    tag: String,
    fps_host: String,
    api_host: String,
}

impl View for Environment {
    type V = EnvironmentView;

    closed spec fn view(&self) -> EnvironmentView {
        EnvironmentView { tag: self.tag@, fps_host: self.fps_host@, api_host: self.api_host@ }
    }
}

impl Clone for Environment {
    fn clone(&self) -> (r: Self)
        ensures
            r@ == self@,
    {
        proof {
            use_type_invariant(self);
        }
        Environment {
            tag: self.tag.clone(),
            fps_host: self.fps_host.clone(),
            api_host: self.api_host.clone(),
        }
    }
}

impl Environment {
    #[verifier::type_invariant]
    spec fn inv(&self) -> bool {
        &&& is_plain_host(self.api_host@)
        &&& self.api_host@.len() <= 100
    }

    /// Captures the variant `environment`.
    pub fn of<E: AtlasEnv>(environment: E) -> (r: Self)
        ensures
            r@ == env_view_of::<E>(),
    {
        proof {
            E::lemma_api_host_plain();
        }
        Environment {
            tag: String::from_str(environment.tag()),
            fps_host: String::from_str(environment.fps_host()),
            api_host: String::from_str(environment.api_host()),
        }
    }

    /// The canonical tag.
    pub fn tag(&self) -> (r: &str)
        ensures
            r@ == self@.tag,
    {
        self.tag.as_str()
    }

    /// The hostname of the FPS for this environment.
    pub fn fps_host(&self) -> (r: &str)
        ensures
            r@ == self@.fps_host,
    {
        self.fps_host.as_str()
    }

    /// The host of the API for this environment.
    pub fn api_host(&self) -> (r: &str)
        ensures
            r@ == self@.api_host,
    {
        self.api_host.as_str()
    }

    /// The entrypoint of the API as text, ending in the "/api" path.
    pub fn entrypoint_text(&self) -> (r: String)
        ensures
            r@ == entrypoint_of(self@.api_host),
    {
        entrypoint_string(self.api_host.as_str())
    }

    /// The entrypoint of the API, which always parses.
    pub fn freedom_entrypoint(&self) -> (r: Url)
        ensures
            url_text(r) == entrypoint_of(self@.api_host),
    {
        proof {
            use_type_invariant(self);
        }
        parse_entrypoint(self.api_host.as_str())
    }
}

} // verus!
