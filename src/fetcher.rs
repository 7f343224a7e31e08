//! Request planning and response classification for the registry's two hosts.
//!
//! The transport itself lives outside the library: it sends the request whose
//! URL is planned here and hands back a [`Response`], which is classified into
//! a decoded value, a confirmed absence, or an error that never holds the URL.
use vstd::prelude::*;
use crate::error::{DecodeError, FetchError, TransportKind};
use crate::json::{json_parse, Json, JsonDecode};
use crate::meta::{Meta, MetaBuilder, NpmCompMeta};
use crate::naming::{encode_name, encode_npm_comp_name};
use crate::package::{Package, PackageBuilder};
use crate::version::semver_text;
use crate::codec::{decode_url, url_canonical};
use crate::error::{fetch_error_message, lemma_fetch_error_message_omits_url};
use crate::text::{holds_char, holds_seq, lemma_holds_char_extend};

verus! {

/// Values that know the provider scope under which the npm-compatible surface
/// lists every package (`jsr` by default).
pub trait GetProviderScope {
    /// The provider scope.
    spec fn provider_scope_view(&self) -> Seq<char>;

    fn get_provider_scope(&self) -> (r: &str)
        ensures
            r@ == self.provider_scope_view();
}

/// Which of the two hosts a request goes to.
#[derive(Debug, Clone, Copy, PartialEq, Eq, Structural)]
pub enum HostSelector {
    Main,
    NpmComp,
}

/// The base URLs of the main registry and of its npm-compatible surface, each
/// an absolute URL in canonical form.
#[derive(Debug)]
pub struct Host {
    main: String,
    npm_comp: String,
}

impl Host {
    /// The main base URL.
    pub closed spec fn main_view(&self) -> Seq<char> {
        self.main@
    }

    /// The npm-compatible base URL.
    pub closed spec fn npm_comp_view(&self) -> Seq<char> {
        self.npm_comp@
    }

    /// Both base URLs are absolute, so each holds `:` after its scheme.
    #[verifier::type_invariant]
    closed spec fn inv(&self) -> bool {
        holds_char(self.main@, ':') && holds_char(self.npm_comp@, ':')
    }

    /// Both base URLs hold `:`, as every absolute URL does after its scheme.
    /// Every host that this library hands out is valid.
    pub open spec fn valid(&self) -> bool {
        holds_char(self.main_view(), ':') && holds_char(self.npm_comp_view(), ':')
    }

    /// Whether the host is valid; it always is.
    fn check_valid(&self) -> (r: bool)
        ensures
            r,
            self.valid(),
    {
        proof {
            use_type_invariant(self);
        }
        true
    }

    /// The public registry: `https://jsr.io/` and `https://npm.jsr.io/`.
    pub fn new() -> (r: Host)
        ensures
            r.main_view() == "https://jsr.io/"@,
            r.npm_comp_view() == "https://npm.jsr.io/"@,
            r.valid(),
    {
        let main = String::from_str("https://jsr.io/");
        let npm_comp = String::from_str("https://npm.jsr.io/");
        proof {
            reveal_strlit("https://jsr.io/");
            reveal_strlit("https://npm.jsr.io/");
            assert(main@[5] == ':');
            assert(npm_comp@[5] == ':');
        }
        Host { main, npm_comp }
    }

    /// The same hosts with another main base URL; `None` where `value` is no
    /// absolute URL. The URL is kept in canonical form.
    pub fn set_main(self, value: &str) -> (r: Option<Host>)
        ensures
            r is Some == (url_canonical(value@) is Some),
            r matches Some(h) ==> url_canonical(value@) == Some(h.main_view())
                && h.npm_comp_view() == self.npm_comp_view() && h.valid(),
    {
        proof {
            use_type_invariant(&self);
        }
        match decode_url(value) {
            Some(main) => Some(Host { main, npm_comp: self.npm_comp }),
            None => None,
        }
    }

    /// The same hosts with another npm-compatible base URL; `None` where
    /// `value` is no absolute URL. The URL is kept in canonical form.
    pub fn set_npm_comp(self, value: &str) -> (r: Option<Host>)
        ensures
            r is Some == (url_canonical(value@) is Some),
            r matches Some(h) ==> url_canonical(value@) == Some(h.npm_comp_view())
                && h.main_view() == self.main_view() && h.valid(),
    {
        proof {
            use_type_invariant(&self);
        }
        match decode_url(value) {
            Some(npm_comp) => Some(Host { main: self.main, npm_comp }),
            None => None,
        }
    }

    /// The base URL that `sel` picks.
    pub fn base(&self, sel: HostSelector) -> (r: &str)
        ensures
            r@ == (match sel {
                HostSelector::Main => self.main_view(),
                HostSelector::NpmComp => self.npm_comp_view(),
            }),
    {
        match sel {
            HostSelector::Main => self.main.as_str(),
            HostSelector::NpmComp => self.npm_comp.as_str(),
        }
    }
}

impl Clone for Host {
    fn clone(&self) -> (r: Host)
        ensures
            r.main_view() == self.main_view(),
            r.npm_comp_view() == self.npm_comp_view(),
            r.valid(),
    {
        proof {
            use_type_invariant(self);
        }
        Host { main: self.main.clone(), npm_comp: self.npm_comp.clone() }
    }
}

impl Default for Host {
    /// The public registry hosts.
    fn default() -> (r: Host)
        ensures
            r.main_view() == "https://jsr.io/"@,
            r.npm_comp_view() == "https://npm.jsr.io/"@,
            r.valid(),
    {
        Host::new()
    }
}

/// The configuration of a [`Fetcher`] before it is built.
#[derive(Debug, Clone)]
pub struct FetcherBuilder {
    pub host: Host,
    /// The provider scope of the npm-compatible surface; not a package scope.
    pub provider_scope: String,
}

impl FetcherBuilder {
    /// The public registry hosts and the provider scope `jsr`.
    pub fn new() -> (r: FetcherBuilder)
        ensures
            r.host.main_view() == "https://jsr.io/"@,
            r.host.npm_comp_view() == "https://npm.jsr.io/"@,
            r.provider_scope@ == "jsr"@,
    {
        FetcherBuilder { host: Host::new(), provider_scope: String::from_str("jsr") }
    }

    /// The same configuration with other hosts.
    pub fn set_host(self, value: &Host) -> (r: FetcherBuilder)
        ensures
            r.host.main_view() == value.main_view(),
            r.host.npm_comp_view() == value.npm_comp_view(),
            r.provider_scope@ == self.provider_scope@,
    {
        let host = value.clone();
        FetcherBuilder { host, provider_scope: self.provider_scope }
    }

    /// The same configuration with another provider scope.
    pub fn set_provider_scope(self, value: &str) -> (r: FetcherBuilder)
        ensures
            r.host.main_view() == self.host.main_view(),
            r.host.npm_comp_view() == self.host.npm_comp_view(),
            r.provider_scope@ == value@,
    {
        FetcherBuilder { host: self.host, provider_scope: value.to_owned() }
    }
}

impl Default for FetcherBuilder {
    /// The public registry hosts and the provider scope `jsr`.
    fn default() -> (r: FetcherBuilder)
        ensures
            r.host.main_view() == "https://jsr.io/"@,
            r.host.npm_comp_view() == "https://npm.jsr.io/"@,
            r.provider_scope@ == "jsr"@,
    {
        FetcherBuilder::new()
    }
}

impl GetProviderScope for FetcherBuilder {
    open spec fn provider_scope_view(&self) -> Seq<char> {
        self.provider_scope@
    }

    fn get_provider_scope(&self) -> (r: &str) {
        self.provider_scope.as_str()
    }
}

/// What the transport hands back for one request.
#[derive(Debug)]
pub enum Response {
    /// The request could not be sent or no answer came.
    Failed(TransportKind),
    /// An answer came with `status`; `body` is its text, or why it could not
    /// be read. The body matters only for a success status.
    Answered { status: u16, body: Result<String, TransportKind> },
}

/// Whether a status is a success (2xx).
pub open spec fn success_status(status: u16) -> bool {
    200 <= status <= 299
}

/// Whether the transport should read the body of an answer with `status`.
pub fn wants_body(status: u16) -> (r: bool)
    ensures
        r == success_status(status),
{
    200 <= status && status <= 299
}

/// The outcome of one fetch, stated over views: a decoded value, a confirmed
/// absence, or an error.
pub enum Outcome<V> {
    Present(V),
    Absent,
    Transport(TransportKind),
    Http(u16),
    NotJson,
    Mismatch,
}

/// How a response is classified: a transport failure is `Transport`; 404 is a
/// confirmed absence; any other status outside 2xx is `Http`; a success whose
/// body cannot be read is `Transport`, one that is not JSON is `NotJson`, and
/// one whose JSON does not have the shape of `T` is `Mismatch`.
pub open spec fn classify_spec<T: JsonDecode>(response: Response) -> Outcome<<T as View>::V> {
    match response {
        Response::Failed(k) => Outcome::Transport(k),
        Response::Answered { status, body } => if status == 404 {
            Outcome::Absent
        } else if !success_status(status) {
            Outcome::Http(status)
        } else {
            match body {
                Err(k) => Outcome::Transport(k),
                Ok(text) => match json_parse(text@) {
                    None => Outcome::NotJson,
                    Some(j) => match T::decoded(j) {
                        Some(v) => Outcome::Present(v),
                        None => Outcome::Mismatch,
                    },
                },
            }
        },
    }
}

/// The outcome that an exec result stands for.
pub open spec fn outcome_of<T: View>(r: Result<Option<T>, FetchError>) -> Outcome<<T as View>::V> {
    match r {
        Ok(Some(v)) => Outcome::Present(v@),
        Ok(None) => Outcome::Absent,
        Err(FetchError::Transport(k)) => Outcome::Transport(k),
        Err(FetchError::Http(s)) => Outcome::Http(s),
        Err(FetchError::Decode(DecodeError::NotJson)) => Outcome::NotJson,
        Err(FetchError::Decode(DecodeError::Mismatch(_))) => Outcome::Mismatch,
    }
}

/// Classifies one response and, on success, decodes its body as `T`.
pub fn classify<T: JsonDecode>(response: &Response) -> (r: Result<Option<T>, FetchError>)
    ensures
        outcome_of(r) == classify_spec::<T>(*response),
{
    match response {
        Response::Failed(k) => Err(FetchError::Transport(*k)),
        Response::Answered { status, body } => {
            if *status == 404 {
                return Ok(None);
            }
            if !wants_body(*status) {
                return Err(FetchError::Http(*status));
            }
            match body {
                Err(k) => Err(FetchError::Transport(*k)),
                Ok(text) => match Json::parse(text.as_str()) {
                    None => Err(FetchError::Decode(DecodeError::NotJson)),
                    Some(j) => match T::from_json(&j) {
                        Ok(v) => Ok(Some(v)),
                        Err(e) => Err(FetchError::Decode(e)),
                    },
                },
            }
        },
    }
}

/// `@<scope>/<name>/meta.json`
pub open spec fn meta_path(scope: Seq<char>, name: Seq<char>) -> Seq<char> {
    "@"@ + scope + "/"@ + name + "/meta.json"@
}

/// `@<scope>/<name>/<version>_meta.json`
pub open spec fn package_path(scope: Seq<char>, name: Seq<char>, version: Seq<char>) -> Seq<char> {
    "@"@ + scope + "/"@ + name + "/"@ + version + "_meta.json"@
}

/// A fetcher's fixed configuration: the two hosts and the provider scope.
#[derive(Debug, Clone)]
pub struct Fetcher {
    pub host: Host,
    /// The provider scope of the npm-compatible surface; not a package scope.
    pub provider_scope: String,
}

impl Default for Fetcher {
    /// A fetcher for the public registry with the provider scope `jsr`.
    fn default() -> (r: Fetcher)
        ensures
            r.host.main_view() == "https://jsr.io/"@,
            r.host.npm_comp_view() == "https://npm.jsr.io/"@,
            r.host.valid(),
            r.provider_scope@ == "jsr"@,
    {
        Fetcher::new(FetcherBuilder::new())
    }
}

impl GetProviderScope for Fetcher {
    open spec fn provider_scope_view(&self) -> Seq<char> {
        self.provider_scope@
    }

    fn get_provider_scope(&self) -> (r: &str) {
        self.provider_scope.as_str()
    }
}

impl Fetcher {
    /// A fetcher with the builder's configuration.
    pub fn new(builder: FetcherBuilder) -> (r: Fetcher)
        ensures
            r.host.valid(),
            r.host.main_view() == builder.host.main_view(),
            r.host.npm_comp_view() == builder.host.npm_comp_view(),
            r.provider_scope@ == builder.provider_scope@,
    {
        builder.host.check_valid();
        Fetcher { host: builder.host, provider_scope: builder.provider_scope }
    }

    /// The URL of a package's metadata, on the main host.
    pub fn meta_url(&self, value: &MetaBuilder) -> (r: String)
        ensures
            r@ == self.host.main_view() + meta_path(value.scope@, value.name@),
    {
        let mut r = self.host.base(HostSelector::Main).to_owned();
        r.append("@");
        r.append(value.scope.as_str());
        r.append("/");
        r.append(value.name.as_str());
        r.append("/meta.json");
        assert(r@ =~= self.host.main_view() + meta_path(value.scope@, value.name@));
        r
    }

    /// The URL of one version's record, on the main host.
    pub fn package_url(&self, value: &PackageBuilder) -> (r: String)
        ensures
            r@ == self.host.main_view() + package_path(value.scope@, value.name@, semver_text(value.version@)),
    {
        let mut r = self.host.base(HostSelector::Main).to_owned();
        r.append("@");
        r.append(value.scope.as_str());
        r.append("/");
        r.append(value.name.as_str());
        r.append("/");
        let v = value.version.to_text();
        r.append(v.as_str());
        r.append("_meta.json");
        assert(r@ =~= self.host.main_view() + package_path(value.scope@, value.name@, semver_text(value.version@)));
        r
    }

    /// The URL of a package's npm-compatible metadata, on the npm-compatible
    /// host: `@<provider>/<scope>__<name>`.
    pub fn npm_comp_meta_url(&self, value: &MetaBuilder) -> (r: String)
        ensures
            r@ == self.host.npm_comp_view() + encode_npm_comp_name(self.provider_scope@, value.scope@, value.name@),
    {
        let mut r = self.host.base(HostSelector::NpmComp).to_owned();
        let name = encode_name(self.provider_scope.as_str(), value.scope.as_str(), value.name.as_str());
        r.append(name.as_str());
        r
    }

    /// Classifies the response to a metadata request.
    pub fn read_meta(&self, response: &Response) -> (r: Result<Option<Meta>, FetchError>)
        ensures
            outcome_of(r) == classify_spec::<Meta>(*response),
    {
        classify::<Meta>(response)
    }

    /// Classifies the response to a version record request.
    pub fn read_package(&self, response: &Response) -> (r: Result<Option<Package>, FetchError>)
        ensures
            outcome_of(r) == classify_spec::<Package>(*response),
    {
        classify::<Package>(response)
    }

    /// Classifies the response to an npm-compatible metadata request.
    pub fn read_npm_comp_meta(&self, response: &Response) -> (r: Result<Option<NpmCompMeta>, FetchError>)
        ensures
            outcome_of(r) == classify_spec::<NpmCompMeta>(*response),
    {
        classify::<NpmCompMeta>(response)
    }
}

/// A rendered fetch error holds neither host of a fetcher nor the URL of any
/// request that the fetcher plans. Every fetcher's hosts are valid.
pub proof fn lemma_fetch_error_omits_request_urls(f: &Fetcher, meta: &MetaBuilder, package: &PackageBuilder, e: FetchError)
    requires
        f.host.valid(),
    ensures
        !holds_seq(fetch_error_message(e), f.host.main_view()),
        !holds_seq(fetch_error_message(e), f.host.npm_comp_view()),
        !holds_seq(fetch_error_message(e), f.host.main_view() + meta_path(meta.scope@, meta.name@)),
        !holds_seq(fetch_error_message(e), f.host.main_view()
            + package_path(package.scope@, package.name@, semver_text(package.version@))),
        !holds_seq(fetch_error_message(e), f.host.npm_comp_view()
            + encode_npm_comp_name(f.provider_scope@, meta.scope@, meta.name@)),
{
    let main = f.host.main_view();
    let npm = f.host.npm_comp_view();
    lemma_holds_char_extend(main, meta_path(meta.scope@, meta.name@), ':');
    lemma_holds_char_extend(main, package_path(package.scope@, package.name@, semver_text(package.version@)), ':');
    lemma_holds_char_extend(npm, encode_npm_comp_name(f.provider_scope@, meta.scope@, meta.name@), ':');
    lemma_fetch_error_message_omits_url(e, main);
    lemma_fetch_error_message_omits_url(e, npm);
    lemma_fetch_error_message_omits_url(e, main + meta_path(meta.scope@, meta.name@));
    lemma_fetch_error_message_omits_url(e, main + package_path(package.scope@, package.name@, semver_text(package.version@)));
    lemma_fetch_error_message_omits_url(e, npm + encode_npm_comp_name(f.provider_scope@, meta.scope@, meta.name@));
}

/// A sequence of fetches run one after another. Each answer is classified as
/// it comes: a present value is kept, an absence is dropped, and the first
/// error ends the batch, so that no later request is made.
#[derive(Debug)]
pub struct Batch<T> {
    urls: Vec<String>,
    next: usize,
    results: Vec<T>,
    failed: Option<FetchError>,
}

impl<T: JsonDecode> Batch<T> {
    /// The URLs to fetch, in order.
    pub closed spec fn urls(&self) -> Seq<Seq<char>> {
        self.urls@.map_values(|u: String| u@)
    }

    /// How many answers were received.
    pub closed spec fn position(&self) -> int {
        self.next as int
    }

    /// The values kept so far, in order.
    pub closed spec fn kept(&self) -> Seq<<T as View>::V> {
        self.results@.map_values(|v: T| v@)
    }

    /// The outcome of the error that ended the batch, if any.
    pub closed spec fn failure(&self) -> Option<Outcome<<T as View>::V>> {
        match self.failed {
            Some(e) => Some(outcome_of::<T>(Err(e))),
            None => None,
        }
    }

    /// The batch is well formed: it never got more answers than URLs.
    pub closed spec fn wf(&self) -> bool {
        self.next <= self.urls.len()
    }

    /// Whether more requests are to be made.
    pub open spec fn in_progress(&self) -> bool {
        self.failure() is None && self.position() < self.urls().len()
    }

    /// A batch over `urls` that has made no request yet.
    pub fn new(urls: Vec<String>) -> (r: Batch<T>)
        ensures
            r.wf(),
            r.urls() == urls@.map_values(|u: String| u@),
            r.position() == 0,
            r.kept().len() == 0,
            r.failure() is None,
    {
        Batch { urls, next: 0, results: Vec::new(), failed: None }
    }

    /// The URL of the next request; `None` once the batch is over.
    pub fn next_url(&self) -> (r: Option<&String>)
        requires
            self.wf(),
        ensures
            r is Some == self.in_progress(),
            r matches Some(u) ==> u@ == self.urls()[self.position()],
    {
        if self.failed.is_none() && self.next < self.urls.len() {
            Some(&self.urls[self.next])
        } else {
            None
        }
    }

    /// Takes the answer to the request that [`Self::next_url`] gave.
    pub fn receive(&mut self, response: &Response)
        requires
            old(self).wf(),
            old(self).in_progress(),
        ensures
            final(self).wf(),
            final(self).urls() == old(self).urls(),
            final(self).position() == old(self).position() + 1,
            match classify_spec::<T>(*response) {
                Outcome::Present(v) => final(self).kept() == old(self).kept().push(v) && final(self).failure() is None,
                Outcome::Absent => final(self).kept() == old(self).kept() && final(self).failure() is None,
                o => final(self).kept() == old(self).kept() && final(self).failure() == Some(o),
            },
    {
        let r = classify::<T>(response);
        let ghost before = self.results@.map_values(|v: T| v@);
        match r {
            Ok(Some(v)) => {
                self.results.push(v);
                assert(self.results@.map_values(|v: T| v@) =~= before.push(v@));
            },
            Ok(None) => {},
            Err(e) => {
                self.failed = Some(e);
            },
        }
        self.next = self.next + 1;
    }

    /// What the batch gives: the first error if there was one, else the kept
    /// values in order.
    pub fn finish(self) -> (r: Result<Vec<T>, FetchError>)
        ensures
            self.failure() is Some ==> r is Err && Some(outcome_of::<T>(Err(r->Err_0))) == self.failure(),
            self.failure() is None ==> r is Ok && r->Ok_0@.map_values(|v: T| v@) == self.kept(),
    {
        match self.failed {
            Some(e) => Err(e),
            None => Ok(self.results),
        }
    }
}

impl Fetcher {
    /// A batch over the metadata of `values`, in order.
    pub fn meta_batch(&self, values: &Vec<MetaBuilder>) -> (r: Batch<Meta>)
        ensures
            r.wf(),
            r.urls().len() == values@.len(),
            forall|i: int| 0 <= i < values@.len() ==> r.urls()[i] == self.host.main_view() + meta_path(values@[i].scope@, values@[i].name@),
            r.position() == 0,
            r.kept().len() == 0,
            r.failure() is None,
    {
        let mut urls: Vec<String> = Vec::new();
        let mut i: usize = 0;
        while i < values.len()
            invariant
                i <= values.len(),
                urls.len() == i,
                forall|k: int| 0 <= k < i ==> (#[trigger] urls@[k])@ == self.host.main_view() + meta_path(values@[k].scope@, values@[k].name@),
            decreases values.len() - i,
        {
            urls.push(self.meta_url(&values[i]));
            i += 1;
        }
        Batch::new(urls)
    }

    /// A batch over the version records of `values`, in order.
    pub fn package_batch(&self, values: &Vec<PackageBuilder>) -> (r: Batch<Package>)
        ensures
            r.wf(),
            r.urls().len() == values@.len(),
            forall|i: int| 0 <= i < values@.len() ==> r.urls()[i] == self.host.main_view()
                + package_path(values@[i].scope@, values@[i].name@, semver_text(values@[i].version@)),
            r.position() == 0,
            r.kept().len() == 0,
            r.failure() is None,
    {
        let mut urls: Vec<String> = Vec::new();
        let mut i: usize = 0;
        while i < values.len()
            invariant
                i <= values.len(),
                urls.len() == i,
                forall|k: int| 0 <= k < i ==> (#[trigger] urls@[k])@ == self.host.main_view()
                    + package_path(values@[k].scope@, values@[k].name@, semver_text(values@[k].version@)),
            decreases values.len() - i,
        {
            urls.push(self.package_url(&values[i]));
            i += 1;
        }
        Batch::new(urls)
    }

    /// A batch over the npm-compatible metadata of `values`, in order.
    pub fn npm_comp_meta_batch(&self, values: &Vec<MetaBuilder>) -> (r: Batch<NpmCompMeta>)
        ensures
            r.wf(),
            r.urls().len() == values@.len(),
            forall|i: int| 0 <= i < values@.len() ==> r.urls()[i] == self.host.npm_comp_view()
                + encode_npm_comp_name(self.provider_scope@, values@[i].scope@, values@[i].name@),
            r.position() == 0,
            r.kept().len() == 0,
            r.failure() is None,
    {
        let mut urls: Vec<String> = Vec::new();
        let mut i: usize = 0;
        while i < values.len()
            invariant
                i <= values.len(),
                urls.len() == i,
                forall|k: int| 0 <= k < i ==> (#[trigger] urls@[k])@ == self.host.npm_comp_view()
                    + encode_npm_comp_name(self.provider_scope@, values@[k].scope@, values@[k].name@),
            decreases values.len() - i,
        {
            urls.push(self.npm_comp_meta_url(&values[i]));
            i += 1;
        }
        Batch::new(urls)
    }
}

} // verus!
