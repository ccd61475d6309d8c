//! The schema-registry protocol: the three requests a client sends and what
//! it reads out of each reply. Sending is left to the caller.

use crate::text::{decimal, decimal_text, opt_text};
use vstd::prelude::*;
use vstd::string::*;
use vstd::utf8::*;

verus! {

/// Most bytes that `username:password` may take. Their base64 text is a
/// third longer and has to fit into one allocation.
pub const MAX_CREDENTIAL_BYTES: usize = 0x3fff_ffff;

/// Where the registry is and how to authenticate against it.
#[derive(Debug, PartialEq, Eq)]
pub struct SchemaRegistryConfig {
    pub hostname: String,
    pub username: String,
    pub password: String,
}

pub struct SchemaRegistryConfigView {
    pub hostname: Seq<char>,
    pub username: Seq<char>,
    pub password: Seq<char>,
}

impl View for SchemaRegistryConfig {
    type V = SchemaRegistryConfigView;

    open spec fn view(&self) -> SchemaRegistryConfigView {
        SchemaRegistryConfigView {
            hostname: self.hostname@,
            username: self.username@,
            password: self.password@,
        }
    }
}

/// The text that is sent, base64-encoded, as HTTP Basic credentials.
pub open spec fn credentials(config: SchemaRegistryConfigView) -> Seq<char> {
    config.username + seq![':'] + config.password
}

impl SchemaRegistryConfigView {
    /// The credentials are short enough to be encoded.
    pub open spec fn credentials_fit(self) -> bool {
        encode_utf8(credentials(self)).len() <= MAX_CREDENTIAL_BYTES
    }
}

impl SchemaRegistryConfig {
    pub fn new(hostname: String, username: String, password: String) -> (out: Self)
        ensures
            out@ == (SchemaRegistryConfigView {
                hostname: hostname@,
                username: username@,
                password: password@,
            }),
    {
        SchemaRegistryConfig { hostname, username, password }
    }

    /// `username:password`.
    pub fn credentials(&self) -> (out: String)
        ensures
            out@ == credentials(self@),
    {
        proof {
            reveal_strlit(":");
        }
        let mut out = self.username.clone();
        out.append(":");
        out.append(self.password.as_str());
        assert(out@ =~= credentials(self@));
        out
    }

    /// Whether a client can be built on this configuration.
    pub fn credentials_fit(&self) -> (out: bool)
        ensures
            out == self@.credentials_fit(),
    {
        let text = self.credentials();
        text.as_str().as_bytes().len() <= MAX_CREDENTIAL_BYTES
    }

    pub fn duplicate(&self) -> (out: Self)
        ensures
            out@ == self@,
    {
        SchemaRegistryConfig {
            hostname: self.hostname.clone(),
            username: self.username.clone(),
            password: self.password.clone(),
        }
    }
}

/// The HTTP method of a request.
#[derive(Clone, Copy, Debug, PartialEq, Eq, Structural)]
pub enum Method {
    Get,
    Post,
}

/// The shape in which the body of a successful reply is to be decoded.
#[derive(Clone, Copy, Debug, PartialEq, Eq, Structural)]
pub enum ReplyShape {
    /// Not at all: the text as received.
    Text,
    /// `{"schema": ...}`.
    Schema,
    /// `[{"subject": ..., "version": ...}, ...]`.
    Versions,
    /// `{"id": ...}`.
    Id,
}

/// One request to the registry. `schema`, where present, is sent as the
/// JSON object `{"schema": ...}`.
#[derive(Debug, PartialEq, Eq)]
pub struct RegistryRequest {
    pub method: Method,
    pub url: String,
    pub authorization: String,
    pub schema: Option<String>,
    pub expects: ReplyShape,
}

pub struct RegistryRequestView {
    pub method: Method,
    pub url: Seq<char>,
    pub authorization: Seq<char>,
    pub schema: Option<Seq<char>>,
    pub expects: ReplyShape,
}

impl View for RegistryRequest {
    type V = RegistryRequestView;

    open spec fn view(&self) -> RegistryRequestView {
        RegistryRequestView {
            method: self.method,
            url: self.url@,
            authorization: self.authorization@,
            schema: opt_text(self.schema),
            expects: self.expects,
        }
    }
}

/// The standard base64 text of a byte string: alphabet `A-Z a-z 0-9 + /`,
/// padded with `=` to a multiple of four characters.
pub uninterp spec fn base64_encoding(input: Seq<u8>) -> Seq<char>;

/// Calls `base64::encode`, which encodes with the standard alphabet and
/// padding. The contract gives its result the name [`base64_encoding`] and
/// claims nothing else of it. `base64::encode` panics when the encoded length
/// cannot be allocated; the bound on the input keeps far below that.
#[verifier::external_body]
fn base64_text(input: &[u8]) -> (out: String)
    requires
        input@.len() <= MAX_CREDENTIAL_BYTES,
    ensures
        out@ == base64_encoding(input@),
{
    base64::encode(input)
}

/// The value of the `Authorization` header for credentials that are
/// already encoded.
pub fn basic_authorization(token: &str) -> (out: String)
    ensures
        out@ == "Basic "@ + token@,
{
    let mut out = String::from_str("Basic ");
    out.append(token);
    out
}

/// The value of the `Authorization` header.
pub open spec fn authorization(config: SchemaRegistryConfigView) -> Seq<char> {
    "Basic "@ + base64_encoding(encode_utf8(credentials(config)))
}

/// The address of `path` on the registry's host.
pub open spec fn registry_url(config: SchemaRegistryConfigView, path: Seq<char>) -> Seq<char> {
    "https://"@ + config.hostname + "/"@ + path
}

pub open spec fn schema_path(schema_id: u32) -> Seq<char> {
    "schemas/ids/"@ + decimal(schema_id as nat)
}

pub open spec fn versions_path(schema_id: u32) -> Seq<char> {
    "schemas/ids/"@ + decimal(schema_id as nat) + "/versions"@
}

pub open spec fn subject_path(subject: Seq<char>) -> Seq<char> {
    "subjects/"@ + subject + "/versions"@
}

/// The request for the body of a schema.
pub open spec fn schema_request(config: SchemaRegistryConfigView, schema_id: u32)
    -> RegistryRequestView {
    RegistryRequestView {
        method: Method::Get,
        url: registry_url(config, schema_path(schema_id)),
        authorization: authorization(config),
        schema: None,
        expects: ReplyShape::Schema,
    }
}

/// The request for the subjects and versions under which a schema is
/// registered.
pub open spec fn versions_request(config: SchemaRegistryConfigView, schema_id: u32)
    -> RegistryRequestView {
    RegistryRequestView {
        method: Method::Get,
        url: registry_url(config, versions_path(schema_id)),
        authorization: authorization(config),
        schema: None,
        expects: ReplyShape::Versions,
    }
}

/// The request that registers `schema` as a new version of `subject`.
pub open spec fn register_request(
    config: SchemaRegistryConfigView,
    subject: Seq<char>,
    schema: Seq<char>,
) -> RegistryRequestView {
    RegistryRequestView {
        method: Method::Post,
        url: registry_url(config, subject_path(subject)),
        authorization: authorization(config),
        schema: Some(schema),
        expects: ReplyShape::Id,
    }
}

/// One entry of the registry's answer to a versions request.
#[derive(Debug, PartialEq, Eq)]
pub struct SubjectVersion {
    pub subject: String,
    pub version: u32,
}

pub struct SubjectVersionView {
    pub subject: Seq<char>,
    pub version: u32,
}

impl View for SubjectVersion {
    type V = SubjectVersionView;

    open spec fn view(&self) -> SubjectVersionView {
        SubjectVersionView { subject: self.subject@, version: self.version }
    }
}

pub open spec fn versions_view(versions: Seq<SubjectVersion>) -> Seq<SubjectVersionView> {
    versions.map_values(|entry: SubjectVersion| entry@)
}

/// Entry `i` carries the greatest version, and no later entry carries the
/// same: of entries with equal versions the last one counts.
pub open spec fn is_latest(versions: Seq<SubjectVersionView>, i: int) -> bool {
    &&& 0 <= i < versions.len()
    &&& forall|j: int| 0 <= j < versions.len() ==> (#[trigger] versions[j]).version <= versions[i].version
    &&& forall|j: int| i < j < versions.len() ==> (#[trigger] versions[j]).version < versions[i].version
}

/// The subject of the latest entry, if there is any entry.
pub open spec fn latest_subject(versions: Seq<SubjectVersionView>) -> Option<Seq<char>> {
    if versions.len() == 0 {
        None
    } else {
        Some(versions[choose|i: int| is_latest(versions, i)].subject)
    }
}

/// At most one entry is the latest.
pub proof fn lemma_latest_unique(versions: Seq<SubjectVersionView>, i: int, j: int)
    requires
        is_latest(versions, i),
        is_latest(versions, j),
    ensures
        i == j,
{
    if i < j {
        assert(versions[j].version < versions[i].version);
        assert(versions[i].version <= versions[j].version);
    } else if j < i {
        assert(versions[i].version < versions[j].version);
        assert(versions[j].version <= versions[i].version);
    }
}

/// Picks the subject whose entry has the greatest version, the last such
/// entry where several have it.
pub fn pick_latest_subject(versions: &Vec<SubjectVersion>) -> (out: Option<String>)
    ensures
        opt_text(out) == latest_subject(versions_view(versions@)),
{
    let ghost view = versions_view(versions@);
    if versions.len() == 0 {
        return None;
    }
    let mut best: usize = 0;
    let mut i: usize = 1;
    while i < versions.len()
        invariant
            view == versions_view(versions@),
            0 <= best < i <= versions.len(),
            forall|j: int| 0 <= j < i ==> (#[trigger] view[j]).version <= view[best as int].version,
            forall|j: int| best < j < i ==> (#[trigger] view[j]).version < view[best as int].version,
        decreases versions.len() - i,
    {
        if versions[i].version >= versions[best].version {
            best = i;
        }
        i = i + 1;
    }
    proof {
        assert(is_latest(view, best as int));
        let chosen = choose|k: int| is_latest(view, k);
        lemma_latest_unique(view, chosen, best as int);
    }
    Some(versions[best].subject.clone())
}

/// The body of a reply, decoded in the shape that the request expects.
#[derive(Debug, PartialEq, Eq)]
pub enum ReplyBody {
    /// `{"schema": ...}`.
    Schema(String),
    /// `[{"subject": ..., "version": ...}, ...]`, in the order received.
    Versions(Vec<SubjectVersion>),
    /// `{"id": ...}`.
    Id(u32),
}

pub enum ReplyBodyView {
    Schema(Seq<char>),
    Versions(Seq<SubjectVersionView>),
    Id(u32),
}

impl View for ReplyBody {
    type V = ReplyBodyView;

    open spec fn view(&self) -> ReplyBodyView {
        match self {
            ReplyBody::Schema(schema) => ReplyBodyView::Schema(schema@),
            ReplyBody::Versions(versions) => ReplyBodyView::Versions(versions_view(versions@)),
            ReplyBody::Id(id) => ReplyBodyView::Id(*id),
        }
    }
}

pub open spec fn opt_body(body: Option<ReplyBody>) -> Option<ReplyBodyView> {
    match body {
        Some(body) => Some(body@),
        None => None,
    }
}

/// What came of a request.
#[derive(Debug, PartialEq, Eq)]
pub enum RegistryReply {
    /// The request could not be sent, or no response arrived.
    NoResponse,
    /// A response: its status, its body as text, and its body decoded in
    /// the shape that the request expects, where it has that shape.
    Response { status: u16, text: String, body: Option<ReplyBody> },
}

pub enum RegistryReplyView {
    NoResponse,
    Response { status: u16, text: Seq<char>, body: Option<ReplyBodyView> },
}

impl View for RegistryReply {
    type V = RegistryReplyView;

    open spec fn view(&self) -> RegistryReplyView {
        match self {
            RegistryReply::NoResponse => RegistryReplyView::NoResponse,
            RegistryReply::Response { status, text, body } => RegistryReplyView::Response {
                status: *status,
                text: text@,
                body: opt_body(*body),
            },
        }
    }
}

/// Why a request to the registry gave no result.
#[derive(Debug, PartialEq, Eq)]
pub enum RegistryError {
    /// No response arrived.
    NoResponse,
    /// The registry answered with a status outside 200..=299.
    Status { code: u16, body: String },
    /// The body of a successful reply has not the shape asked for.
    Malformed,
}

pub enum RegistryErrorView {
    NoResponse,
    Status { code: u16, body: Seq<char> },
    Malformed,
}

impl View for RegistryError {
    type V = RegistryErrorView;

    open spec fn view(&self) -> RegistryErrorView {
        match self {
            RegistryError::NoResponse => RegistryErrorView::NoResponse,
            RegistryError::Status { code, body } => RegistryErrorView::Status {
                code: *code,
                body: body@,
            },
            RegistryError::Malformed => RegistryErrorView::Malformed,
        }
    }
}

pub open spec fn is_success(status: u16) -> bool {
    200 <= status <= 299
}

/// The decoded body of a successful reply, or the error that the reply
/// amounts to whatever was asked.
pub open spec fn accepted(reply: RegistryReplyView) -> Result<ReplyBodyView, RegistryErrorView> {
    match reply {
        RegistryReplyView::NoResponse => Err(RegistryErrorView::NoResponse),
        RegistryReplyView::Response { status, text, body } => if !is_success(status) {
            Err(RegistryErrorView::Status { code: status, body: text })
        } else {
            match body {
                Some(body) => Ok(body),
                None => Err(RegistryErrorView::Malformed),
            }
        },
    }
}

/// What a reply to a schema request says.
pub open spec fn schema_of_reply(reply: RegistryReplyView) -> Result<Seq<char>, RegistryErrorView> {
    match accepted(reply) {
        Ok(ReplyBodyView::Schema(schema)) => Ok(schema),
        Ok(_) => Err(RegistryErrorView::Malformed),
        Err(error) => Err(error),
    }
}

/// What a reply to a versions request says: the latest subject, or none
/// where the schema is registered under no subject.
pub open spec fn subject_of_reply(reply: RegistryReplyView) -> Result<
    Option<Seq<char>>,
    RegistryErrorView,
> {
    match accepted(reply) {
        Ok(ReplyBodyView::Versions(versions)) => Ok(latest_subject(versions)),
        Ok(_) => Err(RegistryErrorView::Malformed),
        Err(error) => Err(error),
    }
}

/// What a reply to a registration says: the identifier given to the schema.
pub open spec fn id_of_reply(reply: RegistryReplyView) -> Result<u32, RegistryErrorView> {
    match accepted(reply) {
        Ok(ReplyBodyView::Id(id)) => Ok(id),
        Ok(_) => Err(RegistryErrorView::Malformed),
        Err(error) => Err(error),
    }
}

/// Takes the decoded body out of a successful reply.
pub fn accept(reply: RegistryReply) -> (out: Result<ReplyBody, RegistryError>)
    ensures
        match out {
            Ok(body) => accepted(reply@) == Ok::<ReplyBodyView, RegistryErrorView>(body@),
            Err(error) => accepted(reply@) == Err::<ReplyBodyView, RegistryErrorView>(error@),
        },
{
    match reply {
        RegistryReply::NoResponse => Err(RegistryError::NoResponse),
        RegistryReply::Response { status, text, body } => {
            if status < 200 || status > 299 {
                Err(RegistryError::Status { code: status, body: text })
            } else {
                match body {
                    Some(body) => Ok(body),
                    None => Err(RegistryError::Malformed),
                }
            }
        },
    }
}

/// A client of the schema registry. It holds the configuration, which never
/// changes, and computes the credentials anew for every request.
pub struct SchemaRegistry {
    config: SchemaRegistryConfig,
}

impl SchemaRegistry {
    #[verifier::type_invariant]
    spec fn credentials_fit(self) -> bool {
        self.config@.credentials_fit()
    }

    /// The configuration the client was built on.
    pub closed spec fn settings(&self) -> SchemaRegistryConfigView {
        self.config@
    }

    /// A client for the registry that `config` describes.
    pub fn new(config: SchemaRegistryConfig) -> (out: Self)
        requires
            config@.credentials_fit(),
        ensures
            out.settings() == config@,
    {
        SchemaRegistry { config }
    }

    /// A client for the registry that `config` describes, where its
    /// credentials are short enough to be encoded.
    pub fn try_new(config: SchemaRegistryConfig) -> (out: Option<Self>)
        ensures
            match out {
                Some(registry) => config@.credentials_fit() && registry.settings() == config@,
                None => !config@.credentials_fit(),
            },
    {
        if config.credentials_fit() {
            Some(SchemaRegistry::new(config))
        } else {
            None
        }
    }

    fn request(
        &self,
        method: Method,
        path: String,
        schema: Option<String>,
        expects: ReplyShape,
    ) -> (out: RegistryRequest)
        ensures
            out@ == (RegistryRequestView {
                method,
                url: registry_url(self.settings(), path@),
                authorization: authorization(self.settings()),
                schema: opt_text(schema),
                expects,
            }),
    {
        proof {
            use_type_invariant(self);
        }
        let mut url = String::from_str("https://");
        url.append(self.config.hostname.as_str());
        url.append("/");
        url.append(path.as_str());
        assert(url@ =~= registry_url(self.settings(), path@));
        let credentials = self.config.credentials();
        let token = base64_text(credentials.as_str().as_bytes());
        RegistryRequest {
            method,
            url,
            authorization: basic_authorization(token.as_str()),
            schema,
            expects,
        }
    }

    /// The authenticated `GET` of `path`, whose reply is to be decoded as
    /// `expects` says.
    pub fn registry_get(&self, path: String, expects: ReplyShape) -> (out: RegistryRequest)
        ensures
            out@ == (RegistryRequestView {
                method: Method::Get,
                url: registry_url(self.settings(), path@),
                authorization: authorization(self.settings()),
                schema: None,
                expects,
            }),
    {
        self.request(Method::Get, path, None, expects)
    }

    /// The request for the body of schema `schema_id`.
    pub fn schema_request(&self, schema_id: u32) -> (out: RegistryRequest)
        ensures
            out@ == schema_request(self.settings(), schema_id),
    {
        let mut path = String::from_str("schemas/ids/");
        path.append(decimal_text(schema_id).as_str());
        self.registry_get(path, ReplyShape::Schema)
    }

    /// The request for the subjects that hold schema `schema_id`.
    pub fn versions_request(&self, schema_id: u32) -> (out: RegistryRequest)
        ensures
            out@ == versions_request(self.settings(), schema_id),
    {
        let mut path = String::from_str("schemas/ids/");
        path.append(decimal_text(schema_id).as_str());
        path.append("/versions");
        self.registry_get(path, ReplyShape::Versions)
    }

    /// The request that registers `schema` under `subject`.
    pub fn register_request(&self, subject: &str, schema: String) -> (out: RegistryRequest)
        ensures
            out@ == register_request(self.settings(), subject@, schema@),
    {
        let mut path = String::from_str("subjects/");
        path.append(subject);
        path.append("/versions");
        self.request(Method::Post, path, Some(schema), ReplyShape::Id)
    }

    /// Reads the body of a schema out of the reply to a schema request.
    pub fn get_schema(&self, reply: RegistryReply) -> (out: Result<String, RegistryError>)
        ensures
            match out {
                Ok(schema) => schema_of_reply(reply@) == Ok::<Seq<char>, RegistryErrorView>(
                    schema@,
                ),
                Err(error) => schema_of_reply(reply@) == Err::<Seq<char>, RegistryErrorView>(
                    error@,
                ),
            },
    {
        match accept(reply) {
            Ok(ReplyBody::Schema(schema)) => Ok(schema),
            Ok(_) => Err(RegistryError::Malformed),
            Err(error) => Err(error),
        }
    }

    /// Reads the latest subject of a schema out of the reply to a versions
    /// request. Of several entries with the greatest version the last wins.
    pub fn get_subject_name(&self, reply: RegistryReply) -> (out: Result<
        Option<String>,
        RegistryError,
    >)
        ensures
            match out {
                Ok(subject) => subject_of_reply(reply@) == Ok::<
                    Option<Seq<char>>,
                    RegistryErrorView,
                >(opt_text(subject)),
                Err(error) => subject_of_reply(reply@) == Err::<
                    Option<Seq<char>>,
                    RegistryErrorView,
                >(error@),
            },
    {
        match accept(reply) {
            Ok(ReplyBody::Versions(versions)) => Ok(pick_latest_subject(&versions)),
            Ok(_) => Err(RegistryError::Malformed),
            Err(error) => Err(error),
        }
    }

    /// Reads the identifier of a newly registered schema out of the reply to
    /// a registration.
    pub fn register_schema(&self, reply: RegistryReply) -> (out: Result<u32, RegistryError>)
        ensures
            match out {
                Ok(id) => id_of_reply(reply@) == Ok::<u32, RegistryErrorView>(id),
                Err(error) => id_of_reply(reply@) == Err::<u32, RegistryErrorView>(error@),
            },
    {
        match accept(reply) {
            Ok(ReplyBody::Id(id)) => Ok(id),
            Ok(_) => Err(RegistryError::Malformed),
            Err(error) => Err(error),
        }
    }
}

} // verus!
