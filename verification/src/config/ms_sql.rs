//! Configuration of the SQL Server probe.
//!
//! Every `from_yaml` reads one section of a document. What it returns is
//! fixed by a specification function over the model of the document, named
//! after the section: `authentication_of`, `connection_of` and so on.

use crate::config::yaml::{
    as_path, clone_path, get, get_bool, get_pathbuf, get_string, get_string_vector, get_u16,
    get_u32, is_badvalue, as_vec, borrowed_path_text, node_of, nodes_of, path_text, texts_of, Node,
};
use crate::config::{failed, ConfigError, ConfigErrorView};
use crate::text::{is_text, lemma_lower_is_idempotent, lower, to_ascii_lowercase};
use std::path::{Path, PathBuf};
use vstd::prelude::*;
use vstd::std_specs::convert::TryFromSpecImpl;
use yaml_rust::Yaml;

verus! {

/// The text of an optional string.
pub open spec fn opt_text(s: Option<String>) -> Option<Seq<char>> {
    match s {
        Some(s) => Some(s@),
        None => None,
    }
}

/// The text of an optional path.
pub open spec fn opt_path_text(p: Option<PathBuf>) -> Option<Seq<char>> {
    match p {
        Some(p) => Some(path_text(p)),
        None => None,
    }
}

/// The value that an optional reference points at.
pub open spec fn opt_ref<T>(r: Option<&T>) -> Option<T> {
    match r {
        Some(v) => Some(*v),
        None => None,
    }
}

/// The value of an option, or `default` where it is `None`.
pub open spec fn or_default<T>(value: Option<T>, default: T) -> T {
    match value {
        Some(v) => v,
        None => default,
    }
}

/// The outcome of reading a section, with the section as its model.
pub open spec fn read<T: View>(r: Result<T, ConfigError>) -> Result<T::V, ConfigErrorView> {
    match r {
        Ok(v) => Ok(v@),
        Err(e) => Err(e@),
    }
}

/// The outcome of reading an optional section, with the section as its model.
pub open spec fn read_opt<T: View>(r: Result<Option<T>, ConfigError>) -> Result<
    Option<T::V>,
    ConfigErrorView,
> {
    match r {
        Ok(Some(v)) => Ok(Some(v@)),
        Ok(None) => Ok(None),
        Err(e) => Err(e@),
    }
}

/// How the probe logs in.
#[derive(PartialEq, Eq, Debug, Clone, Copy, Structural)]
pub enum AuthType {
    /// A login of the database server itself.
    SqlServer,
    /// A Windows account given by name.
    Windows,
    /// The account the probe runs under.
    Integrated,
    /// An access token.
    Token,
}

/// The authentication type that a word names, without regard to case. A
/// word that names none is an error that holds the word as it was given.
///
/// `Windows` and `Integrated` belong to hosts that log in through the
/// operating system; no word selects them here.
pub open spec fn auth_type_of(word: Seq<char>) -> Result<AuthType, ConfigErrorView> {
    if lower(word) == "sql_server"@ {
        Ok(AuthType::SqlServer)
    } else if lower(word) == "token"@ {
        Ok(AuthType::Token)
    } else {
        Err(ConfigErrorView::UnsupportedAuthType(word))
    }
}

impl<'a> TryFrom<&'a str> for AuthType {
    type Error = ConfigError;

    fn try_from(val: &'a str) -> (r: Result<Self, ConfigError>)
        ensures
            failed(r) == auth_type_of(val@),
    {
        let word = to_ascii_lowercase(val);
        if is_text(&word, "sql_server") {
            Ok(AuthType::SqlServer)
        } else if is_text(&word, "token") {
            Ok(AuthType::Token)
        } else {
            Err(ConfigError::UnsupportedAuthType(val.to_owned()))
        }
    }
}

impl<'a> TryFromSpecImpl<&'a str> for AuthType {
    /// The error holds a text, which no value written here can stand for:
    /// what `try_from` returns is stated by its own `ensures`.
    open spec fn obeys_try_from_spec() -> bool {
        false
    }

    open spec fn try_from_spec(val: &'a str) -> Result<Self, ConfigError> {
        match auth_type_of(val@) {
            Ok(auth_type) => Ok(auth_type),
            Err(_) => Err(ConfigError::UnsupportedAuthType(arbitrary())),
        }
    }
}

/// How the probe reaches the server.
#[derive(PartialEq, Eq, Debug, Clone, Copy, Structural)]
pub enum Mode {
    Port,
    Socket,
    Special,
}

/// The mode that a word names, without regard to case.
pub open spec fn mode_of_word(word: Seq<char>) -> Result<Mode, ConfigErrorView> {
    if lower(word) == "port"@ {
        Ok(Mode::Port)
    } else if lower(word) == "socket"@ {
        Ok(Mode::Socket)
    } else if lower(word) == "special"@ {
        Ok(Mode::Special)
    } else {
        Err(ConfigErrorView::UnsupportedMode)
    }
}

/// The mode that a section names under `mode`; `Port` where it names none.
pub open spec fn mode_of(node: Node) -> Result<Mode, ConfigErrorView> {
    mode_of_word(or_default(node.child("mode"@).text(), "port"@))
}

impl<'a> TryFrom<&'a str> for Mode {
    type Error = ConfigError;

    fn try_from(str: &'a str) -> (r: Result<Self, ConfigError>) {
        let word = to_ascii_lowercase(str);
        if is_text(&word, "port") {
            Ok(Mode::Port)
        } else if is_text(&word, "socket") {
            Ok(Mode::Socket)
        } else if is_text(&word, "special") {
            Ok(Mode::Special)
        } else {
            Err(ConfigError::UnsupportedMode)
        }
    }
}

impl<'a> TryFromSpecImpl<&'a str> for Mode {
    open spec fn obeys_try_from_spec() -> bool {
        true
    }

    open spec fn try_from_spec(str: &'a str) -> Result<Self, ConfigError> {
        match mode_of_word(str@) {
            Ok(mode) => Ok(mode),
            Err(_) => Err(ConfigError::UnsupportedMode),
        }
    }
}

impl Mode {
    pub fn from_yaml(yaml: &Yaml) -> (r: Result<Self, ConfigError>)
        ensures
            failed(r) == mode_of(node_of(*yaml)),
    {
        match get_string(yaml, "mode") {
            Some(word) => Mode::try_from(word.as_str()),
            None => Mode::try_from("port"),
        }
    }
}

/// The login of the probe.
#[derive(PartialEq, Debug)]
pub struct Authentication {
    pub username: String,
    pub password: Option<String>,
    pub auth_type: AuthType,
    pub access_token: Option<String>,
}

/// The model of an [`Authentication`].
pub struct AuthenticationView {
    pub username: Seq<char>,
    pub password: Option<Seq<char>>,
    pub auth_type: AuthType,
    pub access_token: Option<Seq<char>>,
}

impl View for Authentication {
    type V = AuthenticationView;

    open spec fn view(&self) -> AuthenticationView {
        AuthenticationView {
            username: self.username@,
            password: opt_text(self.password),
            auth_type: self.auth_type,
            access_token: opt_text(self.access_token),
        }
    }
}

/// The login that a section holds under `authentication`.
///
/// The user name is required. The type is `sql_server` where none is given.
pub open spec fn authentication_of(node: Node) -> Result<AuthenticationView, ConfigErrorView> {
    let auth = node.child("authentication"@);
    match auth.child("username"@).text() {
        None => Err(ConfigErrorView::BadUsername),
        Some(username) => match auth_type_of(or_default(auth.child("type"@).text(), "sql_server"@)) {
            Err(e) => Err(e),
            Ok(auth_type) => Ok(
                AuthenticationView {
                    username,
                    password: auth.child("password"@).text(),
                    auth_type,
                    access_token: auth.child("access_token"@).text(),
                },
            ),
        },
    }
}

/// A copy of an optional string.
fn clone_opt_string(s: &Option<String>) -> (r: Option<String>)
    ensures
        opt_text(r) == opt_text(*s),
{
    match s {
        Some(s) => Some(s.clone()),
        None => None,
    }
}

/// A copy of a list of names.
fn clone_names(names: &Vec<String>) -> (r: Vec<String>)
    ensures
        texts_of(r@) == texts_of(names@),
{
    let mut out: Vec<String> = Vec::new();
    let mut i: usize = 0;
    while i < names.len()
        invariant
            i <= names.len(),
            out@.len() == i,
            forall|j: int| 0 <= j < i ==> (#[trigger] out@[j])@ == names@[j]@,
        decreases names.len() - i,
    {
        out.push(names[i].clone());
        i += 1;
    }
    assert(texts_of(out@) =~= texts_of(names@));
    out
}

impl Clone for Authentication {
    fn clone(&self) -> (r: Self)
        ensures
            r@ == self@,
    {
        Authentication {
            username: self.username.clone(),
            password: clone_opt_string(&self.password),
            auth_type: self.auth_type,
            access_token: clone_opt_string(&self.access_token),
        }
    }
}

impl Default for Authentication {
    fn default() -> (r: Self)
        ensures
            r@ == (AuthenticationView {
                username: Seq::empty(),
                password: None,
                auth_type: AuthType::Integrated,
                access_token: None,
            }),
    {
        Authentication {
            username: String::new(),
            password: None,
            auth_type: AuthType::Integrated,
            access_token: None,
        }
    }
}

impl Authentication {
    pub fn from_yaml(yaml: &Yaml) -> (r: Result<Self, ConfigError>)
        ensures
            read(r) == authentication_of(node_of(*yaml)),
    {
        let auth = get(yaml, "authentication");
        let username = match get_string(auth, "username") {
            Some(username) => username,
            None => {
                return Err(ConfigError::BadUsername);
            },
        };
        let password = get_string(auth, "password");
        let auth_type = match get_string(auth, "type") {
            Some(word) => AuthType::try_from(word.as_str()),
            None => AuthType::try_from("sql_server"),
        };
        match auth_type {
            Err(e) => Err(e),
            Ok(auth_type) => Ok(
                Authentication {
                    username,
                    password,
                    auth_type,
                    access_token: get_string(auth, "access_token"),
                },
            ),
        }
    }

    pub fn username(&self) -> (r: &str)
        ensures
            r@ == self@.username,
    {
        self.username.as_str()
    }

    pub fn password(&self) -> (r: Option<&String>)
        ensures
            opt_ref(r) == self.password,
    {
        self.password.as_ref()
    }

    pub fn auth_type(&self) -> (r: &AuthType)
        ensures
            *r == self.auth_type,
    {
        &self.auth_type
    }

    pub fn access_token(&self) -> (r: Option<&String>)
        ensures
            opt_ref(r) == self.access_token,
    {
        self.access_token.as_ref()
    }
}

/// The certificates of an encrypted connection.
#[derive(PartialEq, Debug)]
pub struct ConnectionTls {
    pub ca: PathBuf,
    pub client_certificate: PathBuf,
}

/// The model of a [`ConnectionTls`].
pub struct ConnectionTlsView {
    pub ca: Seq<char>,
    pub client_certificate: Seq<char>,
}

impl View for ConnectionTls {
    type V = ConnectionTlsView;

    open spec fn view(&self) -> ConnectionTlsView {
        ConnectionTlsView {
            ca: path_text(self.ca),
            client_certificate: path_text(self.client_certificate),
        }
    }
}

/// The certificates that a section holds under `tls`, if it has that entry.
/// Both paths are required.
pub open spec fn tls_of(node: Node) -> Result<Option<ConnectionTlsView>, ConfigErrorView> {
    let tls = node.child("tls"@);
    if tls is BadValue {
        Ok(None)
    } else {
        match tls.child("ca"@).text() {
            None => Err(ConfigErrorView::BadCa),
            Some(ca) => match tls.child("client_certificate"@).text() {
                None => Err(ConfigErrorView::BadClientCertificate),
                Some(client_certificate) => Ok(Some(ConnectionTlsView { ca, client_certificate })),
            },
        }
    }
}

impl Clone for ConnectionTls {
    fn clone(&self) -> (r: Self)
        ensures
            r@ == self@,
    {
        ConnectionTls {
            ca: clone_path(&self.ca),
            client_certificate: clone_path(&self.client_certificate),
        }
    }
}

impl ConnectionTls {
    pub fn from_yaml(yaml: &Yaml) -> (r: Result<Option<Self>, ConfigError>)
        ensures
            read_opt(r) == tls_of(node_of(*yaml)),
    {
        let tls = get(yaml, "tls");
        if is_badvalue(tls) {
            return Ok(None);
        }
        let ca = match get_pathbuf(tls, "ca") {
            Some(ca) => ca,
            None => {
                return Err(ConfigError::BadCa);
            },
        };
        match get_pathbuf(tls, "client_certificate") {
            Some(client_certificate) => Ok(Some(ConnectionTls { ca, client_certificate })),
            None => Err(ConfigError::BadClientCertificate),
        }
    }

    pub fn ca(&self) -> (r: &Path)
        ensures
            borrowed_path_text(r) == self@.ca,
    {
        as_path(&self.ca)
    }

    pub fn client_certificate(&self) -> (r: &Path)
        ensures
            borrowed_path_text(r) == self@.client_certificate,
    {
        as_path(&self.client_certificate)
    }
}

/// Where and how the probe connects.
#[derive(PartialEq, Debug)]
pub struct Connection {
    pub hostname: String,
    pub fail_over_partner: Option<String>,
    pub port: u16,
    pub socket: Option<PathBuf>,
    pub tls: Option<ConnectionTls>,
    pub timeout: u32,
}

/// The model of a [`Connection`].
pub struct ConnectionView {
    pub hostname: Seq<char>,
    pub fail_over_partner: Option<Seq<char>>,
    pub port: u16,
    pub socket: Option<Seq<char>>,
    pub tls: Option<ConnectionTlsView>,
    pub timeout: u32,
}

/// The model of optional certificates.
pub open spec fn opt_tls_view(tls: Option<ConnectionTls>) -> Option<ConnectionTlsView> {
    match tls {
        Some(tls) => Some(tls@),
        None => None,
    }
}

impl View for Connection {
    type V = ConnectionView;

    open spec fn view(&self) -> ConnectionView {
        ConnectionView {
            hostname: self.hostname@,
            fail_over_partner: opt_text(self.fail_over_partner),
            port: self.port,
            socket: opt_path_text(self.socket),
            tls: opt_tls_view(self.tls),
            timeout: self.timeout,
        }
    }
}

/// The connection used where a document names none: `localhost`, port 1433,
/// a timeout of 5 seconds, no socket and no encryption.
pub open spec fn default_connection() -> ConnectionView {
    ConnectionView {
        hostname: "localhost"@,
        fail_over_partner: None,
        port: 1433,
        socket: None,
        tls: None,
        timeout: 5,
    }
}

/// The connection that a section holds under `connection`, if it has that
/// entry. What the entry leaves out is as in [`default_connection`].
pub open spec fn connection_of(node: Node) -> Result<Option<ConnectionView>, ConfigErrorView> {
    let conn = node.child("connection"@);
    if conn is BadValue {
        Ok(None)
    } else {
        match tls_of(conn) {
            Err(e) => Err(e),
            Ok(tls) => Ok(
                Some(
                    ConnectionView {
                        hostname: or_default(conn.child("hostname"@).text(), "localhost"@),
                        fail_over_partner: conn.child("failoverpartner"@).text(),
                        port: conn.child("port"@).int_or(u16::MAX as int, 1433) as u16,
                        socket: conn.child("socket"@).text(),
                        tls,
                        timeout: conn.child("timeout"@).int_or(u32::MAX as int, 5) as u32,
                    },
                ),
            ),
        }
    }
}

impl Clone for Connection {
    fn clone(&self) -> (r: Self)
        ensures
            r@ == self@,
    {
        Connection {
            hostname: self.hostname.clone(),
            fail_over_partner: clone_opt_string(&self.fail_over_partner),
            port: self.port,
            socket: match &self.socket {
                Some(p) => Some(clone_path(p)),
                None => None,
            },
            tls: match &self.tls {
                Some(tls) => Some(tls.clone()),
                None => None,
            },
            timeout: self.timeout,
        }
    }
}

impl Default for Connection {
    fn default() -> (r: Self)
        ensures
            r@ == default_connection(),
    {
        Connection {
            hostname: "localhost".to_owned(),
            fail_over_partner: None,
            port: 1433,
            socket: None,
            tls: None,
            timeout: 5,
        }
    }
}

impl Connection {
    pub fn from_yaml(yaml: &Yaml) -> (r: Result<Option<Self>, ConfigError>)
        ensures
            read_opt(r) == connection_of(node_of(*yaml)),
    {
        let conn = get(yaml, "connection");
        if is_badvalue(conn) {
            return Ok(None);
        }
        let hostname = match get_string(conn, "hostname") {
            Some(hostname) => hostname,
            None => "localhost".to_owned(),
        };
        let fail_over_partner = get_string(conn, "failoverpartner");
        let port = get_u16(conn, "port", 1433);
        let socket = get_pathbuf(conn, "socket");
        match ConnectionTls::from_yaml(conn) {
            Err(e) => Err(e),
            Ok(tls) => Ok(
                Some(
                    Connection {
                        hostname,
                        fail_over_partner,
                        port,
                        socket,
                        tls,
                        timeout: get_u32(conn, "timeout", 5),
                    },
                ),
            ),
        }
    }

    pub fn hostname(&self) -> (r: &str)
        ensures
            r@ == self@.hostname,
    {
        self.hostname.as_str()
    }

    pub fn fail_over_partner(&self) -> (r: Option<&String>)
        ensures
            opt_ref(r) == self.fail_over_partner,
    {
        self.fail_over_partner.as_ref()
    }

    pub fn port(&self) -> (r: u16)
        ensures
            r == self.port,
    {
        self.port
    }

    /// The port of the server's browser service: none is configured.
    pub fn sql_browser_port(&self) -> (r: Option<u16>)
        ensures
            r is None,
    {
        None
    }

    pub fn socket(&self) -> (r: Option<&PathBuf>)
        ensures
            opt_ref(r) == self.socket,
    {
        self.socket.as_ref()
    }

    pub fn tls(&self) -> (r: Option<&ConnectionTls>)
        ensures
            opt_ref(r) == self.tls,
    {
        self.tls.as_ref()
    }

    pub fn timeout(&self) -> (r: u32)
        ensures
            r == self.timeout,
    {
        self.timeout
    }
}

/// Which sections the probe reports, and how.
#[derive(PartialEq, Debug)]
pub struct Sections {
    pub always: Vec<String>,
    pub cached: Vec<String>,
    pub disabled: Vec<String>,
    pub cache_age: u32,
}

/// The model of a [`Sections`].
pub struct SectionsView {
    pub always: Seq<Seq<char>>,
    pub cached: Seq<Seq<char>>,
    pub disabled: Seq<Seq<char>>,
    pub cache_age: u32,
}

impl View for Sections {
    type V = SectionsView;

    open spec fn view(&self) -> SectionsView {
        SectionsView {
            always: texts_of(self.always@),
            cached: texts_of(self.cached@),
            disabled: texts_of(self.disabled@),
            cache_age: self.cache_age,
        }
    }
}

/// The sections reported on every run where a document names none.
pub open spec fn default_always() -> Seq<Seq<char>> {
    seq![
        "instance"@,
        "databases"@,
        "counters"@,
        "blocked_sessions"@,
        "transactionlogs"@,
        "clusters"@,
        "mirroring"@,
        "availability_groups"@,
        "connections"@,
    ]
}

/// The sections reported from the cache where a document names none.
pub open spec fn default_cached() -> Seq<Seq<char>> {
    seq!["tablespaces"@, "datafiles"@, "backup"@, "jobs"@]
}

/// The sections used where a document names none: the two default lists,
/// nothing disabled, and a cache age of 600 seconds.
pub open spec fn default_sections() -> SectionsView {
    SectionsView {
        always: default_always(),
        cached: default_cached(),
        disabled: Seq::empty(),
        cache_age: 600,
    }
}

/// The sections that a section of a document holds under `sections`, if it
/// has that entry. What the entry leaves out is as in [`default_sections`].
pub open spec fn sections_of(node: Node) -> Result<Option<SectionsView>, ConfigErrorView> {
    let sections = node.child("sections"@);
    if sections is BadValue {
        Ok(None)
    } else {
        match sections.child("always"@).names() {
            Err(e) => Err(e),
            Ok(always) => match sections.child("cached"@).names() {
                Err(e) => Err(e),
                Ok(cached) => match sections.child("disabled"@).names() {
                    Err(e) => Err(e),
                    Ok(disabled) => Ok(
                        Some(
                            SectionsView {
                                always: or_default(always, default_always()),
                                cached: or_default(cached, default_cached()),
                                disabled: or_default(disabled, Seq::empty()),
                                cache_age: sections.child("cache_age"@).int_or(
                                    u32::MAX as int,
                                    600,
                                ) as u32,
                            },
                        ),
                    ),
                },
            },
        }
    }
}

/// The names of `names` that are not among `disabled`, in their order.
pub open spec fn enabled(names: Seq<Seq<char>>, disabled: Seq<Seq<char>>) -> Seq<Seq<char>> {
    names.filter(|name: Seq<char>| !disabled.contains(name))
}

fn always_by_default() -> (r: Vec<String>)
    ensures
        texts_of(r@) == default_always(),
{
    let mut names: Vec<String> = Vec::new();
    names.push("instance".to_owned());
    names.push("databases".to_owned());
    names.push("counters".to_owned());
    names.push("blocked_sessions".to_owned());
    names.push("transactionlogs".to_owned());
    names.push("clusters".to_owned());
    names.push("mirroring".to_owned());
    names.push("availability_groups".to_owned());
    names.push("connections".to_owned());
    assert(texts_of(names@) =~= default_always());
    names
}

fn cached_by_default() -> (r: Vec<String>)
    ensures
        texts_of(r@) == default_cached(),
{
    let mut names: Vec<String> = Vec::new();
    names.push("tablespaces".to_owned());
    names.push("datafiles".to_owned());
    names.push("backup".to_owned());
    names.push("jobs".to_owned());
    assert(texts_of(names@) =~= default_cached());
    names
}

fn no_names() -> (r: Vec<String>)
    ensures
        texts_of(r@) == Seq::<Seq<char>>::empty(),
{
    let names: Vec<String> = Vec::new();
    assert(texts_of(names@) =~= Seq::<Seq<char>>::empty());
    names
}

/// Whether `name` is among `names`.
fn has_name(names: &Vec<String>, name: &String) -> (r: bool)
    ensures
        r == texts_of(names@).contains(name@),
{
    let mut i: usize = 0;
    while i < names.len()
        invariant
            i <= names.len(),
            forall|j: int| 0 <= j < i ==> (#[trigger] names@[j])@ != name@,
        decreases names.len() - i,
    {
        if names[i] == *name {
            assert(texts_of(names@)[i as int] == name@);
            return true;
        }
        i += 1;
    }
    false
}

impl Clone for Sections {
    fn clone(&self) -> (r: Self)
        ensures
            r@ == self@,
    {
        Sections {
            always: clone_names(&self.always),
            cached: clone_names(&self.cached),
            disabled: clone_names(&self.disabled),
            cache_age: self.cache_age,
        }
    }
}

impl Default for Sections {
    fn default() -> (r: Self)
        ensures
            r@ == default_sections(),
    {
        Sections {
            always: always_by_default(),
            cached: cached_by_default(),
            disabled: no_names(),
            cache_age: 600,
        }
    }
}

impl Sections {
    pub fn from_yaml(yaml: &Yaml) -> (r: Result<Option<Self>, ConfigError>)
        ensures
            read_opt(r) == sections_of(node_of(*yaml)),
    {
        let sections = get(yaml, "sections");
        if is_badvalue(sections) {
            return Ok(None);
        }
        let always = match get_string_vector(sections, "always") {
            Err(e) => {
                return Err(e);
            },
            Ok(Some(names)) => names,
            Ok(None) => always_by_default(),
        };
        let cached = match get_string_vector(sections, "cached") {
            Err(e) => {
                return Err(e);
            },
            Ok(Some(names)) => names,
            Ok(None) => cached_by_default(),
        };
        let disabled = match get_string_vector(sections, "disabled") {
            Err(e) => {
                return Err(e);
            },
            Ok(Some(names)) => names,
            Ok(None) => no_names(),
        };
        Ok(
            Some(
                Sections {
                    always,
                    cached,
                    disabled,
                    cache_age: get_u32(sections, "cache_age", 600),
                },
            ),
        )
    }

    pub fn always(&self) -> (r: &Vec<String>)
        ensures
            *r == self.always,
    {
        &self.always
    }

    pub fn cached(&self) -> (r: &Vec<String>)
        ensures
            *r == self.cached,
    {
        &self.cached
    }

    pub fn disabled(&self) -> (r: &Vec<String>)
        ensures
            *r == self.disabled,
    {
        &self.disabled
    }

    pub fn cache_age(&self) -> (r: u32)
        ensures
            r == self.cache_age,
    {
        self.cache_age
    }

    /// The sections reported on every run that are not disabled.
    pub fn get_filtered_always(&self) -> (r: Vec<String>)
        ensures
            texts_of(r@) == enabled(self@.always, self@.disabled),
    {
        self.get_filtered(&self.always)
    }

    /// The sections reported from the cache that are not disabled.
    pub fn get_filtered_cached(&self) -> (r: Vec<String>)
        ensures
            texts_of(r@) == enabled(self@.cached, self@.disabled),
    {
        self.get_filtered(&self.cached)
    }

    /// Those of `sections` that are not disabled, in their order.
    pub fn get_filtered(&self, sections: &Vec<String>) -> (r: Vec<String>)
        ensures
            texts_of(r@) == enabled(texts_of(sections@), self@.disabled),
    {
        let ghost names = texts_of(sections@);
        let ghost disabled = self@.disabled;
        let ghost keep = |name: Seq<char>| !disabled.contains(name);
        let mut out: Vec<String> = Vec::new();
        let mut i: usize = 0;
        proof {
            reveal(Seq::filter);
            assert(names.take(0) =~= Seq::empty());
            assert(texts_of(out@) =~= names.take(0).filter(keep));
        }
        while i < sections.len()
            invariant
                i <= sections.len(),
                names == texts_of(sections@),
                disabled == self@.disabled,
                keep == |name: Seq<char>| !disabled.contains(name),
                texts_of(out@) == names.take(i as int).filter(keep),
            decreases sections.len() - i,
        {
            let ghost before = texts_of(out@);
            let skip = has_name(&self.disabled, &sections[i]);
            if !skip {
                out.push(sections[i].clone());
            }
            proof {
                reveal(Seq::filter);
                assert(names.take(i + 1).drop_last() =~= names.take(i as int));
                assert(names.take(i + 1).last() == sections@[i as int]@);
                if !skip {
                    assert(texts_of(out@) =~= before.push(sections@[i as int]@));
                } else {
                    assert(texts_of(out@) =~= before);
                }
            }
            i += 1;
        }
        assert(names.take(i as int) =~= names);
        out
    }
}

/// How the probe finds the instances on a host.
#[derive(PartialEq, Debug)]
pub struct Discovery {
    pub detect: bool,
    pub all: bool,
    pub included: Vec<String>,
    pub exclude: Vec<String>,
}

/// The model of a [`Discovery`].
pub struct DiscoveryView {
    pub detect: bool,
    pub all: bool,
    pub included: Seq<Seq<char>>,
    pub exclude: Seq<Seq<char>>,
}

impl View for Discovery {
    type V = DiscoveryView;

    open spec fn view(&self) -> DiscoveryView {
        DiscoveryView {
            detect: self.detect,
            all: self.all,
            included: texts_of(self.included@),
            exclude: texts_of(self.exclude@),
        }
    }
}

/// The discovery used where a document names none: detect all instances.
pub open spec fn default_discovery() -> DiscoveryView {
    DiscoveryView { detect: true, all: true, included: Seq::empty(), exclude: Seq::empty() }
}

/// The discovery that a section holds under `discovery`. What the entry
/// leaves out is as in [`default_discovery`], and so is an absent entry.
pub open spec fn discovery_of(node: Node) -> Result<DiscoveryView, ConfigErrorView> {
    let discovery = node.child("discovery"@);
    if discovery is BadValue {
        Ok(default_discovery())
    } else {
        match discovery.child("detect"@).bool_or(true) {
            Err(e) => Err(e),
            Ok(detect) => match discovery.child("all"@).bool_or(true) {
                Err(e) => Err(e),
                Ok(all) => match discovery.child("include"@).names() {
                    Err(e) => Err(e),
                    Ok(included) => match discovery.child("exclude"@).names() {
                        Err(e) => Err(e),
                        Ok(exclude) => Ok(
                            DiscoveryView {
                                detect,
                                all,
                                included: or_default(included, Seq::empty()),
                                exclude: or_default(exclude, Seq::empty()),
                            },
                        ),
                    },
                },
            },
        }
    }
}

impl Default for Discovery {
    fn default() -> (r: Self)
        ensures
            r@ == default_discovery(),
    {
        Discovery { detect: true, all: true, included: no_names(), exclude: no_names() }
    }
}

impl Discovery {
    pub fn from_yaml(yaml: &Yaml) -> (r: Result<Self, ConfigError>)
        ensures
            read(r) == discovery_of(node_of(*yaml)),
    {
        let discovery = get(yaml, "discovery");
        if is_badvalue(discovery) {
            return Ok(Discovery::default());
        }
        let detect = match get_bool(discovery, "detect", true) {
            Err(e) => {
                return Err(e);
            },
            Ok(detect) => detect,
        };
        let all = match get_bool(discovery, "all", true) {
            Err(e) => {
                return Err(e);
            },
            Ok(all) => all,
        };
        let included = match get_string_vector(discovery, "include") {
            Err(e) => {
                return Err(e);
            },
            Ok(Some(names)) => names,
            Ok(None) => no_names(),
        };
        let exclude = match get_string_vector(discovery, "exclude") {
            Err(e) => {
                return Err(e);
            },
            Ok(Some(names)) => names,
            Ok(None) => no_names(),
        };
        Ok(Discovery { detect, all, included, exclude })
    }

    pub fn detect(&self) -> (r: bool)
        ensures
            r == self.detect,
    {
        self.detect
    }

    pub fn all(&self) -> (r: bool)
        ensures
            r == self.all,
    {
        self.all
    }

    pub fn included(&self) -> (r: &Vec<String>)
        ensures
            *r == self.included,
    {
        &self.included
    }

    pub fn exclude(&self) -> (r: &Vec<String>)
        ensures
            *r == self.exclude,
    {
        &self.exclude
    }
}

/// The host that the data of an instance is reported for, in place of the
/// host that the probe runs on.
#[derive(PartialEq, Debug)]
pub struct Piggyback {
    pub hostname: String,
    pub sections: Sections,
}

/// The model of a [`Piggyback`].
pub struct PiggybackView {
    pub hostname: Seq<char>,
    pub sections: SectionsView,
}

impl View for Piggyback {
    type V = PiggybackView;

    open spec fn view(&self) -> PiggybackView {
        PiggybackView { hostname: self.hostname@, sections: self.sections@ }
    }
}

/// The piggyback host that a section holds under `piggyback`, if it has that
/// entry. The host name is required; the sections are `sections` where the
/// entry names none.
pub open spec fn piggyback_of(node: Node, sections: SectionsView) -> Result<
    Option<PiggybackView>,
    ConfigErrorView,
> {
    let piggyback = node.child("piggyback"@);
    if piggyback is BadValue {
        Ok(None)
    } else {
        match piggyback.child("hostname"@).text() {
            None => Err(ConfigErrorView::BadPiggybackHostname),
            Some(hostname) => match sections_of(piggyback) {
                Err(e) => Err(e),
                Ok(own) => Ok(Some(PiggybackView { hostname, sections: or_default(own, sections) })),
            },
        }
    }
}

impl Piggyback {
    pub fn from_yaml(yaml: &Yaml, sections: &Sections) -> (r: Result<Option<Self>, ConfigError>)
        ensures
            read_opt(r) == piggyback_of(node_of(*yaml), sections@),
    {
        let piggyback = get(yaml, "piggyback");
        if is_badvalue(piggyback) {
            return Ok(None);
        }
        let hostname = match get_string(piggyback, "hostname") {
            Some(hostname) => hostname,
            None => {
                return Err(ConfigError::BadPiggybackHostname);
            },
        };
        match Sections::from_yaml(piggyback) {
            Err(e) => Err(e),
            Ok(Some(own)) => Ok(Some(Piggyback { hostname, sections: own })),
            Ok(None) => Ok(Some(Piggyback { hostname, sections: sections.clone() })),
        }
    }

    pub fn hostname(&self) -> (r: &String)
        ensures
            *r == self.hostname,
    {
        &self.hostname
    }

    pub fn sections(&self) -> (r: &Sections)
        ensures
            *r == self.sections,
    {
        &self.sections
    }
}

/// One database instance and what is special about it.
#[derive(PartialEq, Debug)]
pub struct Instance {
    pub sid: String,
    pub auth: Authentication,
    pub conn: Connection,
    pub alias: Option<String>,
    pub piggyback: Option<Piggyback>,
}

/// The model of an [`Instance`].
pub struct InstanceView {
    pub sid: Seq<char>,
    pub auth: AuthenticationView,
    pub conn: ConnectionView,
    pub alias: Option<Seq<char>>,
    pub piggyback: Option<PiggybackView>,
}

/// The model of an optional piggyback host.
pub open spec fn opt_piggyback_view(piggyback: Option<Piggyback>) -> Option<PiggybackView> {
    match piggyback {
        Some(p) => Some(p@),
        None => None,
    }
}

impl View for Instance {
    type V = InstanceView;

    open spec fn view(&self) -> InstanceView {
        InstanceView {
            sid: self.sid@,
            auth: self.auth@,
            conn: self.conn@,
            alias: opt_text(self.alias),
            piggyback: opt_piggyback_view(self.piggyback),
        }
    }
}

/// The instance that an entry of `instances` describes. The `sid` is
/// required. The login is `auth` where the entry holds none that can be
/// read; the connection is `conn` where the entry names none.
pub open spec fn instance_of(
    node: Node,
    auth: AuthenticationView,
    conn: ConnectionView,
    sections: SectionsView,
) -> Result<InstanceView, ConfigErrorView> {
    match node.child("sid"@).text() {
        None => Err(ConfigErrorView::BadSid),
        Some(sid) => match connection_of(node) {
            Err(e) => Err(e),
            Ok(own_conn) => match piggyback_of(node, sections) {
                Err(e) => Err(e),
                Ok(piggyback) => Ok(
                    InstanceView {
                        sid,
                        auth: match authentication_of(node) {
                            Ok(own) => own,
                            Err(_) => auth,
                        },
                        conn: or_default(own_conn, conn),
                        alias: node.child("alias"@).text(),
                        piggyback,
                    },
                ),
            },
        },
    }
}

impl Instance {
    pub fn from_yaml(
        yaml: &Yaml,
        auth: &Authentication,
        conn: &Connection,
        sections: &Sections,
    ) -> (r: Result<Self, ConfigError>)
        ensures
            read(r) == instance_of(node_of(*yaml), auth@, conn@, sections@),
    {
        let sid = match get_string(yaml, "sid") {
            Some(sid) => sid,
            None => {
                return Err(ConfigError::BadSid);
            },
        };
        let own_auth = match Authentication::from_yaml(yaml) {
            Ok(own) => own,
            Err(_) => auth.clone(),
        };
        let own_conn = match Connection::from_yaml(yaml) {
            Err(e) => {
                return Err(e);
            },
            Ok(Some(own)) => own,
            Ok(None) => conn.clone(),
        };
        let alias = get_string(yaml, "alias");
        match Piggyback::from_yaml(yaml, sections) {
            Err(e) => Err(e),
            Ok(piggyback) => Ok(Instance { sid, auth: own_auth, conn: own_conn, alias, piggyback }),
        }
    }

    pub fn sid(&self) -> (r: &String)
        ensures
            *r == self.sid,
    {
        &self.sid
    }

    pub fn auth(&self) -> (r: &Authentication)
        ensures
            *r == self.auth,
    {
        &self.auth
    }

    pub fn conn(&self) -> (r: &Connection)
        ensures
            *r == self.conn,
    {
        &self.conn
    }

    pub fn alias(&self) -> (r: Option<&String>)
        ensures
            opt_ref(r) == self.alias,
    {
        self.alias.as_ref()
    }

    pub fn piggyback(&self) -> (r: Option<&Piggyback>)
        ensures
            opt_ref(r) == self.piggyback,
    {
        self.piggyback.as_ref()
    }
}

/// The configuration of the probe.
#[derive(PartialEq, Debug)]
pub struct Config {
    pub auth: Authentication,
    pub conn: Connection,
    pub sections: Sections,
    pub discovery: Discovery,
    pub mode: Mode,
    pub instances: Vec<Instance>,
}

/// The model of a [`Config`].
pub struct ConfigView {
    pub auth: AuthenticationView,
    pub conn: ConnectionView,
    pub sections: SectionsView,
    pub discovery: DiscoveryView,
    pub mode: Mode,
    pub instances: Seq<InstanceView>,
}

/// The models of a list of instances, in order.
pub open spec fn instance_views(instances: Seq<Instance>) -> Seq<InstanceView> {
    instances.map_values(|i: Instance| i@)
}

impl View for Config {
    type V = ConfigView;

    open spec fn view(&self) -> ConfigView {
        ConfigView {
            auth: self.auth@,
            conn: self.conn@,
            sections: self.sections@,
            discovery: self.discovery@,
            mode: self.mode,
            instances: instance_views(self.instances@),
        }
    }
}

/// The instances that a list of entries describes, in order; the error of
/// the first entry that cannot be read, where there is one.
pub open spec fn instances_of(
    nodes: Seq<Node>,
    auth: AuthenticationView,
    conn: ConnectionView,
    sections: SectionsView,
) -> Result<Seq<InstanceView>, ConfigErrorView>
    decreases nodes.len(),
{
    if nodes.len() == 0 {
        Ok(Seq::empty())
    } else {
        match instances_of(nodes.drop_last(), auth, conn, sections) {
            Err(e) => Err(e),
            Ok(before) => match instance_of(nodes.last(), auth, conn, sections) {
                Err(e) => Err(e),
                Ok(instance) => Ok(before.push(instance)),
            },
        }
    }
}

/// The configuration that a document holds under `mssql`, if it has that
/// entry.
///
/// The entry must have a `standard` section with a login. Connection,
/// sections, discovery and mode are the defaults where `standard` names
/// none. Each entry of `instances` inherits login, connection and sections
/// from `standard`. Of several errors the one reported is the first in the
/// order login, connection, sections, discovery, mode, instances.
pub open spec fn config_of(node: Node) -> Result<Option<ConfigView>, ConfigErrorView> {
    let mssql = node.child("mssql"@);
    let standard = mssql.child("standard"@);
    if mssql is BadValue {
        Ok(None)
    } else if standard is BadValue {
        Err(ConfigErrorView::MissingStandard)
    } else {
        match authentication_of(standard) {
            Err(e) => Err(e),
            Ok(auth) => match connection_of(standard) {
                Err(e) => Err(e),
                Ok(own_conn) => match sections_of(standard) {
                    Err(e) => Err(e),
                    Ok(own_sections) => {
                        let conn = or_default(own_conn, default_connection());
                        let sections = or_default(own_sections, default_sections());
                        match discovery_of(standard) {
                            Err(e) => Err(e),
                            Ok(discovery) => match mode_of(standard) {
                                Err(e) => Err(e),
                                Ok(mode) => match instances_of(
                                    mssql.child("instances"@).items(),
                                    auth,
                                    conn,
                                    sections,
                                ) {
                                    Err(e) => Err(e),
                                    Ok(instances) => Ok(
                                        Some(
                                            ConfigView {
                                                auth,
                                                conn,
                                                sections,
                                                discovery,
                                                mode,
                                                instances,
                                            },
                                        ),
                                    ),
                                },
                            },
                        }
                    },
                },
            },
        }
    }
}

/// The configuration used where a document holds none.
pub open spec fn default_config() -> ConfigView {
    ConfigView {
        auth: AuthenticationView {
            username: Seq::empty(),
            password: None,
            auth_type: AuthType::Integrated,
            access_token: None,
        },
        conn: default_connection(),
        sections: default_sections(),
        discovery: default_discovery(),
        mode: Mode::Port,
        instances: Seq::empty(),
    }
}

impl Default for Config {
    fn default() -> (r: Self)
        ensures
            r@ == default_config(),
    {
        let instances: Vec<Instance> = Vec::new();
        assert(instance_views(instances@) =~= Seq::empty());
        Config {
            auth: Authentication::default(),
            conn: Connection::default(),
            sections: Sections::default(),
            discovery: Discovery::default(),
            mode: Mode::Port,
            instances,
        }
    }
}

/// Reads every entry of `items` as an instance.
fn read_instances(
    items: &Vec<Yaml>,
    auth: &Authentication,
    conn: &Connection,
    sections: &Sections,
) -> (r: Result<Vec<Instance>, ConfigError>)
    ensures
        match r {
            Ok(instances) => instances_of(nodes_of(items@), auth@, conn@, sections@) == Ok::<
                _,
                ConfigErrorView,
            >(instance_views(instances@)),
            Err(e) => instances_of(nodes_of(items@), auth@, conn@, sections@) == Err::<
                Seq<InstanceView>,
                _,
            >(e@),
        },
{
    let ghost nodes = nodes_of(items@);
    let mut instances: Vec<Instance> = Vec::new();
    let mut i: usize = 0;
    proof {
        assert(nodes.take(0) =~= Seq::empty());
        assert(instance_views(instances@) =~= Seq::empty());
    }
    while i < items.len()
        invariant
            i <= items.len(),
            nodes == nodes_of(items@),
            instances_of(nodes.take(i as int), auth@, conn@, sections@) == Ok::<
                _,
                ConfigErrorView,
            >(instance_views(instances@)),
        decreases items.len() - i,
    {
        let ghost before = instance_views(instances@);
        proof {
            assert(nodes.take(i + 1).drop_last() =~= nodes.take(i as int));
            assert(nodes.take(i + 1).last() == node_of(items@[i as int]));
        }
        match Instance::from_yaml(&items[i], auth, conn, sections) {
            Err(e) => {
                proof {
                    lemma_instances_error_stays(nodes, i + 1, auth@, conn@, sections@);
                    assert(nodes.take(nodes.len() as int) =~= nodes);
                }
                return Err(e);
            },
            Ok(instance) => {
                instances.push(instance);
                assert(instance_views(instances@) =~= before.push(instance@));
            },
        }
        i += 1;
    }
    assert(nodes.take(i as int) =~= nodes);
    Ok(instances)
}

/// An error among the first `n` entries is the error of the whole list.
proof fn lemma_instances_error_stays(
    nodes: Seq<Node>,
    n: int,
    auth: AuthenticationView,
    conn: ConnectionView,
    sections: SectionsView,
)
    requires
        0 <= n <= nodes.len(),
        instances_of(nodes.take(n), auth, conn, sections) is Err,
    ensures
        instances_of(nodes.take(nodes.len() as int), auth, conn, sections) == instances_of(
            nodes.take(n),
            auth,
            conn,
            sections,
        ),
    decreases nodes.len() - n,
{
    if n < nodes.len() {
        assert(nodes.take(n + 1).drop_last() =~= nodes.take(n));
        lemma_instances_error_stays(nodes, n + 1, auth, conn, sections);
    }
}

impl Config {
    pub fn from_yaml(yaml: &Yaml) -> (r: Result<Option<Self>, ConfigError>)
        ensures
            read_opt(r) == config_of(node_of(*yaml)),
    {
        let mssql = get(yaml, "mssql");
        if is_badvalue(mssql) {
            return Ok(None);
        }
        let standard = get(mssql, "standard");
        if is_badvalue(standard) {
            return Err(ConfigError::MissingStandard);
        }
        let auth = match Authentication::from_yaml(standard) {
            Err(e) => {
                return Err(e);
            },
            Ok(auth) => auth,
        };
        let conn = match Connection::from_yaml(standard) {
            Err(e) => {
                return Err(e);
            },
            Ok(Some(conn)) => conn,
            Ok(None) => Connection::default(),
        };
        let sections = match Sections::from_yaml(standard) {
            Err(e) => {
                return Err(e);
            },
            Ok(Some(sections)) => sections,
            Ok(None) => Sections::default(),
        };
        let listed = get(mssql, "instances");
        let instances = match as_vec(listed) {
            Some(items) => read_instances(items, &auth, &conn, &sections),
            None => {
                let none: Vec<Instance> = Vec::new();
                assert(instance_views(none@) =~= Seq::empty());
                Ok(none)
            },
        };
        let discovery = match Discovery::from_yaml(standard) {
            Err(e) => {
                return Err(e);
            },
            Ok(discovery) => discovery,
        };
        let mode = match Mode::from_yaml(standard) {
            Err(e) => {
                return Err(e);
            },
            Ok(mode) => mode,
        };
        match instances {
            Err(e) => Err(e),
            Ok(instances) => Ok(Some(Config { auth, conn, sections, discovery, mode, instances })),
        }
    }

    pub fn auth(&self) -> (r: &Authentication)
        ensures
            *r == self.auth,
    {
        &self.auth
    }

    pub fn conn(&self) -> (r: &Connection)
        ensures
            *r == self.conn,
    {
        &self.conn
    }

    pub fn sections(&self) -> (r: &Sections)
        ensures
            *r == self.sections,
    {
        &self.sections
    }

    pub fn discovery(&self) -> (r: &Discovery)
        ensures
            *r == self.discovery,
    {
        &self.discovery
    }

    pub fn mode(&self) -> (r: &Mode)
        ensures
            *r == self.mode,
    {
        &self.mode
    }

    pub fn instances(&self) -> (r: &Vec<Instance>)
        ensures
            *r == self.instances,
    {
        &self.instances
    }
}

/// The case of the letters of a word does not matter to the mode or the
/// authentication type that it names. A word that names no authentication
/// type is reported with its letters as they were given.
pub proof fn lemma_words_ignore_case(word: Seq<char>)
    ensures
        mode_of_word(lower(word)) == mode_of_word(word),
        match auth_type_of(word) {
            Ok(auth_type) => auth_type_of(lower(word)) == Ok::<_, ConfigErrorView>(auth_type),
            Err(e) => e == ConfigErrorView::UnsupportedAuthType(word) && auth_type_of(
                lower(word),
            ) is Err,
        },
{
    lemma_lower_is_idempotent(word);
}

/// A name is among the enabled ones exactly where it is among the names
/// and not among the disabled ones.
pub proof fn lemma_enabled_names(names: Seq<Seq<char>>, disabled: Seq<Seq<char>>, name: Seq<char>)
    ensures
        enabled(names, disabled).contains(name) <==> names.contains(name) && !disabled.contains(
            name,
        ),
    decreases names.len(),
{
    reveal(Seq::filter);
    let keep = |name: Seq<char>| !disabled.contains(name);
    if names.len() > 0 {
        let before = names.drop_last();
        lemma_enabled_names(before, disabled, name);
        if names.contains(name) {
            let i = choose|i: int| 0 <= i < names.len() && names[i] == name;
            if i < before.len() {
                assert(before[i] == name);
            }
        }
        if before.contains(name) {
            let i = choose|i: int| 0 <= i < before.len() && before[i] == name;
            assert(names[i] == name);
        }
        assert(names[names.len() - 1] == names.last());
        if keep(names.last()) {
            let kept = before.filter(keep);
            assert(enabled(names, disabled) == kept.push(names.last()));
            if kept.contains(name) {
                let i = choose|i: int| 0 <= i < kept.len() && kept[i] == name;
                assert(kept.push(names.last())[i] == name);
            }
            if kept.push(names.last()).contains(name) {
                let i = choose|i: int|
                    0 <= i < kept.push(names.last()).len() && kept.push(names.last())[i] == name;
                if i < kept.len() {
                    assert(kept[i] == name);
                }
            }
            assert(kept.push(names.last())[kept.len() as int] == names.last());
        }
    }
}

} // verus!
