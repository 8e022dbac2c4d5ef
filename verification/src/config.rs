//! Configuration of the service, computed from the values of its settings.

use crate::text::{text_eq, texts};
use vstd::prelude::*;
use vstd::string::*;

verus! {

/// Name of the environment where none is set.
pub const DEFAULT_ENVIRONMENT: &'static str = "development";

/// Origins allowed in development where none are set.
pub const DEFAULT_DEVELOPMENT_ORIGINS: &'static str =
    "http://localhost:3000,http://localhost:5173,http://localhost:5174";

/// Port to listen on where none is set.
pub const DEFAULT_PORT: &'static str = "3000";

/// Address to listen on, without the port, where no address is set.
pub const DEFAULT_HOST: &'static str = "0.0.0.0:";

/// Where the service runs.
#[derive(Clone, Copy, Debug, PartialEq, Eq, Structural)]
pub enum Environment {
    Development,
    Production,
}

/// The settings of the service.
#[derive(Clone, Debug)]
pub struct Config {
    pub database_url: String,
    pub server_addr: String,
    pub cors_allowed_origins: Vec<String>,
    pub environment: Environment,
}

/// Mathematical view of a [`Config`].
pub struct ConfigView {
    pub database_url: Seq<char>,
    pub server_addr: Seq<char>,
    pub cors_allowed_origins: Seq<Seq<char>>,
    pub environment: Environment,
}

impl View for Config {
    type V = ConfigView;

    open spec fn view(&self) -> ConfigView {
        ConfigView {
            database_url: self.database_url@,
            server_addr: self.server_addr@,
            cors_allowed_origins: texts(self.cors_allowed_origins@),
            environment: self.environment,
        }
    }
}

/// The lowercase form that the standard library gives a text.
pub uninterp spec fn lowercase_text(s: Seq<char>) -> Seq<char>;

/// Whether a character is white space: one of the twenty-five characters
/// that Unicode marks as `White_Space`.
pub open spec fn whitespace(c: char) -> bool {
    let n = c as int;
    ||| 0x09 <= n <= 0x0D
    ||| n == 0x20
    ||| n == 0x85
    ||| n == 0xA0
    ||| n == 0x1680
    ||| 0x2000 <= n <= 0x200A
    ||| n == 0x2028
    ||| n == 0x2029
    ||| n == 0x202F
    ||| n == 0x205F
    ||| n == 0x3000
}

/// Calls `str::to_lowercase`. The text is named, not described.
#[verifier::external_body]
fn lowercase(s: &str) -> (lower: String)
    ensures
        lower@ == lowercase_text(s@),
{
    s.to_lowercase()
}

/// Whether a character is white space.
pub fn is_whitespace(c: char) -> (space: bool)
    ensures
        space == whitespace(c),
{
    let n: u32 = c as u32;
    (0x09 <= n && n <= 0x0D) || n == 0x20 || n == 0x85 || n == 0xA0 || n == 0x1680 || (0x2000
        <= n && n <= 0x200A) || n == 0x2028 || n == 0x2029 || n == 0x202F || n == 0x205F || n
        == 0x3000
}

/// `s` without its leading white space.
pub open spec fn trim_start(s: Seq<char>) -> Seq<char>
    decreases s.len(),
{
    if s.len() > 0 && whitespace(s[0]) {
        trim_start(s.subrange(1, s.len() as int))
    } else {
        s
    }
}

/// `s` without its trailing white space.
pub open spec fn trim_end(s: Seq<char>) -> Seq<char>
    decreases s.len(),
{
    if s.len() > 0 && whitespace(s.last()) {
        trim_end(s.drop_last())
    } else {
        s
    }
}

/// `s` without its leading and trailing white space.
pub open spec fn trimmed(s: Seq<char>) -> Seq<char> {
    trim_end(trim_start(s))
}

/// The pieces of `s` between the occurrences of `sep`, in order. A text
/// without separator is one piece, and so is the empty text.
pub open spec fn split_on(s: Seq<char>, sep: char) -> Seq<Seq<char>>
    decreases s.len(),
{
    if s.len() == 0 {
        seq![Seq::<char>::empty()]
    } else {
        let before = split_on(s.drop_last(), sep);
        if s.last() == sep {
            before.push(Seq::<char>::empty())
        } else {
            before.update(before.len() - 1, before.last().push(s.last()))
        }
    }
}

/// The first `n` pieces, each trimmed, without those that are empty after
/// trimming.
pub open spec fn kept_pieces(pieces: Seq<Seq<char>>, n: nat) -> Seq<Seq<char>>
    decreases n,
{
    if n == 0 {
        Seq::empty()
    } else {
        let before = kept_pieces(pieces, (n - 1) as nat);
        let piece = trimmed(pieces[n - 1]);
        if piece.len() > 0 {
            before.push(piece)
        } else {
            before
        }
    }
}

/// The origins of a comma-separated list: its pieces, trimmed, without the
/// empty ones.
pub open spec fn origin_list(text: Seq<char>) -> Seq<Seq<char>> {
    kept_pieces(split_on(text, ','), split_on(text, ',').len())
}

/// The environment that a name stands for: `production` and `prod`, in any
/// letter case, stand for production, and every other name for development.
pub open spec fn environment_of(name: Seq<char>) -> Environment {
    if lowercase_text(name) == "production"@ || lowercase_text(name) == "prod"@ {
        Environment::Production
    } else {
        Environment::Development
    }
}

/// The value of a setting, or `default` where it is not set.
pub open spec fn or_default(value: Option<&str>, default: Seq<char>) -> Seq<char> {
    match value {
        Some(v) => v@,
        None => default,
    }
}

/// The origins to allow where the setting is absent: none in production, the
/// local development servers otherwise.
pub open spec fn default_origins(environment: Environment) -> Seq<char> {
    match environment {
        Environment::Production => Seq::empty(),
        Environment::Development => DEFAULT_DEVELOPMENT_ORIGINS@,
    }
}

/// The address to listen on: the address setting, trimmed, or else every
/// interface at the port setting, trimmed, the port defaulting to 3000.
pub open spec fn listen_address(server_addr: Option<&str>, port: Option<&str>) -> Seq<char> {
    match server_addr {
        Some(a) => trimmed(a@),
        None => DEFAULT_HOST@ + trimmed(or_default(port, DEFAULT_PORT@)),
    }
}

/// The configuration that the settings amount to.
pub open spec fn configured(
    environment: Option<&str>,
    cors_allowed_origins: Option<&str>,
    port: Option<&str>,
    server_addr: Option<&str>,
    database_url: Seq<char>,
) -> ConfigView {
    let env = environment_of(or_default(environment, DEFAULT_ENVIRONMENT@));
    ConfigView {
        database_url,
        server_addr: listen_address(server_addr, port),
        cors_allowed_origins: origin_list(or_default(cors_allowed_origins, default_origins(env))),
        environment: env,
    }
}

/// Removes leading and trailing white space.
pub fn trim(s: &str) -> (t: &str)
    ensures
        t@ == trimmed(s@),
{
    let n = s.unicode_len();
    let mut a: usize = 0;
    proof {
        assert(s@.subrange(0, n as int) =~= s@);
    }
    while a < n && is_whitespace(s.get_char(a))
        invariant
            0 <= a <= n,
            n == s@.len(),
            trim_start(s@) == trim_start(s@.subrange(a as int, n as int)),
        decreases n - a,
    {
        proof {
            let rest = s@.subrange(a as int, n as int);
            assert(rest.subrange(1, rest.len() as int) =~= s@.subrange(a + 1, n as int));
        }
        a = a + 1;
    }
    let mut b: usize = n;
    while b > a && is_whitespace(s.get_char(b - 1))
        invariant
            a <= b <= n,
            n == s@.len(),
            trimmed(s@) == trim_end(s@.subrange(a as int, b as int)),
        decreases b,
    {
        proof {
            let rest = s@.subrange(a as int, b as int);
            assert(rest.drop_last() =~= s@.subrange(a as int, b - 1));
        }
        b = b - 1;
    }
    s.substring_char(a, b)
}

/// Splits a text at every occurrence of `sep`.
pub fn split(s: &str, sep: char) -> (pieces: Vec<String>)
    ensures
        texts(pieces@) == split_on(s@, sep),
{
    let n = s.unicode_len();
    let mut pieces: Vec<String> = Vec::new();
    let mut start: usize = 0;
    let mut i: usize = 0;
    proof {
        assert(s@.subrange(0, 0) =~= Seq::<char>::empty());
    }
    while i < n
        invariant
            0 <= start <= i <= n,
            n == s@.len(),
            split_on(s@.subrange(0, i as int), sep) == texts(pieces@).push(
                s@.subrange(start as int, i as int),
            ),
        decreases n - i,
    {
        proof {
            assert(s@.subrange(0, i + 1).drop_last() =~= s@.subrange(0, i as int));
        }
        if s.get_char(i) == sep {
            pieces.push(s.substring_char(start, i).to_owned());
            proof {
                assert(s@.subrange(i + 1, i + 1) =~= Seq::<char>::empty());
            }
            start = i + 1;
        } else {
            proof {
                assert(s@.subrange(start as int, i as int).push(s@[i as int]) =~= s@.subrange(
                    start as int,
                    i + 1,
                ));
            }
        }
        i = i + 1;
    }
    pieces.push(s.substring_char(start, n).to_owned());
    proof {
        assert(s@.subrange(0, n as int) =~= s@);
    }
    pieces
}

/// Reads a comma-separated list of origins: the pieces are trimmed and the
/// empty ones dropped.
pub fn parse_origins(text: &str) -> (origins: Vec<String>)
    ensures
        texts(origins@) == origin_list(text@),
{
    let pieces = split(text, ',');
    let mut origins: Vec<String> = Vec::new();
    let mut i: usize = 0;
    while i < pieces.len()
        invariant
            0 <= i <= pieces.len(),
            texts(origins@) == kept_pieces(texts(pieces@), i as nat),
        decreases pieces.len() - i,
    {
        let piece = trim(pieces[i].as_str());
        if piece.unicode_len() > 0 {
            origins.push(piece.to_owned());
        }
        i = i + 1;
    }
    origins
}

impl Environment {
    /// Reads the name of an environment.
    pub fn from_name(name: &str) -> (environment: Environment)
        ensures
            environment == environment_of(name@),
    {
        let lower = lowercase(name);
        if text_eq(lower.as_str(), "production") || text_eq(lower.as_str(), "prod") {
            Environment::Production
        } else {
            Environment::Development
        }
    }
}

impl Config {
    /// Computes the configuration from the values of the settings, each of
    /// which but the database address may be absent.
    pub fn from_values(
        environment: Option<&str>,
        cors_allowed_origins: Option<&str>,
        port: Option<&str>,
        server_addr: Option<&str>,
        database_url: String,
    ) -> (config: Config)
        ensures
            config@ == configured(
                environment,
                cors_allowed_origins,
                port,
                server_addr,
                database_url@,
            ),
    {
        let env = Environment::from_name(
            match environment {
                Some(name) => name,
                None => DEFAULT_ENVIRONMENT,
            },
        );
        let origins_text = match cors_allowed_origins {
            Some(text) => text,
            None => match env {
                Environment::Production => "",
                Environment::Development => DEFAULT_DEVELOPMENT_ORIGINS,
            },
        };
        proof {
            reveal_strlit("");
        }
        let origins = parse_origins(origins_text);
        let server_addr = match server_addr {
            Some(address) => trim(address).to_owned(),
            None => {
                let port = match port {
                    Some(p) => p,
                    None => DEFAULT_PORT,
                };
                String::from_str(DEFAULT_HOST).concat(trim(port))
            },
        };
        Config { database_url, server_addr, cors_allowed_origins: origins, environment: env }
    }
}

} // verus!
