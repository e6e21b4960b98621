//! Server configuration rules: defaults, command line overrides, runner
//! names and MCP server URLs.
pub mod mcp;
pub mod tui;

pub use mcp::McpConfig;
pub use tui::TuiConfig;

use crate::constants::SERVER_TYPE_NAME;
use crate::text::{decimal, push_decimal};
use vstd::prelude::*;

verus! {

/// A configured runner: its unique name and the model of its driver.
#[derive(Clone, Debug)]
pub struct RunnerEntry {
    /// Unique name of the runner
    pub name: String,
    /// Driver model, looked up in the driver factory
    pub model: String,
}

/// Services that the command line can disable.
#[derive(Clone, Copy, Debug)]
pub struct ServicesOverrides {
    /// Disable the TUI
    pub no_tui: bool,
    /// Disable MCP servers
    pub no_mcp: bool,
    /// Disable runners
    pub no_runners: bool,
}

/// Server configuration
#[derive(Clone, Debug)]
pub struct ServerConfig {
    /// TUI configuration
    pub tui: TuiConfig,
    /// MCP server configuration
    pub mcp: McpConfig,
    /// Runners, in configuration order
    pub runners: Option<Vec<RunnerEntry>>,
}

/// URL of the MCP server of runner `name`.
pub open spec fn mcp_url(host: Seq<char>, port: u16, name: Seq<char>) -> Seq<char> {
    "http://"@ + host + ":"@ + decimal(port as nat) + "/"@ + SERVER_TYPE_NAME@ + "/"@ + name
}

/// Name of the server configuration file, in the user's Panduza directory.
pub open spec fn config_file_name_spec() -> Seq<char> {
    "pza-"@ + SERVER_TYPE_NAME@ + "-server.json5"@
}

/// The configuration after the command line overrides.
pub open spec fn overridden(c: ServerConfig, o: ServicesOverrides) -> ServerConfig {
    ServerConfig {
        tui: TuiConfig {
            enable: if o.no_tui {
                Some(false)
            } else if c.tui.enable is None {
                Some(true)
            } else {
                c.tui.enable
            },
            power_toggle_key: c.tui.power_toggle_key,
        },
        mcp: McpConfig {
            enable: if o.no_mcp { false } else { c.mcp.enable },
            host: c.mcp.host,
            port: c.mcp.port,
        },
        runners: if o.no_runners { None } else { c.runners },
    }
}

impl ServerConfig {
    /// Names of the configured runners, in order.
    pub open spec fn names(&self) -> Seq<Seq<char>> {
        match self.runners {
            Some(v) => v@.map_values(|r: RunnerEntry| r.name@),
            None => Seq::empty(),
        }
    }

    /// No two runners share a name, as in the configuration file's map.
    pub open spec fn names_distinct(&self) -> bool {
        forall|i: int, j: int| 0 <= i < j < self.names().len() ==> self.names()[i] != self.names()[j]
    }

    /// Tracing is on when the TUI is not enabled.
    pub open spec fn tracing_enabled(&self) -> bool {
        !(self.tui.enable == Some(true))
    }

    /// List MCP server URLs from the configuration
    pub fn list_mcp_servers_urls(&self) -> (urls: Vec<String>)
        ensures
            urls.len() == self.names().len(),
            forall|i: int| 0 <= i < urls.len() ==> #[trigger] urls[i]@ == mcp_url(
                self.mcp.host@,
                self.mcp.port,
                self.names()[i],
            ),
    {
        let mut urls: Vec<String> = Vec::new();
        match &self.runners {
            Some(runners) => {
                let mut i: usize = 0;
                while i < runners.len()
                    invariant
                        self.runners == Some(*runners),
                        i <= runners.len(),
                        urls.len() == i,
                        forall|j: int| 0 <= j < i ==> #[trigger] urls[j]@ == mcp_url(
                            self.mcp.host@,
                            self.mcp.port,
                            self.names()[j],
                        ),
                    decreases runners.len() - i,
                {
                    let mut url = String::from_str("http://");
                    url.append(self.mcp.host.as_str());
                    url.append(":");
                    push_decimal(&mut url, self.mcp.port as u64);
                    url.append("/");
                    url.append(SERVER_TYPE_NAME);
                    url.append("/");
                    url.append(runners[i].name.as_str());
                    assert(url@ =~= mcp_url(self.mcp.host@, self.mcp.port, self.names()[i as int]));
                    urls.push(url);
                    i = i + 1;
                }
            },
            None => {},
        }
        urls
    }

    /// List MCP server URLs as a pretty-printed JSON array
    pub fn list_mcp_servers_urls_as_json_string(&self) -> (r: String)
        ensures
            r@ == json_pretty_string_array(
                Seq::new(self.names().len(), |i: int| mcp_url(self.mcp.host@, self.mcp.port, self.names()[i])),
            ),
            self.names().len() == 0 ==> r@ == "[]"@,
    {
        let urls = self.list_mcp_servers_urls();
        let ghost expected = Seq::new(
            self.names().len(),
            |i: int| mcp_url(self.mcp.host@, self.mcp.port, self.names()[i]),
        );
        assert(urls@.map_values(|s: String| s@) =~= expected);
        let serialized = match to_json_pretty(&urls) {
            Ok(s) => Some(s),
            Err(_) => None,
        };
        json_or_empty_array(serialized)
    }

    /// Apply service overrides from CLI arguments
    pub fn apply_overrides(self, overrides: &ServicesOverrides) -> (r: Self)
        ensures
            r == overridden(self, *overrides),
            self.names_distinct() ==> r.names_distinct(),
    {
        let mut c = self;
        if c.tui.enable.is_none() {
            c.tui.enable = Some(true);
        }
        if overrides.no_mcp {
            c.mcp.enable = false;
        }
        if overrides.no_tui {
            c.tui.enable = Some(false);
        }
        if overrides.no_runners {
            c.runners = None;
        }
        proof {
            if !overrides.no_runners {
                assert(c.names() == self.names());
            }
        }
        c
    }

    /// Get the names of all configured runners
    pub fn runner_names(&self) -> (names: Vec<String>)
        ensures
            names@.map_values(|s: String| s@) == self.names(),
    {
        let mut names: Vec<String> = Vec::new();
        match &self.runners {
            Some(runners) => {
                let mut i: usize = 0;
                while i < runners.len()
                    invariant
                        self.runners == Some(*runners),
                        i <= runners.len(),
                        names@.map_values(|s: String| s@) =~= self.names().take(i as int),
                    decreases runners.len() - i,
                {
                    names.push(runners[i].name.clone());
                    assert(self.names().take(i + 1) =~= self.names().take(i as int).push(
                        self.names()[i as int],
                    ));
                    i = i + 1;
                }
                assert(self.names().take(runners.len() as int) =~= self.names());
            },
            None => {},
        }
        assert(names@.map_values(|s: String| s@) =~= self.names());
        names
    }

    /// Determine if tracing should be enabled based on TUI configuration
    pub fn should_enable_tracing(&self) -> (r: bool)
        ensures
            r == self.tracing_enabled(),
    {
        !self.tui.enable.unwrap_or(false)
    }
}

impl Default for ServerConfig {
    /// One emulator runner, TUI on with `p` as power key, MCP off on
    /// `127.0.0.1:3000`.
    fn default() -> (c: Self)
        ensures
            c.tui.enable == Some(true),
            c.tui.power_toggle_key matches Some(k) && k@ == "p"@,
            !c.mcp.enable,
            c.mcp.host@ == "127.0.0.1"@,
            c.mcp.port == 3000,
            c.runners matches Some(r) && r.len() == 1 && r[0].name@ == "emulator"@
                && r[0].model@ == "emulator"@,
            c.names_distinct(),
    {
        let mut runners: Vec<RunnerEntry> = Vec::new();
        runners.push(
            RunnerEntry { name: String::from_str("emulator"), model: String::from_str("emulator") },
        );
        ServerConfig {
            tui: TuiConfig { enable: Some(true), power_toggle_key: Some(String::from_str("p")) },
            mcp: McpConfig { enable: false, host: String::from_str("127.0.0.1"), port: 3000 },
            runners: Some(runners),
        }
    }
}

/// The serialized URL list, or `[]` when serialization failed
pub fn json_or_empty_array(serialized: Option<String>) -> (r: String)
    ensures
        r@ == match serialized {
            Some(s) => s@,
            None => "[]"@,
        },
{
    match serialized {
        Some(s) => s,
        None => String::from_str("[]"),
    }
}

/// Name of the server configuration file, in the user's configuration directory
pub fn config_file_name() -> (r: String)
    ensures
        r@ == config_file_name_spec(),
{
    String::from_str("pza-").concat(SERVER_TYPE_NAME).concat("-server.json5")
}

// ---------------------------------------------------------------------------
// JSON

#[verifier::external_type_specification]
#[verifier::external_body]
pub struct ExJsonError(serde_json::Error);

/// Hexadecimal digit of `n`, lower case.
pub open spec fn hex_digit(n: int) -> char {
    "0123456789abcdef"@[n]
}

/// How a JSON string writes character `c`: quote and backslash escaped,
/// `\b`, `\t`, `\n`, `\f`, `\r` for those controls, `\u00XX` for the other
/// controls below U+0020, every other character as it is.
pub open spec fn json_escape(c: char) -> Seq<char> {
    let n = c as int;
    if c == '"' {
        seq!['\\', '"']
    } else if c == '\\' {
        seq!['\\', '\\']
    } else if n == 8 {
        seq!['\\', 'b']
    } else if n == 9 {
        seq!['\\', 't']
    } else if n == 10 {
        seq!['\\', 'n']
    } else if n == 12 {
        seq!['\\', 'f']
    } else if n == 13 {
        seq!['\\', 'r']
    } else if n < 32 {
        seq!['\\', 'u', '0', '0', hex_digit(n / 16), hex_digit(n % 16)]
    } else {
        seq![c]
    }
}

/// The characters of `s`, each escaped for a JSON string.
pub open spec fn json_escaped(s: Seq<char>) -> Seq<char>
    decreases s.len(),
{
    if s.len() == 0 {
        Seq::empty()
    } else {
        json_escaped(s.drop_last()) + json_escape(s.last())
    }
}

/// `s` as a JSON string literal.
pub open spec fn json_quoted(s: Seq<char>) -> Seq<char> {
    "\""@ + json_escaped(s) + "\""@
}

/// The items of a pretty-printed array, each on a line of its own indented by
/// two spaces, separated by commas.
pub open spec fn json_pretty_items(items: Seq<Seq<char>>) -> Seq<char>
    decreases items.len(),
{
    if items.len() == 0 {
        Seq::empty()
    } else if items.len() == 1 {
        "\n  "@ + json_quoted(items[0])
    } else {
        json_pretty_items(items.drop_last()) + ",\n  "@ + json_quoted(items.last())
    }
}

/// The pretty-printed JSON array of the strings `items`, as
/// `serde_json::to_string_pretty` writes it: `[]` when empty.
pub open spec fn json_pretty_string_array(items: Seq<Seq<char>>) -> Seq<char> {
    if items.len() == 0 {
        "[]"@
    } else {
        "["@ + json_pretty_items(items) + "\n]"@
    }
}

/// Calls `serde_json::to_string_pretty` on a list of strings. A string always
/// serializes and the writer is an in-memory buffer, so the call succeeds.
/// The pretty formatter opens the array with `[`, writes each item on a new
/// line after two spaces of indent, separates items with commas, and closes
/// with a new line and `]` (just `[]` for an empty list); each string is
/// quoted and escaped as `json_escape` states.
#[verifier::external_body]
fn to_json_pretty(items: &Vec<String>) -> (r: Result<String, serde_json::Error>)
    ensures
        r is Ok,
        r matches Ok(text) ==> text@ == json_pretty_string_array(items@.map_values(|s: String| s@)),
{
    serde_json::to_string_pretty(items)
}

// ---------------------------------------------------------------------------
// Laws

/// Applying the same overrides twice changes nothing more.
pub proof fn lemma_overrides_idempotent(c: ServerConfig, o: ServicesOverrides)
    ensures
        overridden(overridden(c, o), o) == overridden(c, o),
{
}

/// After the overrides the TUI setting is always explicit, and tracing is on
/// exactly when the TUI was disabled by the command line or the configuration.
pub proof fn lemma_overrides_settle_tui(c: ServerConfig, o: ServicesOverrides)
    ensures
        overridden(c, o).tui.enable is Some,
        overridden(c, o).tracing_enabled() == (o.no_tui || c.tui.enable == Some(false)),
{
    match c.tui.enable {
        Some(b) => assert(b || c.tui.enable == Some(false)),
        None => {},
    }
}

/// Each override touches only its own service: `--no-mcp` and nothing else
/// turns MCP off, `--no-tui` and nothing else turns the TUI off (an unset TUI
/// setting otherwise becomes on), `--no-runners` and nothing else drops the
/// runners; the MCP address and the power key are never changed.
pub proof fn lemma_overrides_touch_own_service(c: ServerConfig, o: ServicesOverrides)
    ensures
        o.no_mcp ==> !overridden(c, o).mcp.enable,
        !o.no_mcp ==> overridden(c, o).mcp.enable == c.mcp.enable,
        o.no_tui ==> overridden(c, o).tui.enable == Some(false),
        !o.no_tui ==> overridden(c, o).tui.enable == Some(
            match c.tui.enable {
                Some(b) => b,
                None => true,
            },
        ),
        o.no_runners ==> overridden(c, o).runners is None,
        !o.no_runners ==> overridden(c, o).runners == c.runners,
        overridden(c, o).mcp.host == c.mcp.host,
        overridden(c, o).mcp.port == c.mcp.port,
        overridden(c, o).tui.power_toggle_key == c.tui.power_toggle_key,
{
}

/// Disabling runners leaves no runner name, hence no MCP URL.
pub proof fn lemma_no_runners_no_names(c: ServerConfig, o: ServicesOverrides)
    requires
        o.no_runners,
    ensures
        overridden(c, o).names().len() == 0,
{
}

} // verus!
