use vstd::prelude::*;
use vstd::string::StringExecFns;

verus! {

/// Whether the server runs locally in the clear or publicly behind TLS.
#[derive(Clone, Copy, Debug, PartialEq, Eq, Structural)]
pub enum Mode {
    Dev,
    Prod,
}

/// The value of the mode selector that chooses production.
pub const PROD_SELECTOR: &'static str = "prod";

/// Loopback address and development port.
pub const DEV_ADDRESS: &'static str = "127.0.0.1:8080";

/// All interfaces, standard TLS port.
pub const PROD_ADDRESS: &'static str = "0.0.0.0:443";

pub open spec fn option_view(value: Option<&str>) -> Option<Seq<char>> {
    match value {
        Some(v) => Some(v@),
        None => None,
    }
}

/// The mode chosen by the selector: exactly `"prod"` selects production;
/// any other value, or no value at all, selects development.
pub open spec fn mode_of(value: Option<Seq<char>>) -> Mode {
    match value {
        Some(v) => if v == PROD_SELECTOR@ { Mode::Prod } else { Mode::Dev },
        None => Mode::Dev,
    }
}

/// The address the listener binds in each mode.
pub open spec fn address_of(mode: Mode) -> Seq<char> {
    match mode {
        Mode::Dev => DEV_ADDRESS@,
        Mode::Prod => PROD_ADDRESS@,
    }
}

/// Whether a mode serves its connections over TLS.
pub open spec fn uses_tls(mode: Mode) -> bool {
    mode == Mode::Prod
}

pub fn parse_mode(value: Option<&str>) -> (r: Mode)
    ensures
        r == mode_of(option_view(value)),
{
    match value {
        Some(v) => {
            if str_eq(v, PROD_SELECTOR) {
                Mode::Prod
            } else {
                Mode::Dev
            }
        },
        None => Mode::Dev,
    }
}

pub fn bind_address(mode: Mode) -> (r: String)
    ensures
        r@ == address_of(mode),
{
    match mode {
        Mode::Dev => String::from_str(DEV_ADDRESS),
        Mode::Prod => String::from_str(PROD_ADDRESS),
    }
}

pub fn requires_tls(mode: Mode) -> (r: bool)
    ensures
        r == uses_tls(mode),
{
    match mode {
        Mode::Dev => false,
        Mode::Prod => true,
    }
}

fn str_eq(a: &str, b: &str) -> (r: bool)
    ensures
        r == (a@ == b@),
{
    let n = a.unicode_len();
    if n != b.unicode_len() {
        return false;
    }
    let mut i: usize = 0;
    while i < n
        invariant
            n == a@.len(),
            n == b@.len(),
            i <= n,
            forall|j: int| 0 <= j < i ==> a@[j] == b@[j],
        decreases n - i,
    {
        if a.get_char(i) != b.get_char(i) {
            return false;
        }
        i = i + 1;
    }
    assert(a@ =~= b@);
    true
}

/// The server's configuration, fixed once at startup: its mode and the
/// address that mode binds.
pub struct ServerConfig {
    mode: Mode,
    bind_address: String,
}

impl ServerConfig {
    /// The address always matches the mode.
    pub open spec fn wf(&self) -> bool {
        self.spec_bind_address() == address_of(self.spec_mode())
    }

    pub closed spec fn spec_mode(&self) -> Mode {
        self.mode
    }

    pub closed spec fn spec_bind_address(&self) -> Seq<char> {
        self.bind_address@
    }

    pub fn new(mode: Mode) -> (r: ServerConfig)
        ensures
            r.spec_mode() == mode,
            r.wf(),
    {
        ServerConfig { mode, bind_address: bind_address(mode) }
    }

    /// The configuration chosen by the value of the mode selector, if any.
    pub fn from_mode_value(value: Option<&str>) -> (r: ServerConfig)
        ensures
            r.spec_mode() == mode_of(option_view(value)),
            r.wf(),
    {
        ServerConfig::new(parse_mode(value))
    }

    pub fn mode(&self) -> (r: Mode)
        ensures
            r == self.spec_mode(),
    {
        self.mode
    }

    pub fn bind_address(&self) -> (r: &str)
        ensures
            r@ == self.spec_bind_address(),
    {
        self.bind_address.as_str()
    }

    pub fn uses_tls(&self) -> (r: bool)
        ensures
            r == uses_tls(self.spec_mode()),
    {
        requires_tls(self.mode)
    }
}

} // verus!
