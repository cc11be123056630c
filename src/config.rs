//! Startup configuration: the compression switch read from the command line,
//! the line logged about it, and the fixed listening address.

use vstd::prelude::*;

verus! {

/// The command-line flag that turns response compression on.
pub open spec fn compression_flag() -> Seq<char> {
    "gzip"@
}

/// The first argument after the program name, or the empty string when the
/// program got none.
pub open spec fn first_argument_of(args: Seq<Seq<char>>) -> Seq<char> {
    if args.len() > 1 {
        args[1]
    } else {
        Seq::empty()
    }
}

/// Whether the argument list asks for compressed responses.
pub open spec fn compression_requested(args: Seq<Seq<char>>) -> bool {
    first_argument_of(args) == compression_flag()
}

/// The line logged at startup for the chosen mode.
pub open spec fn mode_message_of(compressed: bool) -> Seq<char> {
    if compressed {
        "Using compressed responses!"@
    } else {
        "Not using compressed responses!"@
    }
}

/// Equality of two string slices, by their characters.
pub fn str_equal(a: &str, b: &str) -> (r: bool)
    ensures
        r == (a@ == b@),
{
    let x = a.to_owned();
    let y = b.to_owned();
    x == y
}

/// The first argument after the program name (`args[0]`), or an empty string.
pub fn first_argument(args: &Vec<String>) -> (r: String)
    ensures
        r@ == first_argument_of(args@.map_values(|s: String| s@)),
{
    if args.len() > 1 {
        args[1].clone()
    } else {
        String::new()
    }
}

/// The process-wide settings fixed at startup.
pub struct StartupConfig {
    pub compression_enabled: bool,
}

impl StartupConfig {
    /// Compression is on exactly when the flag is the literal `gzip`; any
    /// other value, the empty one included, leaves it off.
    pub fn from_flag(flag: &str) -> (r: StartupConfig)
        ensures
            r.compression_enabled == (flag@ == compression_flag()),
    {
        StartupConfig { compression_enabled: str_equal(flag, "gzip") }
    }

    /// Reads the settings from the full argument list, program name first.
    pub fn from_args(args: &Vec<String>) -> (r: StartupConfig)
        ensures
            r.compression_enabled == compression_requested(args@.map_values(|s: String| s@)),
    {
        let flag = first_argument(args);
        StartupConfig::from_flag(flag.as_str())
    }

    /// The human-readable line that states which mode was chosen.
    pub fn mode_message(&self) -> (r: String)
        ensures
            r@ == mode_message_of(self.compression_enabled),
    {
        if self.compression_enabled {
            "Using compressed responses!".to_owned()
        } else {
            "Not using compressed responses!".to_owned()
        }
    }
}

/// The startup line tells the two modes apart: it announces compression
/// exactly when the first argument is `gzip`, and says it is off for no
/// argument or any other value.
pub proof fn lemma_logged_mode(args: Seq<Seq<char>>)
    ensures
        compression_requested(args) ==> mode_message_of(compression_requested(args))
            == "Using compressed responses!"@,
        !compression_requested(args) ==> mode_message_of(compression_requested(args))
            == "Not using compressed responses!"@,
        mode_message_of(true) != mode_message_of(false),
{
    reveal_strlit("Using compressed responses!");
    reveal_strlit("Not using compressed responses!");
    assert(mode_message_of(true)[0] != mode_message_of(false)[0]);
}

/// The fixed address the server listens on: IPv4 octets and port.
pub fn listen_address() -> (r: ([u8; 4], u16))
    ensures
        r.0@ == seq![127u8, 0u8, 0u8, 1u8],
        r.1 == 55555,
{
    let octets: [u8; 4] = [127, 0, 0, 1];
    proof {
        assert(octets@ =~= seq![127u8, 0u8, 0u8, 1u8]);
    }
    (octets, 55555)
}

} // verus!
