//! Server configuration and its command-line parser.
//!
//! Arguments come in pairs: `-a <ipv4>:<port>` sets the TCP bind
//! address and `-b <n>` the TCP read buffer size.  An odd total count
//! (program name included, so an even number of real arguments) is
//! well formed; anything else is a usage error.

use crate::messages::{Ipv4Address, SocketAddress};
use vstd::prelude::*;
use vstd::string::StringSliceAdditionalSpecFns;
use vstd::utf8::encode_utf8;

verus! {

/// What the server reads from the command line.
#[derive(Clone, Copy, Debug, PartialEq, Eq, Structural)]
pub struct Config {
    /// The TCP bind address.
    pub address: SocketAddress,
    /// TCP read buffer size in bytes.
    pub buffer_size: usize,
}

/// A malformed command line.
#[derive(Clone, Copy, Debug, PartialEq, Eq, Structural)]
pub enum ConfigError {
    /// The total argument count is even: the pairs do not line up.
    InvalidArgumentCount,
    /// The value after `-a` is not of the form `##.##.##.##:port`.
    InvalidAddress,
    /// The value after `-b` is not a buffer size.
    InvalidBufferSize,
}

impl Config {
    /// The built-in configuration: bind `127.0.0.1:8080`, 256-byte
    /// read buffer.
    pub open spec fn spec_default() -> Config {
        Config {
            address: SocketAddress {
                ip: Ipv4Address { a: 127, b: 0, c: 0, d: 1 },
                port: 8080,
            },
            buffer_size: 256,
        }
    }

    pub fn default() -> (r: Config)
        ensures
            r == Self::spec_default(),
    {
        Config {
            address: SocketAddress {
                ip: Ipv4Address { a: 127, b: 0, c: 0, d: 1 },
                port: 8080,
            },
            buffer_size: 256,
        }
    }

    pub fn new(address: SocketAddress, buffer_size: usize) -> (r: Config)
        ensures
            r == (Config { address, buffer_size }),
    {
        Config { address, buffer_size }
    }
}

/// A decimal digit byte.
pub open spec fn spec_is_digit(b: u8) -> bool {
    48 <= b <= 57
}

pub open spec fn spec_is_digits(s: Seq<u8>) -> bool {
    forall|i: int| 0 <= i < s.len() ==> spec_is_digit(#[trigger] s[i])
}

/// The value of a digit string, most significant digit first.
pub open spec fn spec_decimal_value(s: Seq<u8>) -> nat
    decreases s.len(),
{
    if s.len() == 0 {
        0
    } else {
        spec_decimal_value(s.drop_last()) * 10 + (s.last() - 48) as nat
    }
}

/// A non-empty all-digit string parses to its value; anything else is
/// rejected.
pub open spec fn spec_parse_decimal(s: Seq<u8>) -> Option<nat> {
    if s.len() > 0 && spec_is_digits(s) {
        Some(spec_decimal_value(s))
    } else {
        None
    }
}

/// Appending digits never shrinks the value.
proof fn lemma_decimal_value_monotone(s: Seq<u8>, k: int)
    requires
        0 <= k <= s.len(),
    ensures
        spec_decimal_value(s.take(k)) <= spec_decimal_value(s),
    decreases s.len() - k,
{
    if k < s.len() {
        lemma_decimal_value_monotone(s, k + 1);
        assert(s.take(k + 1).drop_last() =~= s.take(k));
        assert(spec_decimal_value(s.take(k)) <= spec_decimal_value(s.take(k + 1)));
    } else {
        assert(s.take(k) =~= s);
    }
}

/// Parse a decimal string, rejecting values above `cap`.
fn parse_decimal_capped(s: &[u8], cap: u64) -> (r: Option<u64>)
    ensures
        r == match spec_parse_decimal(s@) {
            Some(v) => if v <= cap {
                Some(v as u64)
            } else {
                None::<u64>
            },
            None => None::<u64>,
        },
{
    if s.len() == 0 {
        return None;
    }
    let mut acc: u128 = 0;
    let mut i: usize = 0;
    while i < s.len()
        invariant
            0 < s@.len(),
            i <= s@.len(),
            spec_is_digits(s@.take(i as int)),
            acc == spec_decimal_value(s@.take(i as int)),
            acc <= cap as u128,
        decreases s@.len() - i,
    {
        let b = s[i];
        if b < 48 || b > 57 {
            assert(!spec_is_digits(s@));
            return None;
        }
        acc = acc * 10 + (b - 48) as u128;
        assert(s@.take(i + 1).drop_last() =~= s@.take(i as int));
        assert(acc == spec_decimal_value(s@.take(i + 1)));
        if acc > cap as u128 {
            proof {
                if spec_is_digits(s@) {
                    lemma_decimal_value_monotone(s@, i + 1);
                }
            }
            return None;
        }
        i = i + 1;
    }
    assert(s@.take(i as int) =~= s@);
    Some(acc as u64)
}

/// Parsing of one IPv4 octet.
pub open spec fn spec_parse_u8(s: Seq<u8>) -> Option<u8> {
    match spec_parse_decimal(s) {
        Some(v) => if v <= 255 {
            Some(v as u8)
        } else {
            None
        },
        None => None,
    }
}

fn parse_u8(s: &[u8]) -> (r: Option<u8>)
    ensures
        r == spec_parse_u8(s@),
{
    match parse_decimal_capped(s, 255) {
        Some(v) => Some(v as u8),
        None => None,
    }
}

/// Parsing of a port number.
pub open spec fn spec_parse_u16(s: Seq<u8>) -> Option<u16> {
    match spec_parse_decimal(s) {
        Some(v) => if v <= 65535 {
            Some(v as u16)
        } else {
            None
        },
        None => None,
    }
}

fn parse_u16(s: &[u8]) -> (r: Option<u16>)
    ensures
        r == spec_parse_u16(s@),
{
    match parse_decimal_capped(s, 65535) {
        Some(v) => Some(v as u16),
        None => None,
    }
}

/// Parsing of a buffer size.
pub open spec fn spec_parse_usize(s: Seq<u8>) -> Option<usize> {
    match spec_parse_decimal(s) {
        Some(v) => if v <= usize::MAX {
            Some(v as usize)
        } else {
            None
        },
        None => None,
    }
}

fn parse_usize(s: &[u8]) -> (r: Option<usize>)
    ensures
        r == spec_parse_usize(s@),
{
    match parse_decimal_capped(s, usize::MAX as u64) {
        Some(v) => Some(v as usize),
        None => None,
    }
}

/// Position of the first occurrence of `sep`.
pub open spec fn spec_find(s: Seq<u8>, sep: u8) -> Option<int>
    decreases s.len(),
{
    if s.len() == 0 {
        None
    } else if s[0] == sep {
        Some(0)
    } else {
        match spec_find(s.drop_first(), sep) {
            Some(j) => Some(j + 1),
            None => None,
        }
    }
}

proof fn lemma_find_props(s: Seq<u8>, sep: u8)
    ensures
        match spec_find(s, sep) {
            Some(i) => 0 <= i < s.len() && s[i] == sep && (forall|j: int|
                0 <= j < i ==> s[j] != sep),
            None => forall|j: int| 0 <= j < s.len() ==> s[j] != sep,
        },
    decreases s.len(),
{
    if s.len() > 0 && s[0] != sep {
        lemma_find_props(s.drop_first(), sep);
        match spec_find(s.drop_first(), sep) {
            Some(j) => {
                assert(s[j + 1] == s.drop_first()[j]);
                assert forall|t: int| 0 <= t < j + 1 implies s[t] != sep by {
                    if t > 0 {
                        assert(s[t] == s.drop_first()[t - 1]);
                    }
                }
            },
            None => {
                assert forall|t: int| 0 <= t < s.len() implies s[t] != sep by {
                    if t > 0 {
                        assert(s[t] == s.drop_first()[t - 1]);
                    }
                }
            },
        }
    }
}

proof fn lemma_find_first(s: Seq<u8>, sep: u8, i: int)
    requires
        0 <= i < s.len(),
        s[i] == sep,
        forall|j: int| 0 <= j < i ==> s[j] != sep,
    ensures
        spec_find(s, sep) == Some(i),
    decreases i,
{
    if i > 0 {
        assert(forall|j: int| 0 <= j < s.drop_first().len() ==> s.drop_first()[j] == s[j + 1]);
        lemma_find_first(s.drop_first(), sep, i - 1);
    }
}

fn find_byte(s: &[u8], sep: u8) -> (r: Option<usize>)
    ensures
        match r {
            Some(i) => spec_find(s@, sep) == Some(i as int),
            None => spec_find(s@, sep) is None,
        },
{
    let mut i: usize = 0;
    while i < s.len()
        invariant
            i <= s@.len(),
            forall|j: int| 0 <= j < i ==> s@[j] != sep,
        decreases s@.len() - i,
    {
        if s[i] == sep {
            proof {
                lemma_find_first(s@, sep, i as int);
            }
            return Some(i);
        }
        i = i + 1;
    }
    proof {
        lemma_find_props(s@, sep);
    }
    None
}

/// Split at every occurrence of `sep`; `n` separators give `n + 1`
/// parts, empty parts included.
pub open spec fn spec_split(s: Seq<u8>, sep: u8) -> Seq<Seq<u8>>
    decreases s.len(),
    via spec_split_decreases
{
    match spec_find(s, sep) {
        None => seq![s],
        Some(i) => seq![s.take(i)] + spec_split(s.skip(i + 1), sep),
    }
}

#[via_fn]
proof fn spec_split_decreases(s: Seq<u8>, sep: u8) {
    lemma_find_props(s, sep);
}

fn split_bytes(s: &[u8], sep: u8) -> (parts: Vec<Vec<u8>>)
    ensures
        parts@.map_values(|v: Vec<u8>| v@) == spec_split(s@, sep),
{
    let mut parts: Vec<Vec<u8>> = Vec::new();
    let mut rest: &[u8] = s;
    proof {
        assert(parts@.map_values(|v: Vec<u8>| v@) + spec_split(rest@, sep) =~= spec_split(
            s@,
            sep,
        ));
    }
    loop
        invariant
            parts@.map_values(|v: Vec<u8>| v@) + spec_split(rest@, sep) == spec_split(s@, sep),
        decreases rest@.len(),
    {
        match find_byte(rest, sep) {
            Some(i) => {
                proof {
                    lemma_find_props(rest@, sep);
                    assert(0 <= (i as int) && (i as int) < rest@.len());
                }
                let ghost old_parts = parts@;
                let ghost old_rest = rest@;
                let head = vstd::slice::slice_to_vec(&rest[0..i]);
                parts.push(head);
                let rlen = rest.len();
                rest = &rest[(i + 1)..rlen];
                proof {
                    assert(parts@.map_values(|v: Vec<u8>| v@) =~= old_parts.map_values(
                        |v: Vec<u8>| v@,
                    ).push(old_rest.take(i as int)));
                    assert(rest@ =~= old_rest.skip(i + 1));
                    assert(parts@.map_values(|v: Vec<u8>| v@) + spec_split(rest@, sep)
                        =~= old_parts.map_values(|v: Vec<u8>| v@) + spec_split(old_rest, sep));
                }
            },
            None => {
                let ghost old_parts = parts@;
                parts.push(vstd::slice::slice_to_vec(rest));
                proof {
                    assert(parts@.map_values(|v: Vec<u8>| v@) =~= old_parts.map_values(
                        |v: Vec<u8>| v@,
                    ).push(rest@));
                    assert(parts@.map_values(|v: Vec<u8>| v@) =~= old_parts.map_values(
                        |v: Vec<u8>| v@,
                    ) + spec_split(rest@, sep));
                }
                return parts;
            },
        }
    }
}

/// Parsing of `##.##.##.##:port`: exactly one colon, exactly four
/// dot-separated octets, every segment a decimal number in range.
pub open spec fn spec_parse_address(s: Seq<u8>) -> Option<SocketAddress> {
    let parts = spec_split(s, 58);  // ':'
    if parts.len() != 2 {
        None
    } else {
        let hosts = spec_split(parts[0], 46);  // '.'
        if hosts.len() != 4 {
            None
        } else {
            match (spec_parse_u8(hosts[0]), spec_parse_u8(hosts[1]), spec_parse_u8(hosts[2]),
            spec_parse_u8(hosts[3]), spec_parse_u16(parts[1])) {
                (Some(a), Some(b), Some(c), Some(d), Some(port)) => Some(
                    SocketAddress { ip: Ipv4Address { a, b, c, d }, port },
                ),
                _ => None,
            }
        }
    }
}

/// Parse a bind address of the form `##.##.##.##:port`.
pub fn parse_address(s: &[u8]) -> (r: Option<SocketAddress>)
    ensures
        r == spec_parse_address(s@),
{
    let parts = split_bytes(s, 58);
    if parts.len() != 2 {
        return None;
    }
    assert(parts@.map_values(|v: Vec<u8>| v@)[0] == spec_split(s@, 58)[0]);
    assert(parts@.map_values(|v: Vec<u8>| v@)[1] == spec_split(s@, 58)[1]);
    let hosts = split_bytes(parts[0].as_slice(), 46);
    if hosts.len() != 4 {
        return None;
    }
    let ghost hseq = spec_split(spec_split(s@, 58)[0], 46);
    assert(hosts@.map_values(|v: Vec<u8>| v@)[0] == hseq[0]);
    assert(hosts@.map_values(|v: Vec<u8>| v@)[1] == hseq[1]);
    assert(hosts@.map_values(|v: Vec<u8>| v@)[2] == hseq[2]);
    assert(hosts@.map_values(|v: Vec<u8>| v@)[3] == hseq[3]);
    let a = parse_u8(hosts[0].as_slice());
    let b = parse_u8(hosts[1].as_slice());
    let c = parse_u8(hosts[2].as_slice());
    let d = parse_u8(hosts[3].as_slice());
    let port = parse_u16(parts[1].as_slice());
    match (a, b, c, d, port) {
        (Some(a), Some(b), Some(c), Some(d), Some(port)) => Some(
            SocketAddress { ip: Ipv4Address { a, b, c, d }, port },
        ),
        _ => None,
    }
}

/// The UTF-8 bytes of one argument.
pub open spec fn spec_string_bytes(s: String) -> Seq<u8> {
    encode_utf8(s@)
}

pub open spec fn spec_args_bytes(args: Seq<String>) -> Seq<Seq<u8>> {
    args.map_values(|a: String| spec_string_bytes(a))
}

/// One argument pair applied to the configuration built so far.
/// Unknown flags are ignored.
pub open spec fn spec_apply_pair(cfg: Config, ptype: Seq<u8>, param: Seq<u8>) -> Result<
    Config,
    ConfigError,
> {
    if ptype == seq![45u8, 97u8] {  // "-a"
        match spec_parse_address(param) {
            Some(sa) => Ok(Config { address: sa, ..cfg }),
            None => Err(ConfigError::InvalidAddress),
        }
    } else if ptype == seq![45u8, 98u8] {  // "-b"
        match spec_parse_usize(param) {
            Some(n) => Ok(Config { buffer_size: n, ..cfg }),
            None => Err(ConfigError::InvalidBufferSize),
        }
    } else {
        Ok(cfg)
    }
}

/// The pairs `(args[i-1], args[i])` applied from the back of the
/// command line towards the front, so that the front-most occurrence
/// of a repeated flag wins.
pub open spec fn spec_run_args(args: Seq<Seq<u8>>, i: int, cfg: Config) -> Result<
    Config,
    ConfigError,
>
    recommends
        i < args.len(),
    decreases i,
{
    if i <= 1 {
        Ok(cfg)
    } else {
        match spec_apply_pair(cfg, args[i - 1], args[i]) {
            Ok(c2) => spec_run_args(args, i - 2, c2),
            Err(e) => Err(e),
        }
    }
}

/// What a whole command line (program name first) configures.
pub open spec fn spec_from_args(args: Seq<Seq<u8>>) -> Result<Config, ConfigError> {
    if args.len() % 2 == 0 {
        Err(ConfigError::InvalidArgumentCount)
    } else {
        spec_run_args(args, args.len() - 1, Config::spec_default())
    }
}

impl Config {
    /// Build a configuration from the command-line arguments (program
    /// name included).  Accepted pairs: `-a <ipv4>:<port>` and
    /// `-b <size>`; an even total count is a usage error.
    pub fn from_args(args: &Vec<String>) -> (r: Result<Config, ConfigError>)
        ensures
            r == spec_from_args(spec_args_bytes(args@)),
    {
        let ghost ab = spec_args_bytes(args@);
        if args.len() % 2 == 0 {
            return Err(ConfigError::InvalidArgumentCount);
        }
        let mut config = Config::default();
        let mut i: usize = args.len() - 1;
        while i > 1
            invariant
                i < args@.len(),
                ab == spec_args_bytes(args@),
                ab.len() == args@.len(),
                spec_from_args(ab) == spec_run_args(ab, i as int, config),
            decreases i,
        {
            let ptype: &String = &args[i - 1];
            let param: &String = &args[i];
            let pbytes = ptype.as_str().as_bytes();
            assert(pbytes@ == ab[i - 1]);
            let parambytes = param.as_str().as_bytes();
            assert(parambytes@ == ab[i as int]);
            if pbytes.len() == 2 && pbytes[0] == 45 && pbytes[1] == 97 {
                assert(ab[i - 1] =~= seq![45u8, 97u8]);
                match parse_address(parambytes) {
                    Some(sa) => {
                        config.address = sa;
                    },
                    None => {
                        return Err(ConfigError::InvalidAddress);
                    },
                }
            } else if pbytes.len() == 2 && pbytes[0] == 45 && pbytes[1] == 98 {
                assert(ab[i - 1] =~= seq![45u8, 98u8]);
                match parse_usize(parambytes) {
                    Some(n) => {
                        config.buffer_size = n;
                    },
                    None => {
                        return Err(ConfigError::InvalidBufferSize);
                    },
                }
            } else {
                proof {
                    if ab[i - 1] == seq![45u8, 97u8] {
                        assert(pbytes@[0] == 45 && pbytes@[1] == 97 && pbytes@.len() == 2);
                    }
                    if ab[i - 1] == seq![45u8, 98u8] {
                        assert(pbytes@[0] == 45 && pbytes@[1] == 98 && pbytes@.len() == 2);
                    }
                }
            }
            i = i - 2;
        }
        Ok(config)
    }
}

} // verus!
