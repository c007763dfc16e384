//! Thunderbolt link inspection: the report of `system_profiler` and the
//! width and speed of a PCIe tunnel.

use vstd::prelude::*;
use crate::text::{
    chars_of, contains_seq, contains_str, equals_str, lines, lower_seq, parse_bounded, parse_decimal,
    slice_from, split_lines, strip_prefix_seq, strip_prefix_str, to_ascii_lower, trim, trim_chars,
    views,
};
use super::MigrationError;

verus! {

broadcast use vstd::string::group_string_axioms;

/// Number of PCIe lanes of a link, between 1 and 16.
#[derive(Debug, Clone, Copy, PartialEq, Eq, Structural)]
pub struct LinkWidth(u8);

impl View for LinkWidth {
    type V = u8;

    closed spec fn view(&self) -> u8 {
        self.0
    }
}

/// Removes every leading `c`, as `str::trim_start_matches` with a `char` does.
pub open spec fn strip_leading(s: Seq<char>, c: char) -> Seq<char>
    decreases s.len(),
{
    if s.len() > 0 && s[0] == c {
        strip_leading(s.drop_first(), c)
    } else {
        s
    }
}

pub fn strip_leading_chars(s: &Vec<char>, c: char) -> (r: Vec<char>)
    ensures
        r@ == strip_leading(s@, c),
{
    let mut i: usize = 0;
    assert(s@.skip(0) =~= s@);
    while i < s.len() && s[i] == c
        invariant
            i <= s.len(),
            strip_leading(s@, c) == strip_leading(s@.skip(i as int), c),
        decreases s.len() - i,
    {
        assert(s@.skip(i as int).drop_first() =~= s@.skip(i + 1));
        i = i + 1;
    }
    proof {
        if i < s.len() {
            assert(s@.skip(i as int)[0] == s@[i as int]);
        } else {
            assert(s@.skip(i as int).len() == 0);
        }
    }
    slice_from(s, i)
}

/// The lane count `LinkWidth::parse` reads from a report value, if any.
pub open spec fn width_lanes(value: Seq<char>) -> Option<nat> {
    parse_bounded(strip_leading(trim(value), 'x'), 255)
}

pub open spec fn valid_lanes(lanes: int) -> bool {
    1 <= lanes <= 16
}

/// The width of `lanes` lanes.
pub closed spec fn width_of(lanes: u8) -> LinkWidth {
    LinkWidth(lanes)
}

pub broadcast proof fn lemma_width_of(lanes: u8)
    ensures
        (#[trigger] width_of(lanes))@ == lanes,
{
}

/// What `LinkWidth::parse` returns for a report value.
pub open spec fn parse_width(value: Seq<char>) -> Result<LinkWidth, MigrationError> {
    match width_lanes(value) {
        Some(n) => if valid_lanes(n as int) {
            Ok(width_of(n as u8))
        } else {
            Err(MigrationError::InvalidInput("link width"))
        },
        None => Err(MigrationError::InvalidInput("link width")),
    }
}

impl LinkWidth {
    pub fn new(lanes: u8) -> (r: Result<Self, MigrationError>)
        ensures
            valid_lanes(lanes as int) ==> (r matches Ok(w) && w@ == lanes),
            !valid_lanes(lanes as int) ==> r == Err::<Self, MigrationError>(
                MigrationError::InvalidInput("link width"),
            ),
    {
        if lanes == 0 || lanes > 16 {
            return Err(MigrationError::InvalidInput("link width"));
        }
        Ok(Self(lanes))
    }

    pub fn lanes(self) -> (r: u8)
        ensures
            r == self@,
    {
        self.0
    }

    /// Reads a width such as `x4`: surrounding whitespace and leading `x`
    /// are ignored.
    pub fn parse(value: &str) -> (r: Result<Self, MigrationError>)
        ensures
            r == parse_width(value@),
    {
        let chars = chars_of(value);
        Self::parse_chars(&chars)
    }

    pub fn parse_chars(chars: &Vec<char>) -> (r: Result<Self, MigrationError>)
        ensures
            r == parse_width(chars@),
    {
        let trimmed = trim_chars(chars);
        let digits = strip_leading_chars(&trimmed, 'x');
        match parse_decimal(&digits, 255) {
            Some(v) => {
                let lanes = v as u8;
                Self::new(lanes)
            },
            None => Err(MigrationError::InvalidInput("link width")),
        }
    }
}

/// PCIe generation of a link, by its transfer rate.
#[derive(Debug, Clone, Copy, PartialEq, Eq, Structural)]
pub enum LinkSpeed {
    Gt8,
    Gt16,
}

/// What `LinkSpeed::parse` returns for a report value.
pub open spec fn parse_speed(value: Seq<char>) -> Result<LinkSpeed, MigrationError> {
    if trim(value) == "8.0 GT/s"@ {
        Ok(LinkSpeed::Gt8)
    } else if trim(value) == "16.0 GT/s"@ {
        Ok(LinkSpeed::Gt16)
    } else {
        Err(MigrationError::InvalidInput("link speed"))
    }
}

impl LinkSpeed {
    pub fn gt_per_second(self) -> (r: u8)
        ensures
            r == (match self {
                LinkSpeed::Gt8 => 8u8,
                LinkSpeed::Gt16 => 16u8,
            }),
    {
        match self {
            Self::Gt8 => 8,
            Self::Gt16 => 16,
        }
    }

    pub fn parse(value: &str) -> (r: Result<Self, MigrationError>)
        ensures
            r == parse_speed(value@),
    {
        let chars = chars_of(value);
        Self::parse_chars(&chars)
    }

    pub fn parse_chars(value: &Vec<char>) -> (r: Result<Self, MigrationError>)
        ensures
            r == parse_speed(value@),
    {
        let t = trim_chars(value);
        if equals_str(&t, "8.0 GT/s") {
            Ok(Self::Gt8)
        } else if equals_str(&t, "16.0 GT/s") {
            Ok(Self::Gt16)
        } else {
            Err(MigrationError::InvalidInput("link speed"))
        }
    }
}

/// Whether a Thunderbolt port reports an attached device.
#[derive(Debug, Clone, Copy, PartialEq, Eq, Structural)]
pub enum PortStatus {
    Connected,
    Disconnected,
}

/// What `PortStatus::parse` returns: the lower-cased, trimmed value mentions
/// `connected` and does not mention `no device`.
pub open spec fn port_status(value: Seq<char>) -> PortStatus {
    let v = lower_seq(trim(value));
    if contains_seq(v, "connected"@) && !contains_seq(v, "no device"@) {
        PortStatus::Connected
    } else {
        PortStatus::Disconnected
    }
}

impl PortStatus {
    pub fn parse(value: &str) -> (r: Self)
        ensures
            r == port_status(value@),
    {
        let chars = chars_of(value);
        Self::parse_chars(&chars)
    }

    pub fn parse_chars(value: &Vec<char>) -> (r: Self)
        ensures
            r == port_status(value@),
    {
        let t = trim_chars(value);
        let v = to_ascii_lower(&t);
        if contains_str(&v, "connected") && !contains_str(&v, "no device") {
            Self::Connected
        } else {
            Self::Disconnected
        }
    }
}

/// The PCIe tunnel of a connected Thunderbolt port.
#[derive(Debug, Clone, Copy, PartialEq, Eq, Structural)]
pub struct BusInspection {
    pub width: LinkWidth,
    pub speed: LinkSpeed,
}

/// What has been read of the current port while scanning a report.
#[derive(Debug, Clone, Copy, PartialEq, Eq, Structural)]
pub struct PortScan {
    pub port: bool,
    pub connected: bool,
    pub width: Option<LinkWidth>,
    pub speed: Option<LinkSpeed>,
}

pub open spec fn scan_start() -> PortScan {
    PortScan { port: false, connected: false, width: None, speed: None }
}

pub open spec fn new_port() -> PortScan {
    PortScan { port: true, connected: false, width: None, speed: None }
}

/// The link of a port whose block has been read, when it is complete.
pub open spec fn scan_found(st: PortScan) -> Option<BusInspection> {
    if st.connected && st.width is Some && st.speed is Some {
        Some(BusInspection { width: st.width.unwrap(), speed: st.speed.unwrap() })
    } else {
        None
    }
}

/// One trimmed line of a port block: `Status:`, `Link Width:` and
/// `Link Speed:` each replace what they describe.
pub open spec fn scan_line(st: PortScan, line: Seq<char>) -> PortScan {
    PortScan {
        port: st.port,
        connected: match strip_prefix_seq(line, "Status:"@) {
            Some(v) => port_status(v) == PortStatus::Connected,
            None => st.connected,
        },
        width: match strip_prefix_seq(line, "Link Width:"@) {
            Some(v) => match parse_width(v) {
                Ok(w) => Some(w),
                Err(_) => None,
            },
            None => st.width,
        },
        speed: match strip_prefix_seq(line, "Link Speed:"@) {
            Some(v) => match parse_speed(v) {
                Ok(s) => Some(s),
                Err(_) => None,
            },
            None => st.speed,
        },
    }
}

/// The first complete connected port of a `system_profiler` report: a port
/// block starts at a `Port:` line and is judged when the next one starts or
/// the report ends; lines before the first block are ignored.
pub open spec fn bus_scan(ls: Seq<Seq<char>>, st: PortScan) -> Option<BusInspection>
    decreases ls.len(),
{
    if ls.len() == 0 {
        scan_found(st)
    } else {
        let line = trim(ls[0]);
        if line == "Port:"@ {
            match scan_found(st) {
                Some(b) => Some(b),
                None => bus_scan(ls.drop_first(), new_port()),
            }
        } else if !st.port {
            bus_scan(ls.drop_first(), st)
        } else {
            bus_scan(ls.drop_first(), scan_line(st, line))
        }
    }
}

/// What `BusInspection::parse` returns for a report.
pub open spec fn parse_bus(report: Seq<char>) -> Result<BusInspection, MigrationError> {
    match bus_scan(lines(report), scan_start()) {
        Some(b) => Ok(b),
        None => Err(
            MigrationError::InvalidInput("connected Thunderbolt link with PCIe width and speed"),
        ),
    }
}

fn scan_found_exec(st: &PortScan) -> (r: Option<BusInspection>)
    ensures
        r == scan_found(*st),
{
    if st.connected {
        match (st.width, st.speed) {
            (Some(width), Some(speed)) => Some(BusInspection { width, speed }),
            _ => None,
        }
    } else {
        None
    }
}

fn scan_line_exec(st: &PortScan, line: &Vec<char>) -> (r: PortScan)
    ensures
        r == scan_line(*st, line@),
{
    let mut next = *st;
    if let Some(v) = strip_prefix_str(line, "Status:") {
        next.connected = PortStatus::parse_chars(&v) == PortStatus::Connected;
    }
    if let Some(v) = strip_prefix_str(line, "Link Width:") {
        next.width = match LinkWidth::parse_chars(&v) {
            Ok(w) => Some(w),
            Err(_) => None,
        };
    }
    if let Some(v) = strip_prefix_str(line, "Link Speed:") {
        next.speed = match LinkSpeed::parse_chars(&v) {
            Ok(s) => Some(s),
            Err(_) => None,
        };
    }
    next
}

impl BusInspection {
    /// A migration needs an x4 tunnel.
    pub fn qualifies(self) -> (r: bool)
        ensures
            r == (self.width@ == 4),
    {
        self.width.lanes() == 4
    }

    pub fn parse(report: &str) -> (r: Result<Self, MigrationError>)
        ensures
            r == parse_bus(report@),
    {
        let chars = chars_of(report);
        let ls = split_lines(&chars);
        let ghost all = views(ls@);
        let mut st = PortScan { port: false, connected: false, width: None, speed: None };
        let mut i: usize = 0;
        assert(all.skip(0) =~= all);
        while i < ls.len()
            invariant
                all == views(ls@),
                all == lines(report@),
                i <= ls.len(),
                bus_scan(all, scan_start()) == bus_scan(all.skip(i as int), st),
            decreases ls.len() - i,
        {
            let ghost rest = all.skip(i as int);
            assert(rest.drop_first() =~= all.skip(i + 1));
            assert(rest[0] == ls@[i as int]@);
            let line = trim_chars(&ls[i]);
            if equals_str(&line, "Port:") {
                if let Some(b) = scan_found_exec(&st) {
                    return Ok(b);
                }
                st = PortScan { port: true, connected: false, width: None, speed: None };
            } else if st.port {
                st = scan_line_exec(&st, &line);
            }
            i = i + 1;
        }
        assert(all.skip(i as int).len() == 0);
        match scan_found_exec(&st) {
            Some(b) => Ok(b),
            None => Err(
                MigrationError::InvalidInput("connected Thunderbolt link with PCIe width and speed"),
            ),
        }
    }
}

/// Arguments of `system_profiler` that print the Thunderbolt report.
pub fn profiler_arguments() -> (r: [&'static str; 1])
    ensures
        r@ == seq!["SPThunderboltDataType"],
{
    ["SPThunderboltDataType"]
}

} // verus!
