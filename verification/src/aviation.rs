//! Flight identifiers, altitude text and the decisions of `!up`: which
//! aircraft become candidates and how the reply reads.

use vstd::prelude::*;
use crate::text::{
    all_hex, ascii_lower, decimal, is_ascii_hexdigit, join, signed_decimal, trim,
};
use crate::memory::inject::{join_strings, views_of};

verus! {

/// Most flights tracked at once.
pub const MAX_TRACKED_FLIGHTS: usize = 12;

/// Most flights one user may track.
pub const MAX_FLIGHTS_PER_USER: usize = 3;

/// Search radius around the location, in nautical miles.
pub const UP_SEARCH_RADIUS_NM: u16 = 15;

/// Most aircraft whose routes are looked up.
pub const UP_MAX_CANDIDATES: usize = 10;

/// Most aircraft listed in a reply.
pub const UP_MAX_RESULTS: usize = 5;

pub const UP_USAGE: &'static str = "Benutzung: !up <PLZ/ICAO/IATA/Ort> FDM";

pub const UP_FAILED: &'static str = "Da ist was schiefgelaufen FDM";

/// Unicode upper-casing (`str::to_uppercase`).
pub uninterp spec fn uppercase_text(s: Seq<char>) -> Seq<char>;

/// `str::to_uppercase`; the result is named. On ASCII text the Unicode
/// upper-case mapping is the ASCII one: `a`–`z` become `A`–`Z`, every other
/// ASCII character stays.
#[verifier::external_body]
pub(crate) fn to_uppercase(s: &str) -> (r: String)
    ensures
        r@ == uppercase_text(s@),
        crate::text::is_ascii_text(s@) ==> r@ == crate::text::ascii_upper(s@),
{
    s.to_uppercase()
}

/// Six ASCII hex digits: an ICAO24 address.
pub open spec fn is_hex_code(s: Seq<char>) -> bool {
    s.len() == 6 && all_hex(s)
}

/// Parsing is stable on ASCII input: the text a parse keeps is ASCII,
/// trimmed and upper-cased already, so parsing it again keeps it as it is
/// (and so decides hex or callsign the same way).
pub proof fn lemma_parse_text_stable(input: Seq<char>)
    requires
        crate::text::is_ascii_text(trim(input)),
    ensures
        crate::text::is_ascii_text(trim(crate::text::ascii_upper(trim(input)))),
        crate::text::ascii_upper(trim(crate::text::ascii_upper(trim(input)))) == crate::text::ascii_upper(
            trim(input),
        ),
{
    let t = trim(input);
    let u = crate::text::ascii_upper(t);
    crate::text::lemma_trim_ends(input);
    assert forall|i: int| 0 <= i < u.len() implies (#[trigger] u[i] as u32) < 128
        && crate::text::is_ws(u[i]) == crate::text::is_ws(t[i])
        && crate::text::ascii_upper_char(u[i]) == u[i] by {
        let c = t[i];
        assert((c as u32) < 128);
        if 'a' <= c && c <= 'z' {
            assert(u[i] == ((c as u32) - 32) as char);
            assert('A' <= u[i] && u[i] <= 'Z');
        }
    }
    if u.len() > 0 {
        assert(u.last() == u[u.len() - 1]);
        assert(t.last() == t[t.len() - 1]);
    }
    crate::text::lemma_trim_fixed(u);
    assert(crate::text::ascii_upper(u) =~= u);
}

/// A flight, by callsign or by ICAO24 hex address.
#[derive(Debug, Clone, PartialEq, Eq)]
pub enum FlightIdentifier {
    Callsign(String),
    Hex(String),
}

impl FlightIdentifier {
    /// The text the identifier holds.
    pub open spec fn text(&self) -> Seq<char> {
        match self {
            FlightIdentifier::Callsign(s) => s@,
            FlightIdentifier::Hex(s) => s@,
        }
    }

    /// Trimmed and upper-cased input; six hex digits are a hex address,
    /// anything else a callsign.
    pub fn parse(input: &str) -> (r: FlightIdentifier)
        ensures
            r.text() == uppercase_text(trim(input@)),
            (r is Hex) == is_hex_code(uppercase_text(trim(input@))),
            crate::text::is_ascii_text(trim(input@)) ==> r.text() == crate::text::ascii_upper(
                trim(input@),
            ),
    {
        let t = crate::text::trimmed(input);
        let u = to_uppercase(t.as_str());
        let cs = crate::text::chars_of(u.as_str());
        let mut hex = cs.len() == 6;
        let mut i: usize = 0;
        while hex && i < cs.len()
            invariant
                i <= cs@.len(),
                cs@ == u@,
                hex ==> cs@.len() == 6,
                hex ==> forall|j: int| 0 <= j < i ==> is_ascii_hexdigit(#[trigger] cs@[j]),
                !hex ==> !is_hex_code(cs@),
            decreases cs@.len() - i + (if hex { 1int } else { 0int }),
        {
            if crate::text::is_hexdigit(cs[i]) {
                i += 1;
            } else {
                hex = false;
            }
        }
        if hex {
            FlightIdentifier::Hex(u)
        } else {
            FlightIdentifier::Callsign(u)
        }
    }

    /// The callsign or hex value.
    pub fn as_str(&self) -> (r: &str)
        ensures
            r@ == self.text(),
    {
        match self {
            FlightIdentifier::Callsign(s) => s.as_str(),
            FlightIdentifier::Hex(s) => s.as_str(),
        }
    }

    /// What `Display` prints: the held text.
    pub fn to_string(&self) -> (r: String)
        ensures
            r@ == self.text(),
    {
        crate::text::owned(self.as_str())
    }

    /// A callsign identifier matches the callsign, a hex one the hex, in
    /// any ASCII case.
    pub fn matches(&self, callsign: Option<&str>, hex: Option<&str>) -> (r: bool)
        ensures
            r == match self {
                FlightIdentifier::Callsign(s) => callsign matches Some(c) && ascii_lower(c@)
                    == ascii_lower(s@),
                FlightIdentifier::Hex(s) => hex matches Some(h) && ascii_lower(h@) == ascii_lower(
                    s@,
                ),
            },
    {
        match self {
            FlightIdentifier::Callsign(s) => match callsign {
                Some(c) => crate::text::eq_ignore_ascii_case(c, s.as_str()),
                None => false,
            },
            FlightIdentifier::Hex(s) => match hex {
                Some(h) => crate::text::eq_ignore_ascii_case(h, s.as_str()),
                None => false,
            },
        }
    }
}

/// Phase of a tracked flight.
#[derive(Debug, Clone, Copy, PartialEq, Eq)]
pub enum FlightPhase {
    Unknown,
    Ground,
    Takeoff,
    Climb,
    Cruise,
    Descent,
    Approach,
    Landing,
}

impl FlightPhase {
    /// The phase's display name.
    pub fn as_str(self) -> (r: &'static str)
        ensures
            r@ == match self {
                FlightPhase::Unknown => "Unknown"@,
                FlightPhase::Ground => "Ground"@,
                FlightPhase::Takeoff => "Takeoff"@,
                FlightPhase::Climb => "Climb"@,
                FlightPhase::Cruise => "Cruise"@,
                FlightPhase::Descent => "Descent"@,
                FlightPhase::Approach => "Approach"@,
                FlightPhase::Landing => "Landing"@,
            },
    {
        proof {
            reveal_strlit("Unknown");
            reveal_strlit("Ground");
            reveal_strlit("Takeoff");
            reveal_strlit("Climb");
            reveal_strlit("Cruise");
            reveal_strlit("Descent");
            reveal_strlit("Approach");
            reveal_strlit("Landing");
        }
        match self {
            FlightPhase::Unknown => "Unknown",
            FlightPhase::Ground => "Ground",
            FlightPhase::Takeoff => "Takeoff",
            FlightPhase::Climb => "Climb",
            FlightPhase::Cruise => "Cruise",
            FlightPhase::Descent => "Descent",
            FlightPhase::Approach => "Approach",
            FlightPhase::Landing => "Landing",
        }
    }
}

/// Barometric altitude as reported: feet, or on the ground.
#[derive(Debug, Clone, Copy, PartialEq, Eq)]
pub enum AltBaro {
    Feet(i64),
    Ground,
}

/// Altitude text: a flight level from 1000 ft up, feet below, `GND`, or
/// `?` when unknown.
pub open spec fn altitude_text(alt: Option<AltBaro>) -> Seq<char> {
    match alt {
        Some(AltBaro::Feet(ft)) => if ft >= 1000 {
            "FL"@ + decimal((ft / 100) as nat)
        } else {
            signed_decimal(ft as int) + "ft"@
        },
        Some(AltBaro::Ground) => "GND"@,
        None => "?"@,
    }
}

pub fn format_altitude(alt: &Option<AltBaro>) -> (r: String)
    ensures
        r@ == altitude_text(*alt),
{
    proof {
        reveal_strlit("FL");
        reveal_strlit("ft");
        reveal_strlit("GND");
        reveal_strlit("?");
    }
    match alt {
        Some(AltBaro::Feet(ft)) => {
            if *ft >= 1000 {
                let n: u64 = (*ft / 100) as u64;
                crate::text::concat("FL", crate::text::decimal_string(n).as_str())
            } else {
                let mut s = crate::text::signed_decimal_string(*ft);
                crate::text::append(&mut s, "ft");
                s
            }
        },
        Some(AltBaro::Ground) => crate::text::owned("GND"),
        None => crate::text::owned("?"),
    }
}

/// The query of `!up`: its trimmed input, or the usage text when blank.
pub fn up_query(input: &str) -> (r: Result<String, &'static str>)
    ensures
        trim(input@).len() == 0 ==> (r matches Err(m) && m@ == UP_USAGE@),
        trim(input@).len() > 0 ==> (r matches Ok(q) && q@ == trim(input@)),
{
    let t = crate::text::trimmed(input);
    if crate::text::chars_of(t.as_str()).len() == 0 {
        Err(UP_USAGE)
    } else {
        Ok(t)
    }
}

/// The reply while the user's cooldown runs, given the remaining time as
/// text.
pub fn up_cooldown_reply(remaining: &str) -> (r: String)
    ensures
        r@ == "Bitte warte noch "@ + remaining@ + " Waiting"@,
{
    let mut s = crate::text::owned("Bitte warte noch ");
    crate::text::append(&mut s, remaining);
    crate::text::append(&mut s, " Waiting");
    s
}

/// What `!up` does with an invocation.
pub enum UpStart {
    /// Answer with this text and stop; the cooldown is not recorded.
    Reply(String),
    /// Record the sender's cooldown, then resolve this query and look up
    /// the aircraft above it.
    Lookup(String),
}

/// The first decisions of `!up`, in order: a blank input gets the usage
/// text, then a running cooldown (its remaining time rendered as
/// `cooldown_remaining`) gets the wait text; otherwise the trimmed input is
/// looked up.
pub fn start_up_command(input: &str, cooldown_remaining: Option<&str>) -> (r: UpStart)
    ensures
        trim(input@).len() == 0 ==> (r matches UpStart::Reply(t) && t@ == UP_USAGE@),
        trim(input@).len() > 0 ==> match cooldown_remaining {
            Some(rem) => r matches UpStart::Reply(t) && t@ == "Bitte warte noch "@ + rem@
                + " Waiting"@,
            None => r matches UpStart::Lookup(q) && q@ == trim(input@),
        },
{
    match up_query(input) {
        Err(usage) => UpStart::Reply(crate::text::owned(usage)),
        Ok(q) => match cooldown_remaining {
            Some(rem) => UpStart::Reply(up_cooldown_reply(rem)),
            None => UpStart::Lookup(q),
        },
    }
}

/// How resolving the location ended.
pub enum LocationOutcome {
    Found(String),
    PlzNotFound,
    NotFound,
    Failed,
}

/// The reply that ends `!up` early, if the location was not found.
pub fn location_reply(l: &LocationOutcome) -> (r: Option<&'static str>)
    ensures
        match l {
            LocationOutcome::Found(_) => r is None,
            LocationOutcome::PlzNotFound => r matches Some(m) && m@ == "Kenne ich nicht die PLZ FDM"@,
            LocationOutcome::NotFound => r matches Some(m) && m@ == "Kenne ich nicht FDM"@,
            LocationOutcome::Failed => r matches Some(m) && m@ == UP_FAILED@,
        },
{
    match l {
        LocationOutcome::Found(_) => None,
        LocationOutcome::PlzNotFound => Some("Kenne ich nicht die PLZ FDM"),
        LocationOutcome::NotFound => Some("Kenne ich nicht FDM"),
        LocationOutcome::Failed => Some(UP_FAILED),
    }
}

/// One aircraft near the location: its reported flight, and whether it
/// sits inside the visibility cone.
pub struct Sighting {
    pub flight: Option<String>,
    pub in_cone: bool,
}

/// Whether a sighting becomes a candidate.
pub open spec fn is_candidate(s: Sighting) -> bool {
    s.in_cone && (s.flight matches Some(f) && trim(f@).len() > 0)
}

/// The candidates among `ss`, in order, as (trimmed callsign, index).
pub open spec fn candidates(ss: Seq<Sighting>) -> Seq<(Seq<char>, int)>
    decreases ss.len(),
{
    if ss.len() == 0 {
        Seq::empty()
    } else {
        let rest = candidates(ss.drop_last());
        let last = ss.last();
        if is_candidate(last) {
            rest.push((trim(last.flight->0@), ss.len() - 1))
        } else {
            rest
        }
    }
}

pub open spec fn candidate_views(v: Seq<(String, usize)>) -> Seq<(Seq<char>, int)> {
    v.map_values(|p: (String, usize)| (p.0@, p.1 as int))
}

/// The first candidates among the sightings, at most
/// `UP_MAX_CANDIDATES` of them.
pub fn select_candidates(ss: &Vec<Sighting>) -> (r: Vec<(String, usize)>)
    ensures
        candidate_views(r@) == candidates(ss@).take(
            if candidates(ss@).len() < UP_MAX_CANDIDATES {
                candidates(ss@).len() as int
            } else {
                UP_MAX_CANDIDATES as int
            },
        ),
{
    let mut out: Vec<(String, usize)> = Vec::new();
    let mut i: usize = 0;
    while i < ss.len() && out.len() < UP_MAX_CANDIDATES
        invariant
            i <= ss@.len(),
            out@.len() <= UP_MAX_CANDIDATES,
            candidate_views(out@) == candidates(ss@.take(i as int)),
        decreases ss@.len() - i,
    {
        proof {
            assert(ss@.take(i + 1).drop_last() =~= ss@.take(i as int));
        }
        let s = &ss[i];
        if s.in_cone {
            match &s.flight {
                Some(f) => {
                    let t = crate::text::trimmed(f.as_str());
                    if crate::text::chars_of(t.as_str()).len() > 0 {
                        out.push((t, i));
                    }
                },
                None => {},
            }
        }
        i += 1;
        assert(candidate_views(out@) =~= candidates(ss@.take(i as int)));
    }
    proof {
        lemma_candidates_prefix(ss@, i as int);
        if i == ss@.len() {
            assert(ss@.take(i as int) =~= ss@);
        }
        assert(candidate_views(out@) =~= candidates(ss@).take(candidate_views(out@).len() as int));
    }
    out
}

/// The candidates of a prefix begin the candidates of the whole.
pub proof fn lemma_candidates_prefix(ss: Seq<Sighting>, i: int)
    requires
        0 <= i <= ss.len(),
    ensures
        candidates(ss.take(i)).len() <= candidates(ss).len(),
        candidates(ss.take(i)) =~= candidates(ss).take(candidates(ss.take(i)).len() as int),
    decreases ss.len() - i,
{
    if i < ss.len() {
        lemma_candidates_prefix(ss, i + 1);
        assert(ss.take(i + 1).drop_last() =~= ss.take(i));
        assert(candidates(ss.take(i)) =~= candidates(ss.take(i + 1)).take(
            candidates(ss.take(i)).len() as int,
        ));
    } else {
        assert(ss.take(i) =~= ss);
    }
}

/// The direction arrow for a cardinal direction.
pub fn direction_arrow(cardinal: &str) -> (r: &'static str)
    ensures
        r@ == if cardinal@ == "N"@ {
            "↑"@
        } else if cardinal@ == "NE"@ {
            "↗"@
        } else if cardinal@ == "E"@ {
            "→"@
        } else if cardinal@ == "SE"@ {
            "↘"@
        } else if cardinal@ == "S"@ {
            "↓"@
        } else if cardinal@ == "SW"@ {
            "↙"@
        } else if cardinal@ == "W"@ {
            "←"@
        } else if cardinal@ == "NW"@ {
            "↖"@
        } else {
            "?"@
        },
{
    if crate::text::str_eq(cardinal, "N") {
        "↑"
    } else if crate::text::str_eq(cardinal, "NE") {
        "↗"
    } else if crate::text::str_eq(cardinal, "E") {
        "→"
    } else if crate::text::str_eq(cardinal, "SE") {
        "↘"
    } else if crate::text::str_eq(cardinal, "S") {
        "↓"
    } else if crate::text::str_eq(cardinal, "SW") {
        "↙"
    } else if crate::text::str_eq(cardinal, "W") {
        "←"
    } else if crate::text::str_eq(cardinal, "NW") {
        "↖"
    } else {
        "?"
    }
}

/// An aircraft whose route was found.
pub struct UpEntry {
    pub callsign: String,
    pub aircraft_type: Option<String>,
    pub alt: Option<AltBaro>,
    pub origin_iata: String,
    pub destination_iata: String,
    /// The distance in nautical miles, already rendered with one decimal.
    pub distance_text: String,
    pub direction: String,
}

/// One listed aircraft: `CS (TYPE) ORG→DST ALT D.Dnm ARROW`.
pub open spec fn entry_text(e: UpEntry) -> Seq<char> {
    e.callsign@ + " ("@ + (match e.aircraft_type {
        Some(t) => t@,
        None => "?"@,
    }) + ") "@ + e.origin_iata@ + "→"@ + e.destination_iata@ + " "@ + altitude_text(e.alt)
        + " "@ + e.distance_text@ + "nm "@ + e.direction@
}

pub open spec fn listed_count(n: nat) -> nat {
    if n < UP_MAX_RESULTS {
        n
    } else {
        UP_MAX_RESULTS as nat
    }
}

/// The reply of `!up` over the entries found, or the failure text.
pub open spec fn up_reply(display_name: Seq<char>, entries: Seq<UpEntry>, failed: bool) -> Seq<
    char,
> {
    if failed {
        UP_FAILED@
    } else if entries.len() == 0 {
        "Nix los über "@ + display_name
    } else {
        "✈ "@ + decimal(entries.len()) + " Flieger über "@ + display_name + ": "@ + join(
            Seq::new(listed_count(entries.len()), |i: int| entry_text(entries[i])),
            " | "@,
        )
    }
}

fn entry_line(e: &UpEntry) -> (r: String)
    ensures
        r@ == entry_text(*e),
{
    proof {
        reveal_strlit(" (");
        reveal_strlit("?");
        reveal_strlit(") ");
        reveal_strlit("→");
        reveal_strlit(" ");
        reveal_strlit("nm ");
    }
    let mut s = crate::text::owned(e.callsign.as_str());
    crate::text::append(&mut s, " (");
    match &e.aircraft_type {
        Some(t) => crate::text::append(&mut s, t.as_str()),
        None => crate::text::append(&mut s, "?"),
    }
    crate::text::append(&mut s, ") ");
    crate::text::append(&mut s, e.origin_iata.as_str());
    crate::text::append(&mut s, "→");
    crate::text::append(&mut s, e.destination_iata.as_str());
    crate::text::append(&mut s, " ");
    let alt = format_altitude(&e.alt);
    crate::text::append(&mut s, alt.as_str());
    crate::text::append(&mut s, " ");
    crate::text::append(&mut s, e.distance_text.as_str());
    crate::text::append(&mut s, "nm ");
    crate::text::append(&mut s, e.direction.as_str());
    s
}

/// The reply of `!up`.
pub fn up_response(display_name: &str, entries: &Vec<UpEntry>, failed: bool) -> (r: String)
    ensures
        r@ == up_reply(display_name@, entries@, failed),
{
    proof {
        reveal_strlit("Nix los über ");
        reveal_strlit("✈ ");
        reveal_strlit(" Flieger über ");
        reveal_strlit(": ");
        reveal_strlit(" | ");
    }
    if failed {
        return crate::text::owned(UP_FAILED);
    }
    if entries.len() == 0 {
        return crate::text::concat("Nix los über ", display_name);
    }
    let n: usize = if entries.len() < UP_MAX_RESULTS {
        entries.len()
    } else {
        UP_MAX_RESULTS
    };
    let mut parts: Vec<String> = Vec::new();
    let mut i: usize = 0;
    while i < n
        invariant
            n == listed_count(entries@.len()),
            n <= entries@.len(),
            i <= n,
            views_of(parts@) == Seq::new(i as nat, |k: int| entry_text(entries@[k])),
        decreases n - i,
    {
        let line = entry_line(&entries[i]);
        let ghost before = parts@;
        parts.push(line);
        proof {
            assert(parts@ == before.push(line));
            assert(views_of(parts@) =~= views_of(before).push(line@));
        }
        i += 1;
        assert(views_of(parts@) =~= Seq::new(i as nat, |k: int| entry_text(entries@[k])));
    }
    let joined = join_strings(&parts, " | ");
    let mut s = crate::text::owned("✈ ");
    let count = crate::text::decimal_string(entries.len() as u64);
    crate::text::append(&mut s, count.as_str());
    crate::text::append(&mut s, " Flieger über ");
    crate::text::append(&mut s, display_name);
    crate::text::append(&mut s, ": ");
    crate::text::append(&mut s, joined.as_str());
    s
}

} // verus!
