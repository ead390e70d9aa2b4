//! Wall-clock renderings in the channel's time zone (Europe/Berlin).
use std::fmt::Write;
use vstd::prelude::*;

verus! {

/// Two digits, a colon, two digits (`HH:MM`).
pub open spec fn hh_mm_shaped(s: Seq<char>) -> bool {
    &&& s.len() == 5
    &&& s[2] == ':'
    &&& forall|i: int| 0 <= i < 5 && i != 2 ==> '0' <= #[trigger] s[i] && s[i] <= '9'
}

/// An `HH:MM` text, or the empty one, takes one byte per character.
pub proof fn lemma_hh_mm_bytes(s: Seq<char>)
    requires
        s.len() == 0 || hh_mm_shaped(s),
    ensures
        crate::text::utf8_len(s) == s.len(),
        s.len() <= 5,
{
    reveal_with_fuel(crate::text::utf8_len, 6);
    if s.len() == 5 {
        assert(s[0] <= '9' && s[1] <= '9' && s[3] <= '9' && s[4] <= '9');
        assert(s.drop_last().drop_last().drop_last().drop_last().drop_last() =~= Seq::<char>::empty());
        assert(s.drop_last().last() == s[3]);
        assert(s.drop_last().drop_last().last() == s[2]);
        assert(s.drop_last().drop_last().drop_last().last() == s[1]);
        assert(s.drop_last().drop_last().drop_last().drop_last().last() == s[0]);
    }
}

/// The instant `ms` milliseconds after the Unix epoch, shown in the IANA
/// time zone `zone` with the chrono format `fmt`.
pub uninterp spec fn local_time_text(ms: i64, zone: Seq<char>, fmt: Seq<char>) -> Seq<char>;

/// `DateTime::from_timestamp_millis(ms)` moved to the `chrono_tz::Tz` named
/// `zone` and written with `format(fmt)`; the empty string when the zone
/// name is unknown or the instant is out of chrono's range. A format string
/// that chrono rejects stops the text where the error stands. The text is
/// named; of the `%H:%M` format the contract states the shape chrono
/// documents (two zero-padded digits for the hour, a colon, two for the
/// minute), not which digits.
#[verifier::external_body]
fn local_time(ms: i64, zone: &str, fmt: &str) -> (r: String)
    ensures
        r@ == local_time_text(ms, zone@, fmt@),
        fmt@ == "%H:%M"@ ==> r@.len() == 0 || hh_mm_shaped(r@),
{
    let mut out = String::new();
    if let (Ok(tz), Some(t)) = (zone.parse::<chrono_tz::Tz>(), chrono::DateTime::from_timestamp_millis(ms)) {
        let _ = write!(out, "{}", t.with_timezone(&tz).format(fmt));
    }
    out
}

/// The `%H:%M` Berlin wall-clock time of the instant `ms` milliseconds
/// after the Unix epoch (empty when chrono cannot represent the instant).
pub open spec fn berlin_hh_mm_text(ms: i64) -> Seq<char> {
    local_time_text(ms, "Europe/Berlin"@, "%H:%M"@)
}

/// Renders [`berlin_hh_mm_text`].
pub(crate) fn berlin_hh_mm(ms: i64) -> (r: String)
    ensures
        r@ == berlin_hh_mm_text(ms),
        r@.len() == 0 || hh_mm_shaped(r@),
{
    local_time(ms, "Europe/Berlin", "%H:%M")
}

} // verus!
