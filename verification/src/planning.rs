//! Names and labels of the observation-planning vocabulary, and the
//! iCalendar text escaping used by the planning export.
use vstd::prelude::*;

use crate::text::{chars_of, dec_padded, push_dec_padded, push_str, string_from_chars};

verus! {

/// The major planets other than Earth, in renderer order.
#[derive(Debug, Clone, Copy, PartialEq, Eq, Hash, Structural)]
pub enum Planet {
    Mercury,
    Venus,
    Mars,
    Jupiter,
    Saturn,
    Uranus,
    Neptune,
}

impl Planet {
    /// English name of the planet.
    pub open spec fn name_spec(self) -> Seq<char> {
        match self {
            Planet::Mercury => "Mercury"@,
            Planet::Venus => "Venus"@,
            Planet::Mars => "Mars"@,
            Planet::Jupiter => "Jupiter"@,
            Planet::Saturn => "Saturn"@,
            Planet::Uranus => "Uranus"@,
            Planet::Neptune => "Neptune"@,
        }
    }

    pub fn name(self) -> (r: &'static str)
        ensures
            r@ == self.name_spec(),
    {
        match self {
            Planet::Mercury => "Mercury",
            Planet::Venus => "Venus",
            Planet::Mars => "Mars",
            Planet::Jupiter => "Jupiter",
            Planet::Saturn => "Saturn",
            Planet::Uranus => "Uranus",
            Planet::Neptune => "Neptune",
        }
    }
}

/// A body whose rise / transit / set times the planner computes.
#[derive(Debug, Clone, Copy, PartialEq, Eq, Structural)]
pub enum PlanningBody {
    Sun,
    Moon,
    Planet(Planet),
}

impl PlanningBody {
    /// Display name of the body.
    pub open spec fn name_spec(self) -> Seq<char> {
        match self {
            PlanningBody::Sun => "Sun"@,
            PlanningBody::Moon => "Moon"@,
            PlanningBody::Planet(p) => p.name_spec(),
        }
    }

    pub fn name(self) -> (r: &'static str)
        ensures
            r@ == self.name_spec(),
    {
        match self {
            PlanningBody::Sun => "Sun",
            PlanningBody::Moon => "Moon",
            PlanningBody::Planet(planet) => planet.name(),
        }
    }
}

/// Sky state by solar depression.
#[derive(Debug, Clone, Copy, PartialEq, Eq, Structural)]
pub enum TwilightBand {
    Daylight,
    Civil,
    Nautical,
    Astronomical,
    Night,
}

impl TwilightBand {
    /// Display label of the band.
    pub open spec fn label_spec(self) -> Seq<char> {
        match self {
            TwilightBand::Daylight => "Daylight"@,
            TwilightBand::Civil => "Civil twilight"@,
            TwilightBand::Nautical => "Nautical twilight"@,
            TwilightBand::Astronomical => "Astronomical twilight"@,
            TwilightBand::Night => "Night"@,
        }
    }

    pub fn label(self) -> (r: &'static str)
        ensures
            r@ == self.label_spec(),
    {
        match self {
            TwilightBand::Daylight => "Daylight",
            TwilightBand::Civil => "Civil twilight",
            TwilightBand::Nautical => "Nautical twilight",
            TwilightBand::Astronomical => "Astronomical twilight",
            TwilightBand::Night => "Night",
        }
    }
}

/// Phase of a solar eclipse at one instant.
#[derive(Debug, Clone, Copy, Default, PartialEq, Eq, Structural)]
pub enum SolarEclipseKind {
    /// No contact this instant.
    #[default]
    NoContact,
    /// Partial solar eclipse.
    Partial,
    /// Annular solar eclipse (Moon fully inside the solar disk).
    Annular,
    /// Total solar eclipse.
    Total,
}

impl SolarEclipseKind {
    /// Kebab-case name of the phase.
    pub open spec fn kebab_spec(self) -> Seq<char> {
        match self {
            SolarEclipseKind::NoContact => "none"@,
            SolarEclipseKind::Partial => "partial"@,
            SolarEclipseKind::Annular => "annular"@,
            SolarEclipseKind::Total => "total"@,
        }
    }

    pub fn as_kebab_str(self) -> (r: &'static str)
        ensures
            r@ == self.kebab_spec(),
    {
        match self {
            SolarEclipseKind::NoContact => "none",
            SolarEclipseKind::Partial => "partial",
            SolarEclipseKind::Annular => "annular",
            SolarEclipseKind::Total => "total",
        }
    }

    /// True for every phase with contact.
    pub fn is_event(self) -> (r: bool)
        ensures
            r == (self != SolarEclipseKind::NoContact),
    {
        !matches!(self, SolarEclipseKind::NoContact)
    }
}

/// The escape sequence of one character in an iCalendar TEXT value.
pub open spec fn ical_escape_char(c: char) -> Seq<char> {
    if c == '\\' {
        seq!['\\', '\\']
    } else if c == ';' {
        seq!['\\', ';']
    } else if c == ',' {
        seq!['\\', ',']
    } else if c == '\n' {
        seq!['\\', 'n']
    } else {
        seq![c]
    }
}

/// `s` escaped for an iCalendar TEXT value (RFC 5545 §3.3.11): backslash,
/// semicolon, comma and newline are escaped, everything else is kept.
pub open spec fn ical_escape_spec(s: Seq<char>) -> Seq<char>
    decreases s.len(),
{
    if s.len() == 0 {
        Seq::empty()
    } else {
        ical_escape_spec(s.drop_last()) + ical_escape_char(s.last())
    }
}

/// Escape a string for an iCalendar TEXT value.
pub fn ical_escape(text: &str) -> (r: String)
    ensures
        r@ == ical_escape_spec(text@),
{
    let v = chars_of(text);
    let mut out: Vec<char> = Vec::new();
    let mut i: usize = 0;
    while i < v.len()
        invariant
            i <= v@.len(),
            out@ == ical_escape_spec(v@.take(i as int)),
        decreases v@.len() - i,
    {
        let c = v[i];
        let ghost before = out@;
        if c == '\\' {
            out.push('\\');
            out.push('\\');
        } else if c == ';' {
            out.push('\\');
            out.push(';');
        } else if c == ',' {
            out.push('\\');
            out.push(',');
        } else if c == '\n' {
            out.push('\\');
            out.push('n');
        } else {
            out.push(c);
        }
        proof {
            assert(v@.take(i + 1).drop_last() =~= v@.take(i as int));
            assert(out@ =~= before + ical_escape_char(c));
        }
        i += 1;
    }
    assert(v@.take(v@.len() as int) =~= v@);
    string_from_chars(&out)
}

// ---------------------------------------------------------------------------
// iCalendar export
// ---------------------------------------------------------------------------

/// `n` printed with at least `width` digits, zero-padded after a leading
/// minus sign (what `format!("{n:0width$}")` prints).
pub open spec fn padded_signed(n: int, width: nat) -> Seq<char> {
    if n < 0 {
        seq!['-'] + dec_padded((-n) as nat, (width - 1) as nat)
    } else {
        dec_padded(n as nat, width)
    }
}

/// The hour, minute and second of a time of day given in seconds, a full
/// day (86 400 s) rolling over into the next day.
pub open spec fn day_and_clock(day: int, seconds: int) -> (int, int, int, int) {
    let (d, s) = if seconds >= 86_400 {
        (day + 1, seconds - 86_400)
    } else {
        (day, seconds)
    };
    (d, s / 3600, (s % 3600) / 60, s % 60)
}

/// An iCalendar UTC date-time `YYYYMMDDTHHMMSSZ`.
pub open spec fn ical_timestamp_spec(year: i64, month: i64, day: i64, seconds: i64) -> Seq<char> {
    let (d, h, m, s) = day_and_clock(day as int, seconds as int);
    padded_signed(year as int, 4) + padded_signed(month as int, 2) + padded_signed(d, 2) + "T"@
        + padded_signed(h, 2) + padded_signed(m, 2) + padded_signed(s, 2) + "Z"@
}

fn push_padded_signed(v: &mut Vec<char>, n: i64, width: usize)
    requires
        width >= 1,
    ensures
        final(v)@ == old(v)@ + padded_signed(n as int, width as nat),
{
    if n < 0 {
        let m: u64 = (-(n as i128)) as u64;
        v.push('-');
        let ghost mid = v@;
        push_dec_padded(v, m, width - 1);
        assert(final(v)@ =~= old(v)@ + padded_signed(n as int, width as nat));
    } else {
        push_dec_padded(v, n as u64, width);
    }
}

/// Formats a calendar date and a time of day (seconds since midnight, at
/// most one full day) as an iCalendar UTC date-time.
pub fn ical_timestamp(year: i64, month: i64, day: i64, seconds: i64) -> (r: String)
    requires
        0 <= seconds <= 86_400,
        day < i64::MAX,
    ensures
        r@ == ical_timestamp_spec(year, month, day, seconds),
{
    let (d, s) = if seconds >= 86_400 {
        (day + 1, seconds - 86_400)
    } else {
        (day, seconds)
    };
    let mut v: Vec<char> = Vec::new();
    push_padded_signed(&mut v, year, 4);
    push_padded_signed(&mut v, month, 2);
    push_padded_signed(&mut v, d, 2);
    v.push('T');
    push_padded_signed(&mut v, s / 3600, 2);
    push_padded_signed(&mut v, (s % 3600) / 60, 2);
    push_padded_signed(&mut v, s % 60, 2);
    v.push('Z');
    proof {
        reveal_strlit("T");
        reveal_strlit("Z");
        assert(0 <= s < 86_400);
    }
    assert(v@ =~= ical_timestamp_spec(year, month, day, seconds));
    string_from_chars(&v)
}

/// One observing window to export: the target's name, the window's start
/// and end date-times, and the summary and description texts.
#[derive(Debug, Clone, PartialEq, Eq)]
pub struct IcalEvent {
    pub name: String,
    pub start: String,
    pub end: String,
    pub summary: String,
    pub description: String,
}

/// `s` with every space replaced by `-`.
pub open spec fn dashed(s: Seq<char>) -> Seq<char> {
    s.map_values(|c: char| if c == ' ' {
        '-'
    } else {
        c
    })
}

/// The `VEVENT` block of one event.
pub open spec fn ical_event_spec(name: Seq<char>, start: Seq<char>, end: Seq<char>, summary: Seq<char>, description: Seq<char>) -> Seq<char> {
    "BEGIN:VEVENT\r\n"@ + "UID:"@ + ical_escape_spec(dashed(name)) + "-"@ + start + "@stars\r\n"@
        + "DTSTAMP:"@ + start + "\r\n"@ + "DTSTART:"@ + start + "\r\n"@ + "DTEND:"@ + end
        + "\r\n"@ + "SUMMARY:"@ + ical_escape_spec(summary) + "\r\n"@ + "DESCRIPTION:"@
        + ical_escape_spec(description) + "\r\n"@ + "END:VEVENT\r\n"@
}

impl IcalEvent {
    /// The `VEVENT` block of this event.
    pub open spec fn block_spec(&self) -> Seq<char> {
        ical_event_spec(self.name@, self.start@, self.end@, self.summary@, self.description@)
    }
}

/// The blocks of the given events, in order.
pub open spec fn ical_events_spec(events: Seq<IcalEvent>) -> Seq<char>
    decreases events.len(),
{
    if events.len() == 0 {
        Seq::empty()
    } else {
        ical_events_spec(events.drop_last()) + events.last().block_spec()
    }
}

/// The calendar header lines.
pub open spec fn ical_header() -> Seq<char> {
    "BEGIN:VCALENDAR\r\nVERSION:2.0\r\nPRODID:-//stars//L-09 observation planning//EN\r\nCALSCALE:GREGORIAN\r\n"@
}

/// An RFC 5545 calendar holding one event per observing window.
pub open spec fn icalendar_spec(events: Seq<IcalEvent>) -> Seq<char> {
    ical_header() + ical_events_spec(events) + "END:VCALENDAR\r\n"@
}

fn push_escaped(v: &mut Vec<char>, text: &str)
    ensures
        final(v)@ == old(v)@ + ical_escape_spec(text@),
{
    let e = ical_escape(text);
    push_str(v, e.as_str());
}

fn dashed_string(text: &str) -> (r: String)
    ensures
        r@ == dashed(text@),
{
    let c = chars_of(text);
    let mut out: Vec<char> = Vec::new();
    let mut i: usize = 0;
    while i < c.len()
        invariant
            i <= c@.len(),
            out@ == dashed(c@.take(i as int)),
        decreases c@.len() - i,
    {
        if c[i] == ' ' {
            out.push('-');
        } else {
            out.push(c[i]);
        }
        assert(dashed(c@.take(i + 1)) =~= dashed(c@.take(i as int)).push(if c@[i as int] == ' ' {
            '-'
        } else {
            c@[i as int]
        }));
        i += 1;
    }
    assert(c@.take(c@.len() as int) =~= c@);
    string_from_chars(&out)
}

fn push_event(v: &mut Vec<char>, e: &IcalEvent)
    ensures
        final(v)@ == old(v)@ + e.block_spec(),
{
    let name = dashed_string(e.name.as_str());
    push_str(v, "BEGIN:VEVENT\r\n");
    push_str(v, "UID:");
    push_escaped(v, name.as_str());
    push_str(v, "-");
    push_str(v, e.start.as_str());
    push_str(v, "@stars\r\n");
    push_str(v, "DTSTAMP:");
    push_str(v, e.start.as_str());
    push_str(v, "\r\n");
    push_str(v, "DTSTART:");
    push_str(v, e.start.as_str());
    push_str(v, "\r\n");
    push_str(v, "DTEND:");
    push_str(v, e.end.as_str());
    push_str(v, "\r\n");
    push_str(v, "SUMMARY:");
    push_escaped(v, e.summary.as_str());
    push_str(v, "\r\n");
    push_str(v, "DESCRIPTION:");
    push_escaped(v, e.description.as_str());
    push_str(v, "\r\n");
    push_str(v, "END:VEVENT\r\n");
    assert(final(v)@ =~= old(v)@ + e.block_spec());
}

/// Writes the calendar document of the given observing windows.
pub fn icalendar_document(events: &[IcalEvent]) -> (r: String)
    ensures
        r@ == icalendar_spec(events@),
{
    let mut v: Vec<char> = Vec::new();
    push_str(
        &mut v,
        "BEGIN:VCALENDAR\r\nVERSION:2.0\r\nPRODID:-//stars//L-09 observation planning//EN\r\nCALSCALE:GREGORIAN\r\n",
    );
    let mut i: usize = 0;
    proof {
        assert(v@ =~= ical_header() + ical_events_spec(events@.take(0)));
    }
    while i < events.len()
        invariant
            i <= events@.len(),
            v@ == ical_header() + ical_events_spec(events@.take(i as int)),
        decreases events@.len() - i,
    {
        push_event(&mut v, &events[i]);
        proof {
            assert(events@.take(i + 1).drop_last() =~= events@.take(i as int));
        }
        i += 1;
    }
    push_str(&mut v, "END:VCALENDAR\r\n");
    proof {
        assert(events@.take(i as int) =~= events@);
    }
    assert(v@ =~= icalendar_spec(events@));
    string_from_chars(&v)
}


/// The events of the entries that have one, in order.
pub open spec fn present_events(entries: Seq<Option<IcalEvent>>) -> Seq<IcalEvent>
    decreases entries.len(),
{
    if entries.len() == 0 {
        Seq::empty()
    } else {
        let prev = present_events(entries.drop_last());
        match entries.last() {
            Some(e) => prev.push(e),
            None => prev,
        }
    }
}

/// Writes the calendar document of the targets' observing windows; a
/// target without an observable window (`None`) is skipped.
pub fn icalendar_for_entries(entries: Vec<Option<IcalEvent>>) -> (r: String)
    ensures
        r@ == icalendar_spec(present_events(entries@)),
{
    let ghost orig = entries@;
    let mut rest = entries;
    let mut events: Vec<IcalEvent> = Vec::new();
    let mut i: usize = 0;
    let n = rest.len();
    while i < n
        invariant
            i <= n,
            n == orig.len(),
            rest@ == orig.skip(i as int),
            events@ == present_events(orig.take(i as int)),
        decreases n - i,
    {
        let e = rest.remove(0);
        proof {
            assert(e == orig[i as int]);
            assert(rest@ =~= orig.skip(i + 1));
            assert(orig.take(i + 1).drop_last() =~= orig.take(i as int));
        }
        match e {
            Some(ev) => events.push(ev),
            None => {},
        }
        i += 1;
    }
    proof {
        assert(orig.take(i as int) =~= orig);
    }
    icalendar_document(&events)
}

} // verus!
