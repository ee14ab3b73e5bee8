//! GoTo resolution: which catalogue row, deep-sky object or solar-system
//! body a search id points at, with the label and secondary label a host
//! shows for it, and the sexagesimal text of its coordinates.
//!
//! A named star is found by its table index, a deep-sky object by its
//! identifier in the Messier or bright NGC / IC list, and a solar-system body
//! by its canonical key; the first match wins. The apparent position is then
//! the host's to compute.
use vstd::prelude::*;

use crate::deepsky::DeepSkyId;
use crate::planning::Planet;
use crate::ranking::{join_dot, join_dot_exec, spaced, SolarSystemBody, SolarSystemBodyView, StarNames};
use crate::search::{SearchId, SearchIdView, SearchKind};
use crate::text::{chars_of, dec, dec_padded, push_dec, push_dec_padded, push_str, str_eq, string_from_chars};

verus! {

/// The object a GoTo points at.
#[derive(Debug, Clone, Copy, PartialEq, Eq, Structural)]
pub enum GotoBody {
    /// Row of the named-stars table.
    Star(usize),
    /// Row of the Messier list (for a Messier id) or of the bright NGC / IC
    /// list.
    DeepSky(usize),
    Sun,
    Moon,
    Planet(Planet),
}

/// A resolved GoTo subject: the object, its kind, and the two labels.
#[derive(Debug, Clone, PartialEq, Eq)]
pub struct GotoSubject {
    pub body: GotoBody,
    pub kind: SearchKind,
    pub display: String,
    pub aka: String,
}

/// A [`GotoSubject`] as plain values.
pub ghost struct GotoSubjectView {
    pub body: GotoBody,
    pub kind: SearchKind,
    pub display: Seq<char>,
    pub aka: Seq<char>,
}

impl View for GotoSubject {
    type V = GotoSubjectView;

    open spec fn view(&self) -> GotoSubjectView {
        GotoSubjectView { body: self.body, kind: self.kind, display: self.display@, aka: self.aka@ }
    }
}

/// The first row of `stars` whose table index is `idx`.
pub open spec fn first_star_row(stars: Seq<StarNames>, idx: u32) -> Option<int>
    decreases stars.len(),
{
    if stars.len() == 0 {
        None
    } else if stars[0].index == idx {
        Some(0)
    } else {
        match first_star_row(stars.drop_first(), idx) {
            Some(k) => Some(k + 1),
            None => None,
        }
    }
}

/// The first row of `ids` holding `id`.
pub open spec fn first_id_row(ids: Seq<DeepSkyId>, id: DeepSkyId) -> Option<int>
    decreases ids.len(),
{
    if ids.len() == 0 {
        None
    } else if ids[0] == id {
        Some(0)
    } else {
        match first_id_row(ids.drop_first(), id) {
            Some(k) => Some(k + 1),
            None => None,
        }
    }
}

/// The first body of `bodies` whose canonical key is `name`.
pub open spec fn first_body_row(bodies: Seq<SolarSystemBodyView>, name: Seq<char>) -> Option<int>
    decreases bodies.len(),
{
    if bodies.len() == 0 {
        None
    } else if bodies[0].canonical == name {
        Some(0)
    } else {
        match first_body_row(bodies.drop_first(), name) {
            Some(k) => Some(k + 1),
            None => None,
        }
    }
}

/// The body a solar-system key names.
pub open spec fn body_named(name: Seq<char>) -> Option<GotoBody> {
    if name == "sun"@ {
        Some(GotoBody::Sun)
    } else if name == "moon"@ {
        Some(GotoBody::Moon)
    } else if name == "mercury"@ {
        Some(GotoBody::Planet(Planet::Mercury))
    } else if name == "venus"@ {
        Some(GotoBody::Planet(Planet::Venus))
    } else if name == "mars"@ {
        Some(GotoBody::Planet(Planet::Mars))
    } else if name == "jupiter"@ {
        Some(GotoBody::Planet(Planet::Jupiter))
    } else if name == "saturn"@ {
        Some(GotoBody::Planet(Planet::Saturn))
    } else if name == "uranus"@ {
        Some(GotoBody::Planet(Planet::Uranus))
    } else if name == "neptune"@ {
        Some(GotoBody::Planet(Planet::Neptune))
    } else {
        None
    }
}

/// Secondary label of a star: its Bayer designation and constellation when
/// it has both, else empty.
pub open spec fn star_aka(s: StarNames) -> Seq<char> {
    if s.bayer is Some && s.constellation is Some {
        spaced(s.bayer->0@, s.constellation->0@)
    } else {
        Seq::empty()
    }
}

/// Label of a deep-sky object: `M31`, `NGC 7000`, `IC 434`.
pub open spec fn goto_label(id: DeepSkyId) -> Seq<char> {
    match id {
        DeepSkyId::Messier(n) => "M"@ + dec(n as nat),
        DeepSkyId::Ngc(n) => "NGC "@ + dec(n as nat),
        DeepSkyId::Ic(n) => "IC "@ + dec(n as nat),
    }
}

/// The deep-sky subject for `id`, looked up in `ids`.
pub open spec fn deep_sky_subject(ids: Seq<DeepSkyId>, id: DeepSkyId, kind: SearchKind) -> Option<GotoSubjectView> {
    match first_id_row(ids, id) {
        Some(k) => Some(
            GotoSubjectView {
                body: GotoBody::DeepSky(k as usize),
                kind,
                display: goto_label(id),
                aka: goto_label(id),
            },
        ),
        None => None,
    }
}

/// What `id` resolves to among the given tables, or `None` when no row
/// matches.
pub open spec fn goto_subject_spec(
    id: SearchIdView,
    stars: Seq<StarNames>,
    messier: Seq<DeepSkyId>,
    bright: Seq<DeepSkyId>,
    bodies: Seq<SolarSystemBodyView>,
) -> Option<GotoSubjectView> {
    match id {
        SearchIdView::NamedStar(idx) => match first_star_row(stars, idx) {
            Some(k) => Some(
                GotoSubjectView {
                    body: GotoBody::Star(k as usize),
                    kind: SearchKind::Star,
                    display: stars[k].display_spec(),
                    aka: star_aka(stars[k]),
                },
            ),
            None => None,
        },
        SearchIdView::Messier(n) => deep_sky_subject(messier, DeepSkyId::Messier(n), SearchKind::Messier),
        SearchIdView::Ngc(n) => deep_sky_subject(bright, DeepSkyId::Ngc(n), SearchKind::Ngc),
        SearchIdView::Ic(n) => deep_sky_subject(bright, DeepSkyId::Ic(n), SearchKind::Ic),
        SearchIdView::SolarSystem(name) => match first_body_row(bodies, name) {
            Some(k) => match body_named(name) {
                Some(b) => Some(
                    GotoSubjectView {
                        body: b,
                        kind: SearchKind::SolarSystem,
                        display: bodies[k].display_en,
                        aka: bodies[k].display_ja,
                    },
                ),
                None => None,
            },
            None => None,
        },
    }
}

fn find_star(stars: &[StarNames], idx: u32) -> (r: Option<usize>)
    ensures
        r matches Some(k) ==> k < stars@.len(),
        match r {
            Some(k) => first_star_row(stars@, idx) == Some(k as int),
            None => first_star_row(stars@, idx) is None,
        },
{
    let mut i: usize = 0;
    while i < stars.len()
        invariant
            i <= stars@.len(),
            forall|k: int| 0 <= k < i ==> (#[trigger] stars@[k]).index != idx,
        decreases stars@.len() - i,
    {
        if stars[i].index == idx {
            proof {
                lemma_first_star_row(stars@, idx, i as int);
            }
            return Some(i);
        }
        i += 1;
    }
    proof {
        lemma_first_star_row(stars@, idx, i as int);
    }
    None
}

proof fn lemma_first_star_row(stars: Seq<StarNames>, idx: u32, i: int)
    requires
        0 <= i <= stars.len(),
        forall|k: int| 0 <= k < i ==> (#[trigger] stars[k]).index != idx,
    ensures
        i < stars.len() && stars[i].index == idx ==> first_star_row(stars, idx) == Some(i),
        i == stars.len() ==> first_star_row(stars, idx) is None,
    decreases i,
{
    if i > 0 {
        lemma_first_star_row(stars.drop_first(), idx, i - 1);
    } else if stars.len() > 0 && stars[0].index == idx {
    } else if stars.len() > 0 {
    }
}

fn find_id(ids: &[DeepSkyId], id: DeepSkyId) -> (r: Option<usize>)
    ensures
        match r {
            Some(k) => first_id_row(ids@, id) == Some(k as int),
            None => first_id_row(ids@, id) is None,
        },
{
    let mut i: usize = 0;
    while i < ids.len()
        invariant
            i <= ids@.len(),
            forall|k: int| 0 <= k < i ==> #[trigger] ids@[k] != id,
        decreases ids@.len() - i,
    {
        if ids[i] == id {
            proof {
                lemma_first_id_row(ids@, id, i as int);
            }
            return Some(i);
        }
        i += 1;
    }
    proof {
        lemma_first_id_row(ids@, id, i as int);
    }
    None
}

proof fn lemma_first_id_row(ids: Seq<DeepSkyId>, id: DeepSkyId, i: int)
    requires
        0 <= i <= ids.len(),
        forall|k: int| 0 <= k < i ==> #[trigger] ids[k] != id,
    ensures
        i < ids.len() && ids[i] == id ==> first_id_row(ids, id) == Some(i),
        i == ids.len() ==> first_id_row(ids, id) is None,
    decreases i,
{
    if i > 0 {
        lemma_first_id_row(ids.drop_first(), id, i - 1);
    }
}

/// The views of a list of bodies.
pub open spec fn body_views(bodies: Seq<SolarSystemBody>) -> Seq<SolarSystemBodyView> {
    bodies.map_values(|b: SolarSystemBody| b@)
}

fn find_body(bodies: &[SolarSystemBody], name: &str) -> (r: Option<usize>)
    ensures
        r matches Some(k) ==> k < bodies@.len(),
        match r {
            Some(k) => first_body_row(body_views(bodies@), name@) == Some(k as int),
            None => first_body_row(body_views(bodies@), name@) is None,
        },
{
    let ghost bv = body_views(bodies@);
    let mut i: usize = 0;
    while i < bodies.len()
        invariant
            i <= bodies@.len(),
            bv == body_views(bodies@),
            forall|k: int| 0 <= k < i ==> (#[trigger] bv[k]).canonical != name@,
        decreases bodies@.len() - i,
    {
        assert(bv[i as int] == bodies@[i as int]@);
        if str_eq(bodies[i].canonical, name) {
            proof {
                lemma_first_body_row(bv, name@, i as int);
            }
            return Some(i);
        }
        i += 1;
    }
    proof {
        lemma_first_body_row(bv, name@, i as int);
    }
    None
}

proof fn lemma_first_body_row(bodies: Seq<SolarSystemBodyView>, name: Seq<char>, i: int)
    requires
        0 <= i <= bodies.len(),
        forall|k: int| 0 <= k < i ==> (#[trigger] bodies[k]).canonical != name,
    ensures
        i < bodies.len() && bodies[i].canonical == name ==> first_body_row(bodies, name) == Some(i),
        i == bodies.len() ==> first_body_row(bodies, name) is None,
    decreases i,
{
    if i > 0 {
        lemma_first_body_row(bodies.drop_first(), name, i - 1);
    }
}

fn body_for(name: &str) -> (r: Option<GotoBody>)
    ensures
        r == body_named(name@),
{
    proof {
        reveal_strlit("sun");
        reveal_strlit("moon");
        reveal_strlit("mercury");
        reveal_strlit("venus");
        reveal_strlit("mars");
        reveal_strlit("jupiter");
        reveal_strlit("saturn");
        reveal_strlit("uranus");
        reveal_strlit("neptune");
    }
    if str_eq(name, "sun") {
        Some(GotoBody::Sun)
    } else if str_eq(name, "moon") {
        Some(GotoBody::Moon)
    } else if str_eq(name, "mercury") {
        Some(GotoBody::Planet(Planet::Mercury))
    } else if str_eq(name, "venus") {
        Some(GotoBody::Planet(Planet::Venus))
    } else if str_eq(name, "mars") {
        Some(GotoBody::Planet(Planet::Mars))
    } else if str_eq(name, "jupiter") {
        Some(GotoBody::Planet(Planet::Jupiter))
    } else if str_eq(name, "saturn") {
        Some(GotoBody::Planet(Planet::Saturn))
    } else if str_eq(name, "uranus") {
        Some(GotoBody::Planet(Planet::Uranus))
    } else if str_eq(name, "neptune") {
        Some(GotoBody::Planet(Planet::Neptune))
    } else {
        None
    }
}

fn label_of(id: DeepSkyId) -> (r: String)
    ensures
        r@ == goto_label(id),
{
    let mut v: Vec<char> = Vec::new();
    let n = match id {
        DeepSkyId::Messier(n) => {
            push_str(&mut v, "M");
            n
        },
        DeepSkyId::Ngc(n) => {
            push_str(&mut v, "NGC ");
            n
        },
        DeepSkyId::Ic(n) => {
            push_str(&mut v, "IC ");
            n
        },
    };
    push_dec(&mut v, n as u64);
    proof {
        let e = Seq::<char>::empty();
        assert(e + "M"@ =~= "M"@);
        assert(e + "NGC "@ =~= "NGC "@);
        assert(e + "IC "@ =~= "IC "@);
    }
    string_from_chars(&v)
}

fn deep_sky(ids: &[DeepSkyId], id: DeepSkyId, kind: SearchKind) -> (r: Option<GotoSubject>)
    ensures
        match deep_sky_subject(ids@, id, kind) {
            Some(v) => r is Some && r->0@ == v,
            None => r is None,
        },
{
    match find_id(ids, id) {
        Some(k) => Some(
            GotoSubject { body: GotoBody::DeepSky(k), kind, display: label_of(id), aka: label_of(id) },
        ),
        None => None,
    }
}

fn star_aka_of(s: &StarNames) -> (r: String)
    ensures
        r@ == star_aka(*s),
{
    match (&s.bayer, &s.constellation) {
        (Some(b), Some(c)) => {
            let mut v = chars_of(b.as_str());
            push_str(&mut v, " ");
            push_str(&mut v, c.as_str());
            string_from_chars(&v)
        },
        _ => String::new(),
    }
}

/// Resolves a search id to the object a GoTo points at, among the named
/// stars, the Messier list, the bright NGC / IC list and the solar-system
/// bodies; `None` when no row matches (or a solar-system key names no body).
pub fn resolve_goto_subject(
    id: &SearchId,
    stars: &[StarNames],
    messier: &[DeepSkyId],
    bright: &[DeepSkyId],
    bodies: &[SolarSystemBody],
) -> (r: Option<GotoSubject>)
    ensures
        match goto_subject_spec(id@, stars@, messier@, bright@, body_views(bodies@)) {
            Some(v) => r is Some && r->0@ == v,
            None => r is None,
        },
{
    match id {
        SearchId::NamedStar(idx) => match find_star(stars, *idx) {
            Some(k) => {
                let r = GotoSubject {
                    body: GotoBody::Star(k),
                    kind: SearchKind::Star,
                    display: stars[k].display(),
                    aka: star_aka_of(&stars[k]),
                };
                Some(r)
            },
            None => None,
        },
        SearchId::Messier(n) => deep_sky(messier, DeepSkyId::Messier(*n), SearchKind::Messier),
        SearchId::Ngc(n) => deep_sky(bright, DeepSkyId::Ngc(*n), SearchKind::Ngc),
        SearchId::Ic(n) => deep_sky(bright, DeepSkyId::Ic(*n), SearchKind::Ic),
        SearchId::SolarSystem(name) => match find_body(bodies, name) {
            Some(k) => match body_for(name) {
                Some(b) => {
                    let ghost bv = body_views(bodies@);
                    assert(bv[k as int] == bodies@[k as int]@);
                    let r = GotoSubject {
                        body: b,
                        kind: SearchKind::SolarSystem,
                        display: string_from_chars(&chars_of(bodies[k].display_en)),
                        aka: string_from_chars(&chars_of(bodies[k].display_ja)),
                    };
                    Some(r)
                },
                None => None,
            },
            None => None,
        },
    }
}

/// The solar-system key of a planet: its English name in lower case.
pub open spec fn planet_key(p: Planet) -> Seq<char> {
    crate::ingest::ascii_lower(p.name_spec())
}

/// Law: a planet's key (its English name in lower case, such as `mars`)
/// resolves to that planet, and a key that resolves to a planet is that
/// planet's key; `sun` and `moon` resolve to the Sun and the Moon. So the
/// body a GoTo points at is always the one whose name is shown.
pub proof fn lemma_planet_keys(p: Planet, key: Seq<char>)
    ensures
        body_named(planet_key(p)) == Some(GotoBody::Planet(p)),
        body_named(key) == Some(GotoBody::Planet(p)) ==> key == planet_key(p),
        body_named(key) == Some(GotoBody::Sun) <==> key == "sun"@,
        body_named(key) == Some(GotoBody::Moon) <==> key == "moon"@,
{
    reveal_strlit("sun");
    reveal_strlit("moon");
    reveal_strlit("mercury");
    reveal_strlit("venus");
    reveal_strlit("mars");
    reveal_strlit("jupiter");
    reveal_strlit("saturn");
    reveal_strlit("uranus");
    reveal_strlit("neptune");
    reveal_strlit("Mercury");
    reveal_strlit("Venus");
    reveal_strlit("Mars");
    reveal_strlit("Jupiter");
    reveal_strlit("Saturn");
    reveal_strlit("Uranus");
    reveal_strlit("Neptune");
    assert(crate::ingest::ascii_lower("Mercury"@) =~= "mercury"@);
    assert(crate::ingest::ascii_lower("Venus"@) =~= "venus"@);
    assert(crate::ingest::ascii_lower("Mars"@) =~= "mars"@);
    assert(crate::ingest::ascii_lower("Jupiter"@) =~= "jupiter"@);
    assert(crate::ingest::ascii_lower("Saturn"@) =~= "saturn"@);
    assert(crate::ingest::ascii_lower("Uranus"@) =~= "uranus"@);
    assert(crate::ingest::ascii_lower("Neptune"@) =~= "neptune"@);
    let names = seq!["sun"@, "moon"@, "mercury"@, "venus"@, "mars"@, "jupiter"@, "saturn"@, "uranus"@, "neptune"@];
    assert forall|i: int, j: int| 0 <= i < j < 9 implies names[i] != names[j] by {
        let (a, b) = (names[i], names[j]);
        if a.len() == b.len() {
            if a.len() == 4 {
                assert(a[0] != b[0] || a[1] != b[1]);
            } else if a.len() == 5 {
                assert(a[0] != b[0]);
            } else if a.len() == 6 {
                assert(a[0] != b[0]);
            } else if a.len() == 7 {
                assert(a[0] != b[0] || a[1] != b[1]);
            } else {
                assert(a[0] != b[0]);
            }
        }
    }
    assert(names[0] == "sun"@ && names[1] == "moon"@ && names[2] == "mercury"@ && names[3] == "venus"@);
    assert(names[4] == "mars"@ && names[5] == "jupiter"@ && names[6] == "saturn"@ && names[7] == "uranus"@);
    assert(names[8] == "neptune"@);
}

// ---------------------------------------------------------------------------
// Sexagesimal text
// ---------------------------------------------------------------------------

/// Right ascension text `HHhMMm` from whole hours and rounded minutes: a
/// minute count of 60 or more gives up 60 to the hour, and hours wrap at 24.
pub open spec fn ra_text(hours: nat, minutes: nat) -> Seq<char> {
    let (h, m) = if minutes >= 60 {
        (hours + 1, (minutes - 60) as nat)
    } else {
        (hours, minutes)
    };
    dec_padded(h % 24, 2) + "h"@ + dec_padded(m, 2) + "m"@
}

/// Declination text `±DD°MM′` from the sign, whole degrees and rounded
/// minutes: a minute count of 60 or more gives up 60 to the degrees.
pub open spec fn dec_text(negative: bool, degrees: nat, minutes: nat) -> Seq<char> {
    let (d, m) = if minutes >= 60 {
        (degrees + 1, (minutes - 60) as nat)
    } else {
        (degrees, minutes)
    };
    (if negative {
        "-"@
    } else {
        "+"@
    }) + dec_padded(d, 2) + "°"@ + dec_padded(m, 2) + "′"@
}

/// Right ascension text from whole hours and rounded minutes.
pub fn format_ra_hm(hours: u32, minutes: u32) -> (r: String)
    ensures
        r@ == ra_text(hours as nat, minutes as nat),
{
    let (h, m): (u64, u64) = if minutes >= 60 {
        (hours as u64 + 1, (minutes - 60) as u64)
    } else {
        (hours as u64, minutes as u64)
    };
    let mut v: Vec<char> = Vec::new();
    push_dec_padded(&mut v, h % 24, 2);
    push_str(&mut v, "h");
    push_dec_padded(&mut v, m, 2);
    push_str(&mut v, "m");
    proof {
        reveal_strlit("h");
        reveal_strlit("m");
        assert(v@ =~= ra_text(hours as nat, minutes as nat));
    }
    string_from_chars(&v)
}

/// Declination text from the sign, whole degrees and rounded minutes.
pub fn format_dec_dm(negative: bool, degrees: u64, minutes: u64) -> (r: String)
    requires
        degrees < u64::MAX,
    ensures
        r@ == dec_text(negative, degrees as nat, minutes as nat),
{
    let (d, m): (u64, u64) = if minutes >= 60 {
        (degrees + 1, minutes - 60)
    } else {
        (degrees, minutes)
    };
    let mut v: Vec<char> = Vec::new();
    if negative {
        push_str(&mut v, "-");
    } else {
        push_str(&mut v, "+");
    }
    push_dec_padded(&mut v, d, 2);
    push_str(&mut v, "°");
    push_dec_padded(&mut v, m, 2);
    push_str(&mut v, "′");
    proof {
        reveal_strlit("-");
        reveal_strlit("+");
        reveal_strlit("°");
        reveal_strlit("′");
        assert(v@ =~= dec_text(negative, degrees as nat, minutes as nat));
    }
    string_from_chars(&v)
}

// ---------------------------------------------------------------------------
// Info line
// ---------------------------------------------------------------------------

/// The parts of a GoTo info line: the label; the secondary label in
/// brackets when it is non-empty and differs from the label; the kind; the
/// magnitude when known; the equatorial position; the horizontal position;
/// the distance when known.
pub open spec fn summary_parts(
    display: Seq<char>,
    aka: Seq<char>,
    kind: SearchKind,
    magnitude: Option<Seq<char>>,
    ra: Seq<char>,
    dec: Seq<char>,
    alt: Seq<char>,
    az: Seq<char>,
    distance: Option<Seq<char>>,
) -> Seq<Seq<char>> {
    let p0 = seq![display];
    let p1 = if aka.len() > 0 && aka != display {
        p0.push("("@ + aka + ")"@)
    } else {
        p0
    };
    let p2 = p1.push(kind.label_spec());
    let p3 = match magnitude {
        Some(m) => p2.push("mag "@ + m),
        None => p2,
    };
    let p4 = p3.push("RA "@ + ra + " Dec "@ + dec);
    let p5 = p4.push("alt "@ + alt + "° az "@ + az + "°"@);
    match distance {
        Some(d) => p5.push(d),
        None => p5,
    }
}

/// The characters of `parts`, one after another.
fn concat(parts: &[&str]) -> (r: Vec<char>)
    ensures
        r@ == concat_spec(parts@.map_values(|p: &str| p@)),
{
    let ghost ps = parts@.map_values(|p: &str| p@);
    let mut v: Vec<char> = Vec::new();
    let mut i: usize = 0;
    while i < parts.len()
        invariant
            i <= parts@.len(),
            ps == parts@.map_values(|p: &str| p@),
            v@ == concat_spec(ps.take(i as int)),
        decreases parts@.len() - i,
    {
        proof {
            assert(ps.take(i + 1).drop_last() =~= ps.take(i as int));
        }
        push_str(&mut v, parts[i]);
        i += 1;
    }
    proof {
        assert(ps.take(i as int) =~= ps);
    }
    v
}

/// The strings of `ps` joined end to end.
pub open spec fn concat_spec(ps: Seq<Seq<char>>) -> Seq<char>
    decreases ps.len(),
{
    if ps.len() == 0 {
        Seq::empty()
    } else {
        concat_spec(ps.drop_last()) + ps.last()
    }
}

/// One line summing up a GoTo target for a console or title bar; the
/// numbers come as the text the host formatted.
pub fn info_summary(
    display: &str,
    aka: &str,
    kind: SearchKind,
    magnitude: Option<&str>,
    ra: &str,
    dec: &str,
    alt: &str,
    az: &str,
    distance: Option<&str>,
) -> (r: String)
    ensures
        r@ == join_dot(
            summary_parts(
                display@,
                aka@,
                kind,
                match magnitude {
                    Some(m) => Some(m@),
                    None => None,
                },
                ra@,
                dec@,
                alt@,
                az@,
                match distance {
                    Some(d) => Some(d@),
                    None => None,
                },
            ),
        ),
{
    proof {
        reveal_strlit("(");
        reveal_strlit(")");
        reveal_strlit("mag ");
        reveal_strlit("RA ");
        reveal_strlit(" Dec ");
        reveal_strlit("alt ");
        reveal_strlit("° az ");
        reveal_strlit("°");
    }
    let mut parts: Vec<Vec<char>> = Vec::new();
    parts.push(chars_of(display));
    let aka_chars = chars_of(aka);
    if aka_chars.len() > 0 && !str_eq(aka, display) {
        let p = concat(&["(", aka, ")"]);
        assert(p@ =~= "("@ + aka@ + ")"@) by {
            reveal_with_fuel(concat_spec, 4);
        }
        parts.push(p);
    }
    parts.push(chars_of(kind.label()));
    if let Some(m) = magnitude {
        let p = concat(&["mag ", m]);
        assert(p@ =~= "mag "@ + m@) by {
            reveal_with_fuel(concat_spec, 3);
        }
        parts.push(p);
    }
    let p = concat(&["RA ", ra, " Dec ", dec]);
    assert(p@ =~= "RA "@ + ra@ + " Dec "@ + dec@) by {
        reveal_with_fuel(concat_spec, 5);
    }
    parts.push(p);
    let p = concat(&["alt ", alt, "° az ", az, "°"]);
    assert(p@ =~= "alt "@ + alt@ + "° az "@ + az@ + "°"@) by {
        reveal_with_fuel(concat_spec, 6);
    }
    parts.push(p);
    if let Some(d) = distance {
        parts.push(chars_of(d));
    }
    let out = join_dot_exec(&parts);
    proof {
        let mm = match magnitude {
            Some(m) => Some(m@),
            None => None::<Seq<char>>,
        };
        let dd = match distance {
            Some(d) => Some(d@),
            None => None::<Seq<char>>,
        };
        assert(parts@.map_values(|p: Vec<char>| p@) =~= summary_parts(
            display@,
            aka@,
            kind,
            mm,
            ra@,
            dec@,
            alt@,
            az@,
            dd,
        ));
    }
    string_from_chars(&out)
}

} // verus!
