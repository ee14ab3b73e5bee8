//! Stable identifiers of object-search hits and their string encoding.
use vstd::prelude::*;

use crate::clusters::{find_char, lemma_find_char};
use crate::text::{
    all_digits, chars_eq, chars_of, dec, lemma_dec, lemma_parse_dec, parse_bounded,
    parse_unsigned_chars, push_dec, push_str, skip_chars, string_from_chars, sub_chars,
};

verus! {

/// Classification of a search hit.
#[derive(Debug, Clone, Copy, PartialEq, Eq, Hash, Structural)]
pub enum SearchKind {
    Star,
    Messier,
    Ngc,
    Ic,
    SolarSystem,
}

impl SearchKind {
    /// Section label of the kind.
    pub open spec fn label_spec(self) -> Seq<char> {
        match self {
            SearchKind::Star => "star"@,
            SearchKind::Messier => "messier"@,
            SearchKind::Ngc => "ngc"@,
            SearchKind::Ic => "ic"@,
            SearchKind::SolarSystem => "solar-system"@,
        }
    }

    pub fn label(self) -> (r: &'static str)
        ensures
            r@ == self.label_spec(),
    {
        match self {
            SearchKind::Star => "star",
            SearchKind::Messier => "messier",
            SearchKind::Ngc => "ngc",
            SearchKind::Ic => "ic",
            SearchKind::SolarSystem => "solar-system",
        }
    }
}

/// Stable identifier of a search hit.
#[derive(Debug, Clone, PartialEq, Eq, Hash)]
pub enum SearchId {
    /// Index into the named-stars table.
    NamedStar(u32),
    Messier(u16),
    Ngc(u16),
    Ic(u16),
    /// One of `"sun"`, `"moon"`, `"mercury"`, …, `"neptune"`.
    SolarSystem(&'static str),
}

/// Mathematical form of a [`SearchId`]: the solar-system name as characters.
pub ghost enum SearchIdView {
    NamedStar(u32),
    Messier(u16),
    Ngc(u16),
    Ic(u16),
    SolarSystem(Seq<char>),
}

impl View for SearchId {
    type V = SearchIdView;

    open spec fn view(&self) -> SearchIdView {
        match self {
            SearchId::NamedStar(i) => SearchIdView::NamedStar(*i),
            SearchId::Messier(n) => SearchIdView::Messier(*n),
            SearchId::Ngc(n) => SearchIdView::Ngc(*n),
            SearchId::Ic(n) => SearchIdView::Ic(*n),
            SearchId::SolarSystem(s) => SearchIdView::SolarSystem(s@),
        }
    }
}

/// Canonical keys of the solar-system bodies the search knows.
pub open spec fn is_solar_canonical(s: Seq<char>) -> bool {
    ||| s == "sun"@
    ||| s == "moon"@
    ||| s == "mercury"@
    ||| s == "venus"@
    ||| s == "mars"@
    ||| s == "jupiter"@
    ||| s == "saturn"@
    ||| s == "uranus"@
    ||| s == "neptune"@
}

/// The encoded form `kind:value` of an identifier.
pub open spec fn encode_spec(id: SearchIdView) -> Seq<char> {
    match id {
        SearchIdView::NamedStar(i) => "star:"@ + dec(i as nat),
        SearchIdView::Messier(n) => "m:"@ + dec(n as nat),
        SearchIdView::Ngc(n) => "ngc:"@ + dec(n as nat),
        SearchIdView::Ic(n) => "ic:"@ + dec(n as nat),
        SearchIdView::SolarSystem(s) => "ss:"@ + s,
    }
}

/// The identifier an encoded string stands for: the text up to the first
/// `:` names the kind, the rest is the value.
pub open spec fn parse_spec(s: Seq<char>) -> Option<SearchIdView> {
    match find_char(s, ':') {
        None => None,
        Some(i) => {
            let kind = s.take(i);
            let rest = s.skip(i + 1);
            if kind == "star"@ {
                match parse_bounded(rest, 0xffff_ffff) {
                    Some(n) => Some(SearchIdView::NamedStar(n as u32)),
                    None => None,
                }
            } else if kind == "m"@ {
                match parse_bounded(rest, 0xffff) {
                    Some(n) => Some(SearchIdView::Messier(n as u16)),
                    None => None,
                }
            } else if kind == "ngc"@ {
                match parse_bounded(rest, 0xffff) {
                    Some(n) => Some(SearchIdView::Ngc(n as u16)),
                    None => None,
                }
            } else if kind == "ic"@ {
                match parse_bounded(rest, 0xffff) {
                    Some(n) => Some(SearchIdView::Ic(n as u16)),
                    None => None,
                }
            } else if kind == "ss"@ {
                if is_solar_canonical(rest) {
                    Some(SearchIdView::SolarSystem(rest))
                } else {
                    None
                }
            } else {
                None
            }
        },
    }
}

/// The canonical solar-system key equal to `v`, if any.
fn solar_canonical(v: &[char]) -> (r: Option<&'static str>)
    ensures
        match r {
            Some(name) => is_solar_canonical(v@) && name@ == v@,
            None => !is_solar_canonical(v@),
        },
{
    let names: [&'static str; 9] = [
        "sun",
        "moon",
        "mercury",
        "venus",
        "mars",
        "jupiter",
        "saturn",
        "uranus",
        "neptune",
    ];
    let mut k: usize = 0;
    while k < 9
        invariant
            k <= 9,
            names@ == seq![
                "sun",
                "moon",
                "mercury",
                "venus",
                "mars",
                "jupiter",
                "saturn",
                "uranus",
                "neptune",
            ],
            forall|j: int| 0 <= j < k ==> v@ != (#[trigger] names@[j])@,
        decreases 9 - k,
    {
        let cand = chars_of(names[k]);
        if chars_eq(v, &cand) {
            return Some(names[k]);
        }
        k += 1;
    }
    assert(v@ != names@[0]@);
    assert(v@ != names@[1]@);
    assert(v@ != names@[2]@);
    assert(v@ != names@[3]@);
    assert(v@ != names@[4]@);
    assert(v@ != names@[5]@);
    assert(v@ != names@[6]@);
    assert(v@ != names@[7]@);
    assert(v@ != names@[8]@);
    None
}

impl SearchId {
    /// Encode the id as a `kind:value` string that round-trips through
    /// [`SearchId::parse`].
    pub fn encode(&self) -> (r: String)
        ensures
            r@ == encode_spec(self@),
    {
        let mut v: Vec<char> = Vec::new();
        let ghost e: Seq<char> = Seq::empty();
        match self {
            SearchId::NamedStar(idx) => {
                push_str(&mut v, "star:");
                assert(e + "star:"@ =~= "star:"@);
                push_dec(&mut v, *idx as u64);
            },
            SearchId::Messier(n) => {
                push_str(&mut v, "m:");
                assert(e + "m:"@ =~= "m:"@);
                push_dec(&mut v, *n as u64);
            },
            SearchId::Ngc(n) => {
                push_str(&mut v, "ngc:");
                assert(e + "ngc:"@ =~= "ngc:"@);
                push_dec(&mut v, *n as u64);
            },
            SearchId::Ic(n) => {
                push_str(&mut v, "ic:");
                assert(e + "ic:"@ =~= "ic:"@);
                push_dec(&mut v, *n as u64);
            },
            SearchId::SolarSystem(name) => {
                push_str(&mut v, "ss:");
                assert(e + "ss:"@ =~= "ss:"@);
                push_str(&mut v, name);
            },
        }
        string_from_chars(&v)
    }

    /// Parse a string produced by [`encode`](Self::encode).
    pub fn parse(raw: &str) -> (r: Option<SearchId>)
        ensures
            match parse_spec(raw@) {
                Some(id) => r is Some && r->0@ == id,
                None => r is None,
            },
    {
        let v = chars_of(raw);
        proof {
            lemma_find_char(v@, ':');
        }
        let i = match crate::clusters::find_colon(&v) {
            Some(i) => i,
            None => return None,
        };
        let kind = sub_chars(&v, 0, i);
        let rest = skip_chars(&v, i + 1);
        assert(kind@ =~= v@.take(i as int));
        if chars_eq(&kind, &chars_of("star")) {
            match parse_unsigned_chars(&rest, 0xffff_ffff) {
                Some(n) => Some(SearchId::NamedStar(n as u32)),
                None => None,
            }
        } else if chars_eq(&kind, &chars_of("m")) {
            match parse_unsigned_chars(&rest, 0xffff) {
                Some(n) => Some(SearchId::Messier(n as u16)),
                None => None,
            }
        } else if chars_eq(&kind, &chars_of("ngc")) {
            match parse_unsigned_chars(&rest, 0xffff) {
                Some(n) => Some(SearchId::Ngc(n as u16)),
                None => None,
            }
        } else if chars_eq(&kind, &chars_of("ic")) {
            match parse_unsigned_chars(&rest, 0xffff) {
                Some(n) => Some(SearchId::Ic(n as u16)),
                None => None,
            }
        } else if chars_eq(&kind, &chars_of("ss")) {
            match solar_canonical(&rest) {
                Some(name) => Some(SearchId::SolarSystem(name)),
                None => None,
            }
        } else {
            None
        }
    }
}

/// True when an identifier's value is one that [`SearchId::encode`] can
/// produce and [`SearchId::parse`] accepts: any number, or a canonical
/// solar-system key.
pub open spec fn encodable(id: SearchIdView) -> bool {
    match id {
        SearchIdView::SolarSystem(s) => is_solar_canonical(s),
        _ => true,
    }
}

proof fn lemma_prefix_colon(k: Seq<char>, body: Seq<char>)
    requires
        find_char(k, ':') is None,
        find_char(body, ':') is None,
    ensures
        find_char(k + seq![':'] + body, ':') == Some(k.len() as int),
        (k + seq![':'] + body).take(k.len() as int) == k,
        (k + seq![':'] + body).skip(k.len() as int + 1) == body,
{
    let s = k + seq![':'] + body;
    lemma_find_char(k, ':');
    lemma_find_char(s, ':');
    assert(s[k.len() as int] == ':');
    match find_char(s, ':') {
        Some(i) => {
            if i < k.len() {
                assert(s[i] == k[i]);
            }
        },
        None => {},
    }
    assert(s.take(k.len() as int) =~= k);
    assert(s.skip(k.len() as int + 1) =~= body);
}

proof fn lemma_dec_no_colon(n: nat)
    ensures
        find_char(dec(n), ':') is None,
{
    lemma_dec(n);
    lemma_find_char(dec(n), ':');
    match find_char(dec(n), ':') {
        Some(i) => {
            assert(all_digits(dec(n)));
            assert(crate::text::is_digit(dec(n)[i]));
        },
        None => {},
    }
}

/// Law: parsing the encoding of an identifier gives the identifier back.
pub proof fn lemma_search_id_round_trip(id: SearchIdView)
    requires
        encodable(id),
    ensures
        parse_spec(encode_spec(id)) == Some(id),
{
    reveal_strlit("star:");
    reveal_strlit("star");
    reveal_strlit("m:");
    reveal_strlit("m");
    reveal_strlit("ngc:");
    reveal_strlit("ngc");
    reveal_strlit("ic:");
    reveal_strlit("ic");
    reveal_strlit("ss:");
    reveal_strlit("ss");
    reveal_strlit("sun");
    reveal_strlit("moon");
    reveal_strlit("mercury");
    reveal_strlit("venus");
    reveal_strlit("mars");
    reveal_strlit("jupiter");
    reveal_strlit("saturn");
    reveal_strlit("uranus");
    reveal_strlit("neptune");
    let (k, body): (Seq<char>, Seq<char>) = match id {
        SearchIdView::NamedStar(i) => ("star"@, dec(i as nat)),
        SearchIdView::Messier(n) => ("m"@, dec(n as nat)),
        SearchIdView::Ngc(n) => ("ngc"@, dec(n as nat)),
        SearchIdView::Ic(n) => ("ic"@, dec(n as nat)),
        SearchIdView::SolarSystem(s) => ("ss"@, s),
    };
    lemma_find_char(k, ':');
    match id {
        SearchIdView::SolarSystem(s) => {
            lemma_find_char(s, ':');
            match find_char(s, ':') {
                Some(i) => {
                    assert(s[i] == ':');
                },
                None => {},
            }
        },
        SearchIdView::NamedStar(i) => {
            lemma_dec_no_colon(i as nat);
            lemma_parse_dec(i as nat);
        },
        SearchIdView::Messier(n) => {
            lemma_dec_no_colon(n as nat);
            lemma_parse_dec(n as nat);
        },
        SearchIdView::Ngc(n) => {
            lemma_dec_no_colon(n as nat);
            lemma_parse_dec(n as nat);
        },
        SearchIdView::Ic(n) => {
            lemma_dec_no_colon(n as nat);
            lemma_parse_dec(n as nat);
        },
    }
    match find_char(k, ':') {
        Some(i) => {
            assert(k[i] == ':');
        },
        None => {},
    }
    lemma_prefix_colon(k, body);
    assert(encode_spec(id) =~= k + seq![':'] + body);
}

} // verus!
