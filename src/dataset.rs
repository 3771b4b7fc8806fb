//! The Windows zone table: its document format, its validation and the
//! lookups over it.

use vstd::prelude::*;
use crate::text::{
    chars_of, copy_range, find, find_chars, first_where, index_of, is_char, lemma_first_where_at,
    lemma_first_where_none, split, split_chars, starts_with, starts_with_chars, string_of,
};
use crate::tz::IanaTz;
use crate::windows::{
    lists, lookup, opt_view, reverse, rows_view, selects, strings_view, valid_row, valid_rows,
    Error, WindowsTz, WindowsTzView,
};

verus! {

/// The 64-bit digest of a table: its two version strings and its rows, in
/// order.
pub uninterp spec fn fingerprint(other: Seq<char>, typ: Seq<char>, rows: Seq<WindowsTzView>) -> u64;

/// Relies on std's `DefaultHasher` with the derived `Hash` of the rows:
/// every hasher that `DefaultHasher::new` creates starts in the same state,
/// so the digest depends on the version strings and the rows alone.
#[verifier::external_body]
fn digest(other: &String, typ: &String, zones: &Vec<WindowsTz>) -> (r: u64)
    ensures
        r == fingerprint(other@, typ@, rows_view(zones@)),
{
    let mut state = std::collections::hash_map::DefaultHasher::new();
    std::hash::Hash::hash(&(other, typ, zones), &mut state);
    std::hash::Hasher::finish(&state)
}

/// Why a table document was refused.
#[derive(Debug, Clone, Copy, PartialEq, Eq, PartialOrd, Ord, Hash)]
pub enum DatasetError {
    /// The `mapTimezones` element or its versions are missing, or a
    /// `mapZone` element lacks its `other` or `type` attribute.
    Malformed,
    /// A candidate is not a name of the timezone database.
    UnknownZone,
}

/// A validated Windows zone table with its version and digest.
pub struct WindowsZones {
    other_version: String,
    type_version: String,
    hash: u64,
    zones: Vec<WindowsTz>,
}

/// The value of a [`WindowsZones`].
pub struct WindowsZonesView {
    pub version: (Seq<char>, Seq<char>),
    pub hash: u64,
    pub zones: Seq<WindowsTzView>,
}

impl View for WindowsZones {
    type V = WindowsZonesView;

    closed spec fn view(&self) -> WindowsZonesView {
        WindowsZonesView {
            version: (self.other_version@, self.type_version@),
            hash: self.hash,
            zones: rows_view(self.zones@),
        }
    }
}

/// The value of the attribute whose opening, such as ` other="`, is `key`:
/// the text up to the next `"`. Values are taken literally.
pub open spec fn attr(tag: Seq<char>, key: Seq<char>) -> Option<Seq<char>> {
    match find(tag, key) {
        Some(i) => {
            let rest = tag.skip(i + key.len());
            match first_where(rest, is_char('"')) {
                Some(j) => Some(rest.take(j)),
                None => None,
            }
        },
        None => None,
    }
}

/// The text of a markup piece up to its closing `>`.
pub open spec fn tag_text(piece: Seq<char>) -> Seq<char> {
    match first_where(piece, is_char('>')) {
        Some(j) => piece.take(j),
        None => piece,
    }
}

/// Pieces that open an element of this name (given with its trailing
/// space).
pub open spec fn opens(name: Seq<char>) -> spec_fn(Seq<char>) -> bool {
    |p: Seq<char>| starts_with(p, name)
}

/// The row of a `mapZone` element: its `other` attribute, which must not be
/// empty, its `territory` attribute if present, and its `type` attribute
/// divided at spaces.
pub open spec fn row_of_tag(piece: Seq<char>) -> Option<WindowsTzView> {
    let t = tag_text(piece);
    match (attr(t, " other=\""@), attr(t, " type=\""@)) {
        (Some(o), Some(ty)) => if o.len() > 0 {
            Some(WindowsTzView { zone: o, territory: attr(t, " territory=\""@), iana: split(ty, ' ') })
        } else {
            None
        },
        _ => None,
    }
}

/// The rows of the `mapZone` elements among the pieces, in order; nothing
/// when one of them is not a row.
pub open spec fn rows_of(pieces: Seq<Seq<char>>) -> Option<Seq<WindowsTzView>>
    decreases pieces.len(),
{
    if pieces.len() == 0 {
        Some(Seq::empty())
    } else {
        match rows_of(pieces.drop_last()) {
            Some(rows) => if opens("mapZone "@)(pieces.last()) {
                match row_of_tag(pieces.last()) {
                    Some(r) => Some(rows.push(r)),
                    None => None,
                }
            } else {
                Some(rows)
            },
            None => None,
        }
    }
}

/// The two version attributes of the first `mapTimezones` element.
pub open spec fn header_of(pieces: Seq<Seq<char>>) -> Option<(Seq<char>, Seq<char>)> {
    match first_where(pieces, opens("mapTimezones "@)) {
        Some(i) => {
            let t = tag_text(pieces[i]);
            match (attr(t, " otherVersion=\""@), attr(t, " typeVersion=\""@)) {
                (Some(a), Some(b)) => Some((a, b)),
                _ => None,
            }
        },
        None => None,
    }
}

/// The row that every table ends with, for the universal time zone.
pub open spec fn utc_row() -> WindowsTzView {
    WindowsTzView {
        zone: "Coordinated Universal Time"@,
        territory: None,
        iana: seq!["Etc/UTC"@],
    }
}

/// The table a `windowsZones` document describes: the versions of its
/// `mapTimezones` element and the rows of its `mapZone` elements, the
/// document being cut into pieces at each `<`; the universal-time row is
/// appended, and every row must be valid.
pub open spec fn dataset_of(doc: Seq<char>) -> Result<WindowsZonesView, DatasetError> {
    let pieces = split(doc, '<');
    match (header_of(pieces), rows_of(pieces)) {
        (Some(v), Some(rows)) => {
            let zones = rows.push(utc_row());
            if valid_rows(zones) {
                Ok(WindowsZonesView { version: v, hash: fingerprint(v.0, v.1, zones), zones })
            } else {
                Err(DatasetError::UnknownZone)
            }
        },
        _ => Err(DatasetError::Malformed),
    }
}

/// A failed piece fails the whole sequence.
pub proof fn lemma_rows_prefix(s: Seq<Seq<char>>, n: int)
    requires
        0 <= n <= s.len(),
        rows_of(s.take(n)) is None,
    ensures
        rows_of(s) is None,
    decreases s.len() - n,
{
    if n < s.len() {
        assert(s.take(n + 1).drop_last() =~= s.take(n));
        lemma_rows_prefix(s, n + 1);
    } else {
        assert(s.take(n) =~= s);
    }
}

pub open spec fn row_opt_view(o: Option<WindowsTz>) -> Option<WindowsTzView> {
    match o {
        Some(w) => Some(w@),
        None => None,
    }
}

pub open spec fn str_opt_view(o: Option<&str>) -> Option<Seq<char>> {
    match o {
        Some(s) => Some(s@),
        None => None,
    }
}

/// The value of the attribute opened by `key` in `tag`.
fn attr_value(tag: &[char], key: &[char]) -> (r: Option<Vec<char>>)
    requires
        key@.len() > 0,
    ensures
        match r {
            Some(v) => attr(tag@, key@) == Some(v@),
            None => attr(tag@, key@) is None,
        },
{
    match find_chars(tag, key) {
        Some(i) => {
            let n = tag.len();
            let k = key.len();
            assert(i + k <= n);
            let rest = copy_range(tag, i + k, n);
            assert(rest@ =~= tag@.skip(i + key@.len()));
            match index_of(rest.as_slice(), '"') {
                Some(j) => {
                    let v = copy_range(rest.as_slice(), 0, j);
                    assert(v@ =~= rest@.take(j as int));
                    Some(v)
                },
                None => None,
            }
        },
        None => None,
    }
}

/// The text of a markup piece up to its closing `>`.
fn tag_of(piece: &[char]) -> (r: Vec<char>)
    ensures
        r@ == tag_text(piece@),
{
    match index_of(piece, '>') {
        Some(j) => {
            let t = copy_range(piece, 0, j);
            assert(t@ =~= piece@.take(j as int));
            t
        },
        None => {
            let t = copy_range(piece, 0, piece.len());
            assert(t@ =~= piece@);
            t
        },
    }
}

/// The characters of a literal key.
fn key_chars(k: &str) -> (r: Vec<char>)
    requires
        k@.len() > 0,
    ensures
        r@ == k@,
        r@.len() > 0,
{
    chars_of(k)
}

/// Reads the row of a `mapZone` element.
fn read_zone_tag(piece: &[char]) -> (r: Option<WindowsTz>)
    ensures
        row_opt_view(r) == row_of_tag(piece@),
{
    let t = tag_of(piece);
    proof {
        reveal_strlit(" other=\"");
        reveal_strlit(" type=\"");
        reveal_strlit(" territory=\"");
    }
    let other = attr_value(t.as_slice(), key_chars(" other=\"").as_slice());
    let ty = attr_value(t.as_slice(), key_chars(" type=\"").as_slice());
    let (o, ty) = match (other, ty) {
        (Some(o), Some(ty)) => (o, ty),
        _ => return None,
    };
    if o.len() == 0 {
        return None;
    }
    let territory = match attr_value(t.as_slice(), key_chars(" territory=\"").as_slice()) {
        Some(v) => Some(string_of(v.as_slice())),
        None => None,
    };
    let parts = split_chars(ty.as_slice(), ' ');
    let mut iana: Vec<String> = Vec::new();
    let mut i: usize = 0;
    while i < parts.len()
        invariant
            i <= parts@.len(),
            iana@.len() == i,
            parts@.map_values(|x: Vec<char>| x@) == split(ty@, ' '),
            forall|k: int| 0 <= k < i ==> (#[trigger] iana@[k])@ == parts@[k]@,
        decreases parts@.len() - i,
    {
        iana.push(string_of(parts[i].as_slice()));
        i = i + 1;
    }
    assert(strings_view(iana@) =~= split(ty@, ' '));
    Some(WindowsTz::new(string_of(o.as_slice()), territory, iana))
}

/// The universal-time row.
fn utc_windows_tz() -> (r: WindowsTz)
    ensures
        r@ == utc_row(),
{
    let mut iana: Vec<String> = Vec::new();
    iana.push("Etc/UTC".to_owned());
    assert(strings_view(iana@) =~= seq!["Etc/UTC"@]);
    WindowsTz::new("Coordinated Universal Time".to_owned(), None, iana)
}

impl WindowsZones {
    /// Reads and validates a Unicode CLDR `windowsZones` document: the
    /// `otherVersion` and `typeVersion` attributes of its `mapTimezones`
    /// element, and one row per `mapZone` element, from its `other`,
    /// `territory` and space-separated `type` attributes. The universal-time
    /// row is appended. Attribute values are taken literally.
    pub fn parse(doc: &str) -> (r: Result<WindowsZones, DatasetError>)
        ensures
            match r {
                Ok(d) => dataset_of(doc@) == Ok::<WindowsZonesView, DatasetError>(d@),
                Err(e) => dataset_of(doc@) == Err::<WindowsZonesView, DatasetError>(e),
            },
    {
        let chars = chars_of(doc);
        let pieces = split_chars(chars.as_slice(), '<');
        let ghost ps = split(doc@, '<');
        proof {
            reveal_strlit("mapTimezones ");
            reveal_strlit("mapZone ");
            reveal_strlit(" otherVersion=\"");
            reveal_strlit(" typeVersion=\"");
        }
        let timezones = key_chars("mapTimezones ");
        let zone_open = key_chars("mapZone ");
        let mut h: usize = 0;
        let mut found = false;
        while h < pieces.len() && !found
            invariant
                h <= pieces@.len(),
                ps == pieces@.map_values(|x: Vec<char>| x@),
                timezones@ == "mapTimezones "@,
                found ==> h < pieces@.len() && opens("mapTimezones "@)(ps[h as int]),
                forall|j: int| 0 <= j < h ==> !opens("mapTimezones "@)(#[trigger] ps[j]),
            decreases pieces@.len() - h + (if found { 0int } else { 1int }),
        {
            assert(ps[h as int] == pieces@[h as int]@);
            if starts_with_chars(pieces[h].as_slice(), timezones.as_slice()) {
                found = true;
            } else {
                h = h + 1;
            }
        }
        if !found {
            proof {
                lemma_first_where_none(ps, opens("mapTimezones "@));
            }
            return Err(DatasetError::Malformed);
        }
        proof {
            lemma_first_where_at(ps, opens("mapTimezones "@), h as int);
        }
        assert(ps[h as int] == pieces@[h as int]@);
        let header = tag_of(pieces[h].as_slice());
        let other_version = attr_value(header.as_slice(), key_chars(" otherVersion=\"").as_slice());
        let type_version = attr_value(header.as_slice(), key_chars(" typeVersion=\"").as_slice());
        let (other_version, type_version) = match (other_version, type_version) {
            (Some(a), Some(b)) => (string_of(a.as_slice()), string_of(b.as_slice())),
            _ => return Err(DatasetError::Malformed),
        };
        let mut zones: Vec<WindowsTz> = Vec::new();
        let mut i: usize = 0;
        assert(ps.take(0) =~= Seq::<Seq<char>>::empty());
        while i < pieces.len()
            invariant
                i <= pieces@.len(),
                ps == pieces@.map_values(|x: Vec<char>| x@),
                ps == split(doc@, '<'),
                zone_open@ == "mapZone "@,
                header_of(ps) == Some((other_version@, type_version@)),
                rows_of(ps.take(i as int)) == Some(rows_view(zones@)),
            decreases pieces@.len() - i,
        {
            assert(ps[i as int] == pieces@[i as int]@);
            assert(ps.take(i + 1).drop_last() =~= ps.take(i as int));
            let ghost before = zones@;
            if starts_with_chars(pieces[i].as_slice(), zone_open.as_slice()) {
                match read_zone_tag(pieces[i].as_slice()) {
                    Some(w) => {
                        zones.push(w);
                        assert(rows_view(zones@) =~= rows_view(before).push(w@));
                    },
                    None => {
                        proof {
                            lemma_rows_prefix(ps, i + 1);
                        }
                        return Err(DatasetError::Malformed);
                    },
                }
            }
            i = i + 1;
        }
        assert(ps.take(i as int) =~= ps);
        let ghost rows = rows_view(zones@);
        zones.push(utc_windows_tz());
        let ghost all = rows.push(utc_row());
        assert(rows_view(zones@) =~= all);
        let mut j: usize = 0;
        while j < zones.len()
            invariant
                j <= zones@.len(),
                rows_view(zones@) == all,
                all == rows.push(utc_row()),
                rows_of(ps) == Some(rows),
                ps == split(doc@, '<'),
                header_of(ps) == Some((other_version@, type_version@)),
                forall|k: int| 0 <= k < j ==> valid_row(#[trigger] all[k]),
            decreases zones@.len() - j,
        {
            if !zones[j].is_valid() {
                assert(!valid_row(all[j as int]));
                assert(!valid_rows(all));
                return Err(DatasetError::UnknownZone);
            }
            j = j + 1;
        }
        let hash = digest(&other_version, &type_version, &zones);
        Ok(WindowsZones { other_version, type_version, hash, zones })
    }

    /// The two version strings of the table: the version of the Windows
    /// names and the version of the IANA names.
    pub fn version(&self) -> (r: (String, String))
        ensures
            r.0@ == self@.version.0 && r.1@ == self@.version.1,
    {
        (self.other_version.clone(), self.type_version.clone())
    }

    /// The digest of the table.
    pub fn hash(&self) -> (r: u64)
        ensures
            r == self@.hash,
    {
        self.hash
    }

    /// The number of rows.
    pub fn len(&self) -> (r: usize)
        ensures
            r == self@.zones.len(),
    {
        self.zones.len()
    }

    /// The row at position `i`.
    pub fn row(&self, i: usize) -> (r: &WindowsTz)
        requires
            i < self@.zones.len(),
        ensures
            r@ == self@.zones[i as int],
    {
        &self.zones[i]
    }

    /// The first row with this key name and, when one is given, this
    /// territory.
    pub fn find(&self, zone: &str, territory: Option<&str>) -> (r: Option<WindowsTz>)
        ensures
            row_opt_view(r) == lookup(self@.zones, zone@, str_opt_view(territory)),
    {
        let key = zone.to_owned();
        let terr: Option<String> = match territory {
            Some(t) => Some(t.to_owned()),
            None => None,
        };
        assert(opt_view(terr) == str_opt_view(territory));
        let ghost t = rows_view(self.zones@);
        let ghost p = selects(zone@, str_opt_view(territory));
        let mut i: usize = 0;
        while i < self.zones.len()
            invariant
                i <= self.zones@.len(),
                t == rows_view(self.zones@),
                p == selects(zone@, str_opt_view(territory)),
                key@ == zone@,
                opt_view(terr) == str_opt_view(territory),
                forall|j: int| 0 <= j < i ==> !p(#[trigger] t[j]),
            decreases self.zones@.len() - i,
        {
            assert(t[i as int] == self.zones@[i as int]@);
            if self.zones[i].is_selected(&key, &terr) {
                proof {
                    lemma_first_where_at(t, p, i as int);
                }
                return Some(self.zones[i].copy());
            }
            i = i + 1;
        }
        proof {
            lemma_first_where_none(t, p);
        }
        None
    }

    /// The first row that lists `name` among its candidates.
    pub fn find_iana(&self, name: &str) -> (r: Option<WindowsTz>)
        ensures
            row_opt_view(r) == reverse(self@.zones, name@),
    {
        let key = name.to_owned();
        let ghost t = rows_view(self.zones@);
        let ghost p = lists(name@);
        let mut i: usize = 0;
        while i < self.zones.len()
            invariant
                i <= self.zones@.len(),
                t == rows_view(self.zones@),
                p == lists(name@),
                key@ == name@,
                forall|j: int| 0 <= j < i ==> !p(#[trigger] t[j]),
            decreases self.zones@.len() - i,
        {
            assert(t[i as int] == self.zones@[i as int]@);
            if self.zones[i].lists_name(&key) {
                proof {
                    lemma_first_where_at(t, p, i as int);
                }
                return Some(self.zones[i].copy());
            }
            i = i + 1;
        }
        proof {
            lemma_first_where_none(t, p);
        }
        None
    }

    /// The row for an IANA identifier: the first that lists it.
    pub fn to_windows(&self, tz: &IanaTz) -> (r: Result<WindowsTz, Error>)
        ensures
            match r {
                Ok(w) => reverse(self@.zones, tz@) == Some(w@),
                Err(e) => reverse(self@.zones, tz@) is None && e == Error::UnknownTimezone,
            },
    {
        match self.find_iana(tz.name()) {
            Some(w) => Ok(w),
            None => Err(Error::UnknownTimezone),
        }
    }
}

} // verus!
