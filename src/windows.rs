//! Windows timezone key names and their IANA counterparts.

use vstd::prelude::*;
use crate::text::first_where;
use crate::tz::{is_known_tz, IanaTz};

verus! {

/// Errors of the lookups between Windows names and IANA identifiers.
#[derive(Debug, Clone, Copy, PartialEq, Eq, PartialOrd, Ord, Hash)]
pub enum Error {
    UnknownTimezone,
}

/// One row of the Windows zone table: a Windows key name, the territory it
/// is given for, and the IANA identifiers it stands for, canonical first.
#[derive(Debug, PartialEq, Eq, PartialOrd, Ord, Hash)]
pub struct WindowsTz {
    zone: String,
    territory: Option<String>,
    iana: Vec<String>,
}

/// The value of a [`WindowsTz`].
pub struct WindowsTzView {
    pub zone: Seq<char>,
    pub territory: Option<Seq<char>>,
    pub iana: Seq<Seq<char>>,
}

pub open spec fn opt_view(o: Option<String>) -> Option<Seq<char>> {
    match o {
        Some(s) => Some(s@),
        None => None,
    }
}

pub open spec fn strings_view(v: Seq<String>) -> Seq<Seq<char>> {
    v.map_values(|s: String| s@)
}

impl View for WindowsTz {
    type V = WindowsTzView;

    closed spec fn view(&self) -> WindowsTzView {
        WindowsTzView { zone: self.zone@, territory: opt_view(self.territory), iana: strings_view(self.iana@) }
    }
}

/// The views of a sequence of rows.
pub open spec fn rows_view(v: Seq<WindowsTz>) -> Seq<WindowsTzView> {
    v.map_values(|w: WindowsTz| w@)
}

/// A row is usable when it lists at least one candidate and every candidate
/// is a name of the timezone database.
pub open spec fn valid_row(w: WindowsTzView) -> bool {
    w.iana.len() > 0 && forall|j: int| 0 <= j < w.iana.len() ==> is_known_tz(#[trigger] w.iana[j])
}

/// Every row of the table is usable.
pub open spec fn valid_rows(t: Seq<WindowsTzView>) -> bool {
    forall|i: int| 0 <= i < t.len() ==> valid_row(#[trigger] t[i])
}

/// Rows with this key name and, when one is given, this territory.
pub open spec fn selects(zone: Seq<char>, territory: Option<Seq<char>>) -> spec_fn(WindowsTzView) -> bool {
    |w: WindowsTzView| w.zone == zone && (territory is Some ==> w.territory == territory)
}

/// Rows that list this IANA identifier among their candidates.
pub open spec fn lists(name: Seq<char>) -> spec_fn(WindowsTzView) -> bool {
    |w: WindowsTzView| w.iana.contains(name)
}

/// The first row of `t` with this key name and, when one is given, this
/// territory.
pub open spec fn lookup(t: Seq<WindowsTzView>, zone: Seq<char>, territory: Option<Seq<char>>) -> Option<WindowsTzView> {
    match first_where(t, selects(zone, territory)) {
        Some(i) => Some(t[i]),
        None => None,
    }
}

/// The first row of `t` that lists `name`.
pub open spec fn reverse(t: Seq<WindowsTzView>, name: Seq<char>) -> Option<WindowsTzView> {
    match first_where(t, lists(name)) {
        Some(i) => Some(t[i]),
        None => None,
    }
}

/// The IANA identifier a row converts to: its first candidate, when the
/// database knows it.
pub open spec fn iana_of(w: WindowsTzView) -> Option<Seq<char>> {
    if w.iana.len() > 0 && is_known_tz(w.iana[0]) {
        Some(w.iana[0])
    } else {
        None
    }
}

impl WindowsTz {
    /// A row from its parts.
    pub fn new(zone: String, territory: Option<String>, iana: Vec<String>) -> (r: WindowsTz)
        ensures
            r@ == (WindowsTzView { zone: zone@, territory: opt_view(territory), iana: strings_view(iana@) }),
    {
        WindowsTz { zone, territory, iana }
    }

    /// The Windows key name.
    pub fn zone(&self) -> (r: &str)
        ensures
            r@ == self@.zone,
    {
        self.zone.as_str()
    }

    /// The territory the row is given for, if any.
    pub fn territory(&self) -> (r: Option<&str>)
        ensures
            match r {
                Some(t) => self@.territory == Some(t@),
                None => self@.territory is None,
            },
    {
        match &self.territory {
            Some(t) => Some(t.as_str()),
            None => None,
        }
    }

    /// The number of IANA candidates.
    pub fn iana_len(&self) -> (r: usize)
        ensures
            r == self@.iana.len(),
    {
        self.iana.len()
    }

    /// The IANA candidate at position `i`.
    pub fn iana_at(&self, i: usize) -> (r: &str)
        requires
            i < self@.iana.len(),
        ensures
            r@ == self@.iana[i as int],
    {
        self.iana[i].as_str()
    }

    /// A copy of the row.
    pub fn copy(&self) -> (r: WindowsTz)
        ensures
            r@ == self@,
    {
        let mut iana: Vec<String> = Vec::new();
        let mut i: usize = 0;
        while i < self.iana.len()
            invariant
                i <= self.iana@.len(),
                iana@.len() == i,
                forall|j: int| 0 <= j < i ==> (#[trigger] iana@[j])@ == self.iana@[j]@,
            decreases self.iana@.len() - i,
        {
            iana.push(self.iana[i].clone());
            i = i + 1;
        }
        assert(strings_view(iana@) =~= strings_view(self.iana@));
        let territory = match &self.territory {
            Some(t) => Some(t.clone()),
            None => None,
        };
        WindowsTz { zone: self.zone.clone(), territory, iana }
    }

    /// Whether the row lists at least one candidate and all of them are names
    /// of the timezone database.
    pub fn is_valid(&self) -> (r: bool)
        ensures
            r == valid_row(self@),
    {
        if self.iana.len() == 0 {
            return false;
        }
        let mut i: usize = 0;
        while i < self.iana.len()
            invariant
                i <= self.iana@.len(),
                forall|j: int| 0 <= j < i ==> is_known_tz(#[trigger] strings_view(self.iana@)[j]),
            decreases self.iana@.len() - i,
        {
            if IanaTz::from_name(self.iana[i].as_str()).is_none() {
                assert(!is_known_tz(strings_view(self.iana@)[i as int]));
                return false;
            }
            i = i + 1;
        }
        true
    }

    /// Whether the row has this key name and, when one is given, this
    /// territory.
    pub fn is_selected(&self, zone: &String, territory: &Option<String>) -> (r: bool)
        ensures
            r == selects(zone@, opt_view(*territory))(self@),
    {
        if !(self.zone == *zone) {
            return false;
        }
        match territory {
            None => true,
            Some(t) => match &self.territory {
                Some(own) => *own == *t,
                None => false,
            },
        }
    }

    /// Whether the row lists `name` among its candidates.
    pub fn lists_name(&self, name: &String) -> (r: bool)
        ensures
            r == lists(name@)(self@),
    {
        let mut i: usize = 0;
        while i < self.iana.len()
            invariant
                i <= self.iana@.len(),
                forall|j: int| 0 <= j < i ==> #[trigger] strings_view(self.iana@)[j] != name@,
            decreases self.iana@.len() - i,
        {
            if self.iana[i] == *name {
                assert(strings_view(self.iana@)[i as int] == name@);
                return true;
            }
            i = i + 1;
        }
        false
    }

    /// The IANA identifier of the row: its first candidate.
    pub fn to_iana(&self) -> (r: Result<IanaTz, Error>)
        ensures
            match r {
                Ok(t) => iana_of(self@) == Some(t@),
                Err(e) => iana_of(self@) is None && e == Error::UnknownTimezone,
            },
    {
        if self.iana.len() == 0 {
            return Err(Error::UnknownTimezone);
        }
        match IanaTz::from_name(self.iana[0].as_str()) {
            Some(t) => Ok(t),
            None => Err(Error::UnknownTimezone),
        }
    }
}

} // verus!
