//! Validated IANA timezone identifiers, backed by the database of `chrono_tz`.

use vstd::prelude::*;

verus! {

/// Whether `name` is, with its case, the name of a zone or link of the
/// timezone database.
pub uninterp spec fn is_known_tz(name: Seq<char>) -> bool;

/// The name of the database entry whose name equals `s` when ASCII letters
/// are compared without regard to case.
pub uninterp spec fn tz_insensitive(s: Seq<char>) -> Option<Seq<char>>;

/// Relies on `FromStr` for `chrono_tz::Tz`: it accepts exactly the names of
/// the database, case included.
#[verifier::external_body]
fn known_name(s: &str) -> (r: bool)
    ensures
        r == is_known_tz(s@),
{
    <chrono_tz::Tz as std::str::FromStr>::from_str(s).is_ok()
}

/// Relies on `chrono_tz::Tz::from_str_insensitive` and `Tz::name`: the entry
/// found regardless of ASCII case, given by its name, which is one of the
/// names that `FromStr` accepts.
#[verifier::external_body]
fn insensitive_name(s: &str) -> (r: Option<String>)
    ensures
        match r {
            Some(n) => tz_insensitive(s@) == Some(n@) && is_known_tz(n@),
            None => tz_insensitive(s@) is None,
        },
{
    match chrono_tz::Tz::from_str_insensitive(s) {
        Ok(t) => Some(t.name().to_string()),
        Err(_) => None,
    }
}

/// An identifier of the IANA timezone database, such as `Europe/Paris`.
#[derive(Debug, PartialEq, Eq, PartialOrd, Ord, Hash)]
pub struct IanaTz {
    name: String,
}

impl View for IanaTz {
    type V = Seq<char>;

    closed spec fn view(&self) -> Seq<char> {
        self.name@
    }
}

impl Clone for IanaTz {
    fn clone(&self) -> Self {
        proof {
            use_type_invariant(self);
        }
        IanaTz { name: self.name.clone() }
    }
}

impl IanaTz {
    #[verifier::type_invariant]
    spec fn known(self) -> bool {
        is_known_tz(self.name@)
    }

    /// The identifier spelled exactly `s`, if the database has it.
    pub fn from_name(s: &str) -> (r: Option<IanaTz>)
        ensures
            match r {
                Some(t) => is_known_tz(s@) && t@ == s@,
                None => !is_known_tz(s@),
            },
    {
        if known_name(s) {
            Some(IanaTz { name: s.to_owned() })
        } else {
            None
        }
    }

    /// The identifier that `s` names when case is ignored; surrounding white
    /// space is not removed.
    pub fn from_name_insensitive(s: &str) -> (r: Option<IanaTz>)
        ensures
            match r {
                Some(t) => tz_insensitive(s@) == Some(t@),
                None => tz_insensitive(s@) is None,
            },
    {
        match insensitive_name(s) {
            Some(n) => Some(IanaTz { name: n }),
            None => None,
        }
    }

    /// The identifier as text.
    pub fn name(&self) -> (r: &str)
        ensures
            r@ == self@,
    {
        self.name.as_str()
    }
}

} // verus!
