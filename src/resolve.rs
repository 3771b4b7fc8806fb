//! The decisions of the timezone resolution strategies. The caller reads
//! the environment, the files and the native APIs, and hands in what it
//! found; these functions pick the identifier.

use vstd::prelude::*;
use crate::bundled::bundled_table;
use crate::dataset::str_opt_view;
use crate::text::{
    chars_of, copy_range, find, find_chars, first_where, index_of, is_char, lemma_first_where,
    lemma_first_where_at, lemma_first_where_none, split, split_chars, starts_with,
    starts_with_chars, string_of, trim, trim_chars, trim_start, trim_start_chars,
};
use crate::tz::{tz_insensitive, IanaTz};
use crate::windows::{iana_of, lookup, opt_view, WindowsTz};

verus! {

/// The text of UTF-16 code units, with each unpaired surrogate replaced by
/// U+FFFD.
pub uninterp spec fn utf16_lossy(units: Seq<u16>) -> Seq<char>;

/// Relies on `String::from_utf16_lossy`: it decodes UTF-16 and depends on
/// the code units alone.
#[verifier::external_body]
fn decode_utf16(units: &[u16]) -> (r: String)
    ensures
        r@ == utf16_lossy(units@),
{
    String::from_utf16_lossy(units)
}

pub open spec fn opt_tz_view(o: Option<IanaTz>) -> Option<Seq<char>> {
    match o {
        Some(t) => Some(t@),
        None => None,
    }
}

/// The first of two outcomes that found something.
pub open spec fn or_else(a: Option<Seq<char>>, b: Option<Seq<char>>) -> Option<Seq<char>> {
    if a is Some {
        a
    } else {
        b
    }
}

/// The identifier a candidate text names: the text without surrounding
/// white space, matched regardless of case.
pub open spec fn tz_of(s: Seq<char>) -> Option<Seq<char>> {
    tz_insensitive(trim(s))
}

/// The identifier a text names, when there is a text.
pub open spec fn tz_of_opt(s: Option<Seq<char>>) -> Option<Seq<char>> {
    match s {
        Some(t) => tz_of(t),
        None => None,
    }
}

/// The marker that precedes the identifier in a path into the database.
pub open spec fn zoneinfo_marker() -> Seq<char> {
    "/zoneinfo/"@
}

/// The identifier in a path into the database: what follows the first
/// `/zoneinfo/`.
pub open spec fn tz_of_path(path: Seq<char>) -> Option<Seq<char>> {
    match find(path, zoneinfo_marker()) {
        Some(i) => tz_of(path.skip(i + zoneinfo_marker().len())),
        None => None,
    }
}

/// Lines whose text, after leading white space, begins with one of the keys.
pub open spec fn keyed(keys: Seq<Seq<char>>) -> spec_fn(Seq<char>) -> bool {
    |l: Seq<char>| exists|k: int| 0 <= k < keys.len() && starts_with(trim_start(l), #[trigger] keys[k])
}

/// The identifier in a `KEY=value` file: the value of the first line that
/// begins with one of the keys, if that line holds a `=`.
pub open spec fn tz_of_config(text: Seq<char>, keys: Seq<Seq<char>>) -> Option<Seq<char>> {
    let lines = split(text, '\n');
    match first_where(lines, keyed(keys)) {
        Some(i) => match first_where(lines[i], is_char('=')) {
            Some(j) => tz_of(lines[i].skip(j + 1)),
            None => None,
        },
        None => None,
    }
}

/// The identifier a candidate text names, trimmed and matched regardless of
/// case.
pub fn as_tz(s: &str) -> (r: Option<IanaTz>)
    ensures
        opt_tz_view(r) == tz_of(s@),
{
    let chars = chars_of(s);
    let trimmed = trim_chars(chars.as_slice());
    let text = string_of(trimmed.as_slice());
    IanaTz::from_name_insensitive(text.as_str())
}

/// The identifier in a path into the timezone database, such as the target
/// of `/etc/localtime`.
pub fn tz_from_path(path: &str) -> (r: Option<IanaTz>)
    ensures
        opt_tz_view(r) == tz_of_path(path@),
{
    let chars = chars_of(path);
    let marker = chars_of("/zoneinfo/");
    proof {
        reveal_strlit("/zoneinfo/");
    }
    match find_chars(chars.as_slice(), marker.as_slice()) {
        Some(i) => {
            let n = chars.len();
            let m = marker.len();
            assert(i + m <= n);
            let rest = copy_range(chars.as_slice(), i + m, n);
            assert(rest@ =~= path@.skip(i + zoneinfo_marker().len()));
            as_tz(string_of(rest.as_slice()).as_str())
        },
        None => None,
    }
}

/// Whether the line, after leading white space, begins with one of the keys.
fn has_key(line: &[char], keys: &Vec<Vec<char>>) -> (r: bool)
    ensures
        r == keyed(keys@.map_values(|k: Vec<char>| k@))(line@),
{
    let ghost ks = keys@.map_values(|k: Vec<char>| k@);
    let t = trim_start_chars(line);
    let mut i: usize = 0;
    while i < keys.len()
        invariant
            i <= keys@.len(),
            ks == keys@.map_values(|k: Vec<char>| k@),
            t@ == trim_start(line@),
            forall|k: int| 0 <= k < i ==> !starts_with(t@, #[trigger] ks[k]),
        decreases keys@.len() - i,
    {
        assert(ks[i as int] == keys@[i as int]@);
        if starts_with_chars(t.as_slice(), keys[i].as_slice()) {
            return true;
        }
        i = i + 1;
    }
    false
}

/// The identifier in a `KEY=value` file: the value of the first line that
/// begins, after leading white space, with one of the keys.
pub fn tz_from_config(text: &str, keys: &Vec<Vec<char>>) -> (r: Option<IanaTz>)
    ensures
        opt_tz_view(r) == tz_of_config(text@, keys@.map_values(|k: Vec<char>| k@)),
{
    let ghost ks = keys@.map_values(|k: Vec<char>| k@);
    let chars = chars_of(text);
    let lines = split_chars(chars.as_slice(), '\n');
    let ghost ls = split(text@, '\n');
    let ghost p = keyed(ks);
    let mut i: usize = 0;
    while i < lines.len()
        invariant
            i <= lines@.len(),
            ls == lines@.map_values(|x: Vec<char>| x@),
            ls == split(text@, '\n'),
            p == keyed(ks),
            ks == keys@.map_values(|k: Vec<char>| k@),
            forall|j: int| 0 <= j < i ==> !p(#[trigger] ls[j]),
        decreases lines@.len() - i,
    {
        assert(ls[i as int] == lines@[i as int]@);
        if has_key(lines[i].as_slice(), keys) {
            proof {
                lemma_first_where_at(ls, p, i as int);
            }
            let line = &lines[i];
            return match index_of(line.as_slice(), '=') {
                Some(j) => {
                    let n = line.len();
                    assert(j < n);
                    let value = copy_range(line.as_slice(), j + 1, n);
                    assert(value@ =~= ls[i as int].skip(j + 1));
                    as_tz(string_of(value.as_slice()).as_str())
                },
                None => None,
            };
        }
        i = i + 1;
    }
    proof {
        lemma_first_where_none(ls, p);
    }
    None
}

/// The identifier a text names, when there is a text.
fn tz_from_opt(t: &Option<String>) -> (r: Option<IanaTz>)
    ensures
        opt_tz_view(r) == tz_of_opt(opt_view(*t)),
{
    match t {
        Some(x) => as_tz(x.as_str()),
        None => None,
    }
}

/// The identifier in a path, when there is a path.
pub open spec fn tz_of_path_opt(t: Option<Seq<char>>) -> Option<Seq<char>> {
    match t {
        Some(x) => tz_of_path(x),
        None => None,
    }
}

fn tz_from_path_opt(t: &Option<String>) -> (r: Option<IanaTz>)
    ensures
        opt_tz_view(r) == tz_of_path_opt(opt_view(*t)),
{
    match t {
        Some(x) => tz_from_path(x.as_str()),
        None => None,
    }
}

/// The identifier in a `KEY=value` file, when there is a file.
pub open spec fn tz_of_config_opt(t: Option<Seq<char>>, keys: Seq<Seq<char>>) -> Option<Seq<char>> {
    match t {
        Some(x) => tz_of_config(x, keys),
        None => None,
    }
}

fn tz_from_config_opt(t: &Option<String>, keys: &Vec<Vec<char>>) -> (r: Option<IanaTz>)
    ensures
        opt_tz_view(r) == tz_of_config_opt(opt_view(*t), keys@.map_values(|k: Vec<char>| k@)),
{
    match t {
        Some(x) => tz_from_config(x.as_str(), keys),
        None => None,
    }
}

/// The keys, as character sequences.
fn key_list(first: &str, second: Option<&str>) -> (r: Vec<Vec<char>>)
    ensures
        r@.map_values(|k: Vec<char>| k@) == match second {
            Some(s) => seq![first@, s@],
            None => seq![first@],
        },
{
    let mut keys: Vec<Vec<char>> = Vec::new();
    keys.push(chars_of(first));
    match second {
        Some(s) => {
            keys.push(chars_of(s));
            assert(keys@.map_values(|k: Vec<char>| k@) =~= seq![first@, s@]);
        },
        None => {
            assert(keys@.map_values(|k: Vec<char>| k@) =~= seq![first@]);
        },
    }
    keys
}

/// What the Unix strategy reads, each `None` where the source is absent or
/// cannot be read.
pub struct UnixSources {
    /// The `TZ` environment variable.
    pub tz_var: Option<String>,
    /// The contents of `/etc/timezone`.
    pub etc_timezone: Option<String>,
    /// The contents of `/var/db/zoneinfo`.
    pub var_db_zoneinfo: Option<String>,
    /// The canonical path that the link `/etc/localtime` leads to.
    pub localtime_target: Option<String>,
    /// The canonical path that the link `usr/local/etc/localtime` leads to.
    pub local_localtime_target: Option<String>,
    /// The contents of `etc/sysconfig/clock`.
    pub sysconfig_clock: Option<String>,
    /// The contents of `/etc/conf.d/clock`.
    pub conf_d_clock: Option<String>,
    /// The contents of `/etc/default/init`.
    pub default_init: Option<String>,
    /// The contents of `usr/local/etc/default/init`.
    pub local_default_init: Option<String>,
}

/// The Unix strategy: the first source, in the order of the fields, that
/// names an identifier. Name files and the variable hold the identifier
/// itself; the links lead into the database; the configuration files are
/// searched for `ZONE` or `TIMEZONE`, `TIMEZONE`, then `TZ` twice.
pub open spec fn unix_resolution(s: UnixSources) -> Option<Seq<char>> {
    or_else(tz_of_opt(opt_view(s.tz_var)),
    or_else(tz_of_opt(opt_view(s.etc_timezone)),
    or_else(tz_of_opt(opt_view(s.var_db_zoneinfo)),
    or_else(tz_of_path_opt(opt_view(s.localtime_target)),
    or_else(tz_of_path_opt(opt_view(s.local_localtime_target)),
    or_else(tz_of_config_opt(opt_view(s.sysconfig_clock), seq!["ZONE"@, "TIMEZONE"@]),
    or_else(tz_of_config_opt(opt_view(s.conf_d_clock), seq!["TIMEZONE"@]),
    or_else(tz_of_config_opt(opt_view(s.default_init), seq!["TZ"@]),
    tz_of_config_opt(opt_view(s.local_default_init), seq!["TZ"@])))))))))
}

/// Picks the timezone from what the Unix sources hold.
pub fn unix_tz(s: &UnixSources) -> (r: Option<IanaTz>)
    ensures
        opt_tz_view(r) == unix_resolution(*s),
{
    let found = tz_from_opt(&s.tz_var);
    if found.is_some() {
        return found;
    }
    let found = tz_from_opt(&s.etc_timezone);
    if found.is_some() {
        return found;
    }
    let found = tz_from_opt(&s.var_db_zoneinfo);
    if found.is_some() {
        return found;
    }
    let found = tz_from_path_opt(&s.localtime_target);
    if found.is_some() {
        return found;
    }
    let found = tz_from_path_opt(&s.local_localtime_target);
    if found.is_some() {
        return found;
    }
    let found = tz_from_config_opt(&s.sysconfig_clock, &key_list("ZONE", Some("TIMEZONE")));
    if found.is_some() {
        return found;
    }
    let found = tz_from_config_opt(&s.conf_d_clock, &key_list("TIMEZONE", None));
    if found.is_some() {
        return found;
    }
    let found = tz_from_config_opt(&s.default_init, &key_list("TZ", None));
    if found.is_some() {
        return found;
    }
    tz_from_config_opt(&s.local_default_init, &key_list("TZ", None))
}

/// Code units equal to `u`.
pub open spec fn is_unit(u: u16) -> spec_fn(u16) -> bool {
    |x: u16| x == u
}

/// The units of a buffer up to its first NUL.
pub open spec fn key_units(b: Seq<u16>) -> Seq<u16> {
    match first_where(b, is_unit(0)) {
        Some(i) => b.take(i),
        None => b,
    }
}

/// The identifier for a Windows key name held in a NUL-terminated UTF-16
/// buffer: the first row of the shipped table with that name, converted.
pub open spec fn tz_of_key(b: Seq<u16>) -> Option<Seq<char>> {
    match bundled_table() {
        Ok(d) => match lookup(d.zones, utf16_lossy(key_units(b)), None) {
            Some(w) => iana_of(w),
            None => None,
        },
        Err(_) => None,
    }
}

/// The Windows strategy: the zone the calendar API reports, read as an
/// identifier; failing that, the key name of the system time zone looked up
/// in the shipped table.
pub open spec fn windows_resolution(calendar_zone: Option<Seq<char>>, key_name: Option<Seq<u16>>) -> Option<Seq<char>> {
    or_else(tz_of_opt(calendar_zone), match key_name {
        Some(b) => tz_of_key(b),
        None => None,
    })
}

/// The text of a NUL-terminated UTF-16 buffer.
pub fn key_text(buf: &[u16]) -> (r: String)
    ensures
        r@ == utf16_lossy(key_units(buf@)),
{
    let mut units: Vec<u16> = Vec::new();
    let mut i: usize = 0;
    while i < buf.len() && buf[i] != 0
        invariant
            i <= buf@.len(),
            units@ == buf@.take(i as int),
            forall|j: int| 0 <= j < i ==> !is_unit(0)(#[trigger] buf@[j]),
        decreases buf@.len() - i,
    {
        units.push(buf[i]);
        assert(units@ =~= buf@.take(i + 1));
        i = i + 1;
    }
    proof {
        lemma_first_where(buf@, is_unit(0));
        if i < buf@.len() {
            lemma_first_where_at(buf@, is_unit(0), i as int);
        } else {
            lemma_first_where_none(buf@, is_unit(0));
            assert(buf@.take(i as int) =~= buf@);
        }
    }
    decode_utf16(units.as_slice())
}

/// Picks the timezone from what the Windows APIs reported.
pub fn windows_tz(calendar_zone: Option<&str>, key_name: Option<&[u16]>) -> (r: Option<IanaTz>)
    ensures
        opt_tz_view(r) == windows_resolution(
            str_opt_view(calendar_zone),
            match key_name {
                Some(b) => Some(b@),
                None => None,
            },
        ),
{
    if let Some(z) = calendar_zone {
        let found = as_tz(z);
        if found.is_some() {
            return found;
        }
    }
    match key_name {
        Some(b) => {
            let name = key_text(b);
            match WindowsTz::get(name.as_str(), None) {
                Some(w) => match w.to_iana() {
                    Ok(t) => Some(t),
                    Err(_) => None,
                },
                None => None,
            }
        },
        None => None,
    }
}

/// The web strategy: the `timeZoneName` field of the resolved formatting
/// options, failing that their `timeZone` field, each read as an identifier.
pub open spec fn web_resolution(time_zone_name: Option<Seq<char>>, time_zone: Option<Seq<char>>) -> Option<Seq<char>> {
    or_else(tz_of_opt(time_zone_name), tz_of_opt(time_zone))
}

/// Picks the timezone from the fields of the resolved formatting options.
pub fn web_tz(time_zone_name: Option<&str>, time_zone: Option<&str>) -> (r: Option<IanaTz>)
    ensures
        opt_tz_view(r) == web_resolution(str_opt_view(time_zone_name), str_opt_view(time_zone)),
{
    if let Some(n) = time_zone_name {
        let found = as_tz(n);
        if found.is_some() {
            return found;
        }
    }
    match time_zone {
        Some(z) => as_tz(z),
        None => None,
    }
}

} // verus!
