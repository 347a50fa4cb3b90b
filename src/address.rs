//! Resolution of a 24-bit aircraft address into registration, country and
//! category metadata, through an ordered table of address ranges.

use vstd::prelude::*;
use vstd::string::StringExecFns;
use regex::Regex;
use rs1090::data::patterns::PATTERNS;
use rs1090::data::tail::tail;
use crate::hextext::{
    ascii_lower, ascii_lower_text, lemma_lower_text_idempotent, lemma_lower_text_index,
    lemma_radix16_value_lower, parse_hex_u32, radix16_value, to_ascii_lowercase,
};

verus! {

/// A rule that refines the metadata of a range from the registration string.
#[derive(Debug)]
pub struct CategoryRule {
    /// A regular expression searched for in the registration.
    pub pattern: String,
    pub category: Option<String>,
    pub country: Option<String>,
    pub flag: Option<String>,
}

/// An inclusive interval of addresses, written as "0x" and hex digits, with
/// the metadata of the addresses in it.
#[derive(Debug)]
pub struct AddressRange {
    pub pattern: Option<String>,
    pub start: Option<String>,
    pub end: Option<String>,
    pub country: String,
    pub flag: String,
    pub comment: Option<String>,
    pub categories: Option<Vec<CategoryRule>>,
}

/// What is known of an aircraft address; absent fields are `None`.
#[derive(Debug)]
pub struct AircraftInfo {
    pub icao24: String,
    pub registration: Option<String>,
    pub country: String,
    pub flag: String,
    pub pattern: Option<String>,
    pub category: Option<String>,
    pub comment: Option<String>,
}

/// The fields of an `AircraftInfo` as texts.
pub struct AircraftInfoView {
    pub icao24: Seq<char>,
    pub registration: Option<Seq<char>>,
    pub country: Seq<char>,
    pub flag: Seq<char>,
    pub pattern: Option<Seq<char>>,
    pub category: Option<Seq<char>>,
    pub comment: Option<Seq<char>>,
}

/// The text of an optional string.
pub open spec fn text_of(o: Option<String>) -> Option<Seq<char>> {
    match o {
        Some(s) => Some(s@),
        None => None,
    }
}

impl View for AircraftInfo {
    type V = AircraftInfoView;

    open spec fn view(&self) -> AircraftInfoView {
        AircraftInfoView {
            icao24: self.icao24@,
            registration: text_of(self.registration),
            country: self.country@,
            flag: self.flag@,
            pattern: text_of(self.pattern),
            category: text_of(self.category),
            comment: text_of(self.comment),
        }
    }
}

/// Why an address could not be resolved.
#[derive(Debug, Clone, Copy, PartialEq, Eq)]
pub enum AddressError {
    /// The address is not six hex digits.
    InvalidAddress,
}

/// The registration that an address implies, where a national scheme
/// derives one from it.
pub uninterp spec fn tail_of(addr: u32) -> Option<Seq<char>>;

/// Relies on rs1090's data::tail::tail, which derives a registration from an
/// address where a national scheme allows it; it depends on the address alone.
#[verifier::external_body]
fn tail_registration(addr: u32) -> (r: Option<String>)
    ensures
        text_of(r) == tail_of(addr),
{
    tail(addr)
}

/// A pattern that compiles as a regular expression.
pub uninterp spec fn regex_compiles(pattern: Seq<char>) -> bool;

/// A compiled pattern that matches somewhere in the text.
pub uninterp spec fn regex_finds(pattern: Seq<char>, text: Seq<char>) -> bool;

/// Relies on regex's Regex::new, which compiles a pattern or refuses it, and
/// on Regex::is_match, which tells whether it matches somewhere in the text.
#[verifier::external_body]
fn pattern_matches(pattern: &str, text: &str) -> (r: Option<bool>)
    ensures
        r.is_some() == regex_compiles(pattern@),
        r matches Some(b) ==> b == regex_finds(pattern@, text@),
{
    match Regex::new(pattern) {
        Ok(re) => Some(re.is_match(text)),
        Err(_) => None,
    }
}

/// Relies on rs1090's data::patterns::PATTERNS, the table of address ranges
/// and their category rules, in its declared order; each record is copied
/// field for field.
#[verifier::external_body]
fn address_table() -> (r: Vec<AddressRange>) {
    PATTERNS.registers.iter().map(|e| AddressRange {
        pattern: e.pattern.clone(),
        start: e.start.clone(),
        end: e.end.clone(),
        country: e.country.clone(),
        flag: e.flag.clone(),
        comment: e.comment.clone(),
        categories: e.categories.as_ref().map(|cs| cs.iter().map(|c| CategoryRule {
            pattern: c.pattern.clone(),
            category: c.category.clone(),
            country: c.country.clone(),
            flag: c.flag.clone(),
        }).collect()),
    }).collect()
}

/// A bound of a range: the text after its "0x", read in base 16.
pub open spec fn bound_of(b: Option<String>) -> Option<u32> {
    match b {
        Some(t) => if t@.len() >= 2 {
            radix16_value(t@.skip(2))
        } else {
            None
        },
        None => None,
    }
}

/// A range whose two bounds read and hold the address between them.
pub open spec fn range_contains(e: AddressRange, addr: u32) -> bool {
    match (bound_of(e.start), bound_of(e.end)) {
        (Some(lo), Some(hi)) => lo <= addr && addr <= hi,
        _ => false,
    }
}

/// The first range of the table, in its order, that holds the address.
pub open spec fn first_range(t: Seq<AddressRange>, addr: u32) -> Option<AddressRange>
    decreases t.len(),
{
    if t.len() == 0 {
        None
    } else if range_contains(t[0], addr) {
        Some(t[0])
    } else {
        first_range(t.skip(1), addr)
    }
}

/// A rule whose pattern compiles and matches the registration.
pub open spec fn rule_matches(c: CategoryRule, registration: Seq<char>) -> bool {
    regex_compiles(c.pattern@) && regex_finds(c.pattern@, registration)
}

/// The first rule of a list, in its order, that matches the registration.
pub open spec fn first_rule(cs: Seq<CategoryRule>, registration: Seq<char>) -> Option<CategoryRule>
    decreases cs.len(),
{
    if cs.len() == 0 {
        None
    } else if rule_matches(cs[0], registration) {
        Some(cs[0])
    } else {
        first_rule(cs.skip(1), registration)
    }
}

/// The country of an address that no range holds.
pub open spec fn unknown_country() -> Seq<char> {
    "Unknown"@
}

/// The neutral flag of an address that no range holds.
pub open spec fn neutral_flag() -> Seq<char> {
    "\u{1f3f3}"@
}

/// The metadata of a range, refined by the first of its rules that matches
/// the registration, where there is one.
pub open spec fn info_in_range(
    e: AddressRange,
    icao24: Seq<char>,
    registration: Option<Seq<char>>,
) -> AircraftInfoView {
    let base = AircraftInfoView {
        icao24,
        registration,
        country: e.country@,
        flag: e.flag@,
        pattern: text_of(e.pattern),
        category: None,
        comment: text_of(e.comment),
    };
    let rule = match (registration, e.categories) {
        (Some(reg), Some(cs)) => first_rule(cs@, reg),
        _ => None,
    };
    match rule {
        Some(c) => AircraftInfoView {
            icao24,
            registration,
            country: match c.country {
                Some(x) => x@,
                None => base.country,
            },
            flag: match c.flag {
                Some(x) => x@,
                None => base.flag,
            },
            pattern: Some(c.pattern@),
            category: text_of(c.category),
            comment: base.comment,
        },
        None => base,
    }
}

/// The value of a 24-bit address written as six hex digits of either case;
/// `None` for any other text.
pub open spec fn address_value(s: Seq<char>) -> Option<u32> {
    if s.len() == 6 && s[0] != '+' {
        radix16_value(s)
    } else {
        None
    }
}

/// The metadata of an address: `None` where the text is not six hex digits.
/// The address is echoed in lower case; the registration is the one given,
/// else the one the address implies; the first range holding the address
/// gives the rest, else the country is unknown under a neutral flag.
pub open spec fn resolved(
    t: Seq<AddressRange>,
    icao24: Seq<char>,
    registration: Option<Seq<char>>,
) -> Option<AircraftInfoView> {
    match address_value(icao24) {
        None => None,
        Some(addr) => {
            let lower = ascii_lower_text(icao24);
            let reg = match registration {
                Some(r) => Some(r),
                None => tail_of(addr),
            };
            match first_range(t, addr) {
                Some(e) => Some(info_in_range(e, lower, reg)),
                None => Some(AircraftInfoView {
                    icao24: lower,
                    registration: reg,
                    country: unknown_country(),
                    flag: neutral_flag(),
                    pattern: None,
                    category: None,
                    comment: None,
                }),
            }
        },
    }
}

/// The text of an optional string slice.
pub open spec fn str_text(o: Option<&str>) -> Option<Seq<char>> {
    match o {
        Some(s) => Some(s@),
        None => None,
    }
}

fn copy_text(o: &Option<String>) -> (r: Option<String>)
    ensures
        text_of(r) == text_of(*o),
{
    match o {
        Some(s) => Some(s.clone()),
        None => None,
    }
}

/// Reads a bound of a range: the text after its "0x", in base 16.
fn read_bound(b: &Option<String>) -> (r: Option<u32>)
    ensures
        r == bound_of(*b),
{
    match b {
        Some(t) => {
            let n = t.as_str().unicode_len();
            if n >= 2 {
                parse_hex_u32(t.as_str().substring_char(2, n))
            } else {
                None
            }
        },
        None => None,
    }
}

/// The position of the first range of the table that holds the address.
fn find_range(table: &Vec<AddressRange>, addr: u32) -> (r: Option<usize>)
    ensures
        match r {
            Some(i) => i < table@.len() && first_range(table@, addr) == Some(table@[i as int]),
            None => first_range(table@, addr) is None,
        },
{
    let mut i: usize = 0;
    assert(table@.skip(0) == table@);
    while i < table.len()
        invariant
            i <= table@.len(),
            first_range(table@, addr) == first_range(table@.skip(i as int), addr),
        decreases table@.len() - i,
    {
        let e = &table[i];
        let lo = read_bound(&e.start);
        let hi = read_bound(&e.end);
        assert(table@.skip(i as int)[0] == table@[i as int]);
        assert(table@.skip(i as int).skip(1) == table@.skip(i as int + 1));
        match (lo, hi) {
            (Some(lo), Some(hi)) => {
                if lo <= addr && addr <= hi {
                    return Some(i);
                }
            },
            _ => {},
        }
        i = i + 1;
    }
    assert(table@.skip(i as int).len() == 0);
    None
}

/// The position of the first rule of a list that matches the registration.
fn find_rule(rules: &Vec<CategoryRule>, registration: &str) -> (r: Option<usize>)
    ensures
        match r {
            Some(i) => i < rules@.len() && first_rule(rules@, registration@) == Some(rules@[i as int]),
            None => first_rule(rules@, registration@) is None,
        },
{
    let mut i: usize = 0;
    assert(rules@.skip(0) == rules@);
    while i < rules.len()
        invariant
            i <= rules@.len(),
            first_rule(rules@, registration@) == first_rule(rules@.skip(i as int), registration@),
        decreases rules@.len() - i,
    {
        assert(rules@.skip(i as int)[0] == rules@[i as int]);
        assert(rules@.skip(i as int).skip(1) == rules@.skip(i as int + 1));
        if let Some(true) = pattern_matches(rules[i].pattern.as_str(), registration) {
            return Some(i);
        }
        i = i + 1;
    }
    assert(rules@.skip(i as int).len() == 0);
    None
}

/// Resolves an address against a table of ranges: the first range, in the
/// table's order, that holds the address gives its metadata, refined by the
/// first of its rules that matches the registration.
pub fn resolve_address(
    table: &Vec<AddressRange>,
    icao24: &str,
    registration: Option<&str>,
) -> (r: Result<AircraftInfo, AddressError>)
    ensures
        match resolved(table@, icao24@, str_text(registration)) {
            Some(v) => (r matches Ok(info) && info@ == v),
            None => r == Err::<AircraftInfo, AddressError>(AddressError::InvalidAddress),
        },
{
    if icao24.unicode_len() != 6 || icao24.get_char(0) == '+' {
        return Err(AddressError::InvalidAddress);
    }
    let addr = match parse_hex_u32(icao24) {
        Some(a) => a,
        None => {
            return Err(AddressError::InvalidAddress);
        },
    };
    let lower = to_ascii_lowercase(icao24);
    let reg: Option<String> = match registration {
        Some(t) => Some(t.to_owned()),
        None => tail_registration(addr),
    };
    match find_range(table, addr) {
        None => Ok(AircraftInfo {
            icao24: lower,
            registration: reg,
            country: String::from_str("Unknown"),
            flag: String::from_str("\u{1f3f3}"),
            pattern: None,
            category: None,
            comment: None,
        }),
        Some(i) => {
            let e = &table[i];
            let mut info = AircraftInfo {
                icao24: lower,
                registration: None,
                country: e.country.clone(),
                flag: e.flag.clone(),
                pattern: copy_text(&e.pattern),
                category: None,
                comment: copy_text(&e.comment),
            };
            if let (Some(t), Some(rules)) = (&reg, &e.categories) {
                if let Some(j) = find_rule(rules, t.as_str()) {
                    let c = &rules[j];
                    info.pattern = Some(c.pattern.clone());
                    info.category = copy_text(&c.category);
                    if let Some(x) = &c.country {
                        info.country = x.clone();
                    }
                    if let Some(x) = &c.flag {
                        info.flag = x.clone();
                    }
                }
            }
            info.registration = reg;
            Ok(info)
        },
    }
}

/// Resolves an address against the built-in table of address ranges.
pub fn aircraft_information(icao24: &str, registration: Option<&str>) -> (r: Result<
    AircraftInfo,
    AddressError,
>)
    ensures
        (r is Err) == (address_value(icao24@) is None),
        r matches Ok(info) ==> exists|t: Seq<AddressRange>|
            resolved(t, icao24@, str_text(registration)) == Some(#[trigger] info@),
{
    let table = address_table();
    resolve_address(&table, icao24, registration)
}

/// Resolution ignores the case of the address: an address and its
/// lower-case form resolve to the same metadata, with the address echoed in
/// lower case, and lower-casing again changes nothing.
pub proof fn lemma_resolve_case_insensitive(
    t: Seq<AddressRange>,
    icao24: Seq<char>,
    registration: Option<Seq<char>>,
)
    ensures
        resolved(t, icao24, registration) == resolved(t, ascii_lower_text(icao24), registration),
        resolved(t, icao24, registration) matches Some(v) ==> v.icao24 == ascii_lower_text(icao24),
{
    lemma_radix16_value_lower(icao24);
    lemma_lower_text_idempotent(icao24);
    lemma_lower_text_index(icao24);
    if icao24.len() > 0 {
        assert(ascii_lower_text(icao24)[0] == ascii_lower(icao24[0]));
    }
}

/// An address that no range holds resolves to its own lower-case form, the
/// unknown country and the neutral flag, with no pattern, category or comment.
pub proof fn lemma_unknown_address(
    t: Seq<AddressRange>,
    icao24: Seq<char>,
    registration: Option<Seq<char>>,
)
    requires
        address_value(icao24) matches Some(addr) && first_range(t, addr) is None,
    ensures
        resolved(t, icao24, registration) matches Some(v) && v.icao24 == ascii_lower_text(icao24)
            && v.country == unknown_country() && v.flag == neutral_flag() && v.pattern is None
            && v.category is None && v.comment is None,
{
}

} // verus!
