//! Configuration model and the tolerant resolution strategy: candidate
//! configurations are tried in priority order, the first usable one wins,
//! and exhaustion yields a fixed built-in default of three cities.

use vstd::prelude::*;
use vstd::string::*;

verus! {

/// One configured city: a display name and an IANA timezone identifier.
pub struct CityEntry {
    pub name: String,
    pub timezone: String,
}

/// An ordered list of cities; the order is the display order.
pub struct Config {
    pub cities: Vec<CityEntry>,
}

impl CityEntry {
    /// The mathematical value of an entry: its (name, timezone) pair.
    pub open spec fn vw(&self) -> (Seq<char>, Seq<char>) {
        (self.name@, self.timezone@)
    }
}

impl Config {
    /// The mathematical value of a configuration: its (name, timezone)
    /// pairs, in display order.
    pub open spec fn vw(&self) -> Seq<(Seq<char>, Seq<char>)> {
        self.cities@.map_values(|e: CityEntry| e.vw())
    }
}

/// The built-in fallback: three illustrative cities in widely separated
/// timezones.
pub open spec fn default_config_vw() -> Seq<(Seq<char>, Seq<char>)> {
    seq![
        ("New York"@, "America/New_York"@),
        ("London"@, "Europe/London"@),
        ("Tokyo"@, "Asia/Tokyo"@),
    ]
}

/// Builds the built-in fallback configuration.
pub fn default_config() -> (r: Config)
    ensures
        r.vw() == default_config_vw(),
{
    let mut cities: Vec<CityEntry> = Vec::new();
    cities.push(CityEntry {
        name: String::from_str("New York"),
        timezone: String::from_str("America/New_York"),
    });
    cities.push(CityEntry {
        name: String::from_str("London"),
        timezone: String::from_str("Europe/London"),
    });
    cities.push(CityEntry {
        name: String::from_str("Tokyo"),
        timezone: String::from_str("Asia/Tokyo"),
    });
    let r = Config { cities };
    proof {
        assert(r.vw() =~= default_config_vw());
    }
    r
}

/// Returns the first usable candidate configuration, in priority order, or
/// the built-in default when every candidate is missing or malformed. A
/// missing or malformed source appears as `None`; an empty city list is a
/// valid configuration and wins like any other.
pub fn resolve_config(candidates: Vec<Option<Config>>) -> (r: Config)
    ensures
        (forall|j: int| 0 <= j < candidates@.len() ==> candidates@[j] is None) ==> r.vw()
            == default_config_vw(),
        (exists|i: int| 0 <= i < candidates@.len() && candidates@[i] is Some) ==> exists|i: int|
            {
                &&& 0 <= i < candidates@.len()
                &&& candidates@[i] == Some(r)
                &&& forall|j: int| 0 <= j < i ==> candidates@[j] is None
            },
{
    let mut rest = candidates;
    let ghost mut k: int = 0;
    while rest.len() > 0
        invariant
            rest@ =~= candidates@.skip(k),
            0 <= k <= candidates@.len(),
            forall|j: int| 0 <= j < k ==> candidates@[j] is None,
        decreases rest@.len(),
    {
        let head = rest.remove(0);
        proof {
            assert(candidates@[k] == head);
            assert(rest@ =~= candidates@.skip(k + 1));
        }
        match head {
            Some(c) => {
                return c;
            },
            None => {},
        }
        proof {
            k = k + 1;
        }
    }
    default_config()
}

/// Expands a leading `~/` shorthand in a path to the given home directory,
/// joining with a path separator; a path without the shorthand is left
/// alone (`None`).
pub fn expand_home(path: &str, home: &str) -> (r: Option<String>)
    ensures
        r is Some <==> (path@.len() >= 2 && path@.subrange(0, 2) == "~/"@),
        r matches Some(s) ==> s@ == home@ + "/"@ + path@.skip(2),
{
    proof {
        reveal_strlit("~/");
    }
    let n = path.unicode_len();
    if n >= 2 && path.get_char(0) == '~' && path.get_char(1) == '/' {
        let rest = path.substring_char(2, n);
        let mut s = String::from_str(home);
        s.append("/");
        s.append(rest);
        proof {
            assert(path@.subrange(0, 2) =~= "~/"@);
        }
        Some(s)
    } else {
        proof {
            if path@.len() >= 2 && path@.subrange(0, 2) == "~/"@ {
                assert(path@[0] == "~/"@[0]);
                assert(path@[1] == "~/"@[1]);
            }
        }
        None
    }
}

} // verus!
