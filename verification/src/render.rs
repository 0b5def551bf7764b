//! Rendering of the status-line text block: the glyph line, a separator, an
//! RFC 2822 timestamp, then one zero-padded `HH:MM <name>` line per city
//! whose timezone resolves. Cities whose timezone does not resolve are
//! skipped with a warning and rendering continues.

use vstd::prelude::*;
use vstd::string::*;
use crate::config::{CityEntry, Config};
use crate::glyph::glyph_spec;
use crate::glyph::get_accurate_clock_icon;
use crate::timezone::{
    CapturedInstant,
    tz_known,
    parse_timezone,
    in_timezone,
    hour_of,
    minute_of,
    local_hour,
    local_minute,
    rfc2822_of,
};

verus! {

/// The decimal digit character of a value in 0..=9.
pub open spec fn digit_seq(d: int) -> Seq<char> {
    if d == 0 {
        "0"@
    } else if d == 1 {
        "1"@
    } else if d == 2 {
        "2"@
    } else if d == 3 {
        "3"@
    } else if d == 4 {
        "4"@
    } else if d == 5 {
        "5"@
    } else if d == 6 {
        "6"@
    } else if d == 7 {
        "7"@
    } else if d == 8 {
        "8"@
    } else {
        "9"@
    }
}

/// A value in 0..=99 written with exactly two decimal digits, zero padded.
pub open spec fn two_digits(n: int) -> Seq<char> {
    digit_seq(n / 10) + digit_seq(n % 10)
}

/// One city line: `HH:MM <name>` with a trailing newline.
pub open spec fn city_line_spec(hour: int, minute: int, name: Seq<char>) -> Seq<char> {
    two_digits(hour) + ":"@ + two_digits(minute) + " "@ + name + "\n"@
}

/// The diagnostic for a city whose timezone identifier did not resolve.
pub open spec fn warning_spec(name: Seq<char>, tzid: Seq<char>) -> Seq<char> {
    "Warning: Invalid timezone '"@ + tzid + "' for "@ + name
}

/// The warnings that rendering a city list emits: one per city whose
/// timezone identifier is unknown, in configured order.
pub open spec fn warning_lines(cities: Seq<CityEntry>) -> Seq<Seq<char>>
    decreases cities.len(),
{
    if cities.len() == 0 {
        Seq::empty()
    } else {
        warning_lines(cities.drop_last()) + (if tz_known(cities.last().timezone@) {
            Seq::empty()
        } else {
            seq![warning_spec(cities.last().name@, cities.last().timezone@)]
        })
    }
}

/// The cities whose timezone identifier is known, in configured order.
pub open spec fn known_cities(cities: Seq<CityEntry>) -> Seq<CityEntry>
    decreases cities.len(),
{
    if cities.len() == 0 {
        Seq::empty()
    } else {
        known_cities(cities.drop_last()) + (if tz_known(cities.last().timezone@) {
            seq![cities.last()]
        } else {
            Seq::empty()
        })
    }
}

/// The concatenation of a sequence of lines.
pub open spec fn concat_lines(ls: Seq<Seq<char>>) -> Seq<char>
    decreases ls.len(),
{
    if ls.len() == 0 {
        Seq::empty()
    } else {
        concat_lines(ls.drop_last()) + ls.last()
    }
}

/// Whether a sequence of (hour, minute) readings is within the clock's
/// bounds.
pub open spec fn times_in_bounds(times: Seq<(u8, u8)>) -> bool {
    forall|i: int| 0 <= i < times.len() ==> (#[trigger] times[i]).0 < 24 && times[i].1 < 60
}

/// The city lines shown for a city list, given the wall-clock reading of
/// the shared instant in each known city's timezone: one zero-padded
/// `HH:MM <name>` line per known city, in configured order.
pub open spec fn city_lines_of(cities: Seq<CityEntry>, times: Seq<(u8, u8)>) -> Seq<Seq<char>> {
    Seq::new(
        known_cities(cities).len(),
        |i: int|
            city_line_spec(
                times[i].0 as int,
                times[i].1 as int,
                known_cities(cities)[i].name@,
            ),
    )
}

/// The decimal digit character of a value in 0..=9.
fn digit_str(d: u8) -> (r: &'static str)
    requires
        d < 10,
    ensures
        r@ == digit_seq(d as int),
{
    match d {
        0 => "0",
        1 => "1",
        2 => "2",
        3 => "3",
        4 => "4",
        5 => "5",
        6 => "6",
        7 => "7",
        8 => "8",
        _ => "9",
    }
}

/// Writes a value in 0..=99 with exactly two decimal digits.
pub fn two_digit_str(n: u8) -> (r: String)
    requires
        n < 100,
    ensures
        r@ == two_digits(n as int),
{
    let s = String::from_str(digit_str(n / 10));
    s.concat(digit_str(n % 10))
}

/// Formats one city line as zero-padded 24-hour `HH:MM <name>`.
pub fn city_line(hour: u8, minute: u8, name: &str) -> (r: String)
    requires
        hour < 24,
        minute < 60,
    ensures
        r@ == city_line_spec(hour as int, minute as int, name@),
{
    let mut s = two_digit_str(hour);
    s.append(":");
    let m = two_digit_str(minute);
    s.append(m.as_str());
    s.append(" ");
    s.append(name);
    s.append("\n");
    s
}

/// Formats the diagnostic for a city whose timezone did not resolve.
pub fn warning_line(name: &str, tzid: &str) -> (r: String)
    ensures
        r@ == warning_spec(name@, tzid@),
{
    let mut s = String::from_str("Warning: Invalid timezone '");
    s.append(tzid);
    s.append("' for ");
    s.append(name);
    s
}

/// Renders the per-city lines for the captured instant: one `HH:MM <name>`
/// line per city whose timezone resolves, in configured order, and one
/// warning per city whose timezone does not, in configured order. The
/// readings themselves come from the opaque instant, so they are bound
/// existentially.
pub fn render_cities(dt: &CapturedInstant, cities: &Vec<CityEntry>) -> (r: (
    Vec<String>,
    Vec<String>,
))
    ensures
        r.1@.map_values(|s: String| s@) == warning_lines(cities@),
        exists|ts: Seq<(u8, u8)>|
            #![trigger city_lines_of(cities@, ts)]
            times_in_bounds(ts) && ts.len() == known_cities(cities@).len() && r.0@.map_values(
                |s: String| s@,
            ) == city_lines_of(cities@, ts),
{
    let mut lines: Vec<String> = Vec::new();
    let mut warns: Vec<String> = Vec::new();
    let mut idx: usize = 0;
    let ghost mut times: Seq<(u8, u8)> = Seq::empty();
    proof {
        assert(lines@.map_values(|s: String| s@) =~= city_lines_of(cities@.take(0), times));
        assert(warns@.map_values(|s: String| s@) =~= warning_lines(cities@.take(0)));
    }
    while idx < cities.len()
        invariant
            idx <= cities@.len(),
            warns@.map_values(|s: String| s@) == warning_lines(cities@.take(idx as int)),
            times_in_bounds(times),
            times.len() == known_cities(cities@.take(idx as int)).len(),
            lines@.map_values(|s: String| s@) == city_lines_of(cities@.take(idx as int), times),
        decreases cities@.len() - idx,
    {
        let entry = &cities[idx];
        proof {
            assert(cities@.take(idx as int + 1).drop_last() =~= cities@.take(idx as int));
            assert(cities@.take(idx as int + 1).last() == cities@[idx as int]);
        }
        match parse_timezone(entry.timezone.as_str()) {
            Some(tz) => {
                let ct = in_timezone(dt, &tz);
                let h = hour_of(&ct);
                let m = minute_of(&ct);
                let line = city_line(h, m, entry.name.as_str());
                let ghost prev = lines@;
                let ghost tprev = times;
                lines.push(line);
                proof {
                    let ka = known_cities(cities@.take(idx as int));
                    let kb = known_cities(cities@.take(idx as int + 1));
                    assert(kb =~= ka.push(cities@[idx as int]));
                    assert(prev.map_values(|s: String| s@) == city_lines_of(
                        cities@.take(idx as int),
                        tprev,
                    ));
                    assert(prev.map_values(|s: String| s@).len() == prev.len());
                    assert(city_lines_of(cities@.take(idx as int), tprev).len() == ka.len());
                    assert(prev.len() == ka.len());
                    assert(tprev.len() == ka.len());
                    assert(warning_lines(cities@.take(idx as int + 1)) =~= warning_lines(
                        cities@.take(idx as int),
                    ));
                    times = times.push((h, m));
                    assert forall|i: int| 0 <= i < lines@.len() implies (#[trigger] lines@[i])@
                        == city_lines_of(cities@.take(idx as int + 1), times)[i] by {
                        if i < prev.len() {
                            assert(lines@[i] == prev[i]);
                            assert(prev.map_values(|s: String| s@)[i] == city_lines_of(
                                cities@.take(idx as int),
                                tprev,
                            )[i]);
                            assert(times[i] == tprev[i]);
                            assert(kb[i] == ka[i]);
                        } else {
                            assert(lines@[i] == line);
                            assert(times[i] == (h, m));
                            assert(kb[i] == cities@[idx as int]);
                        }
                    }
                    assert(lines@.map_values(|s: String| s@) =~= city_lines_of(
                        cities@.take(idx as int + 1),
                        times,
                    ));
                }
            },
            None => {
                let w = warning_line(entry.name.as_str(), entry.timezone.as_str());
                warns.push(w);
                proof {
                    assert(known_cities(cities@.take(idx as int + 1)) =~= known_cities(
                        cities@.take(idx as int),
                    ));
                    assert(warning_lines(cities@.take(idx as int + 1)) =~= warning_lines(
                        cities@.take(idx as int),
                    ).push(warning_spec(cities@[idx as int].name@, cities@[idx as int].timezone@)));
                    assert(warns@.map_values(|s: String| s@) =~= warning_lines(
                        cities@.take(idx as int + 1),
                    ));
                    assert(lines@.map_values(|s: String| s@) =~= city_lines_of(
                        cities@.take(idx as int + 1),
                        times,
                    ));
                }
            },
        }
        idx = idx + 1;
    }
    proof {
        assert(cities@.take(cities@.len() as int) =~= cities@);
        assert(lines@.map_values(|s: String| s@) =~= city_lines_of(cities@, times));
    }
    (lines, warns)
}

/// Law: a two-entry configuration with one entry whose timezone is unknown
/// and one whose timezone is known renders exactly one warning, naming the
/// unknown entry, and exactly one city line, for the known entry — in
/// whichever order the two entries appear.
pub proof fn lemma_one_unknown_one_known(bad: CityEntry, good: CityEntry)
    requires
        !tz_known(bad.timezone@),
        tz_known(good.timezone@),
    ensures
        warning_lines(seq![bad, good]) == seq![warning_spec(bad.name@, bad.timezone@)],
        known_cities(seq![bad, good]) == seq![good],
        warning_lines(seq![good, bad]) == seq![warning_spec(bad.name@, bad.timezone@)],
        known_cities(seq![good, bad]) == seq![good],
{
    reveal_with_fuel(warning_lines, 4);
    reveal_with_fuel(known_cities, 4);
    let s = seq![bad, good];
    let t = seq![good, bad];
    assert(s.drop_last() =~= seq![bad]);
    assert(t.drop_last() =~= seq![good]);
    assert(seq![bad].drop_last() =~= Seq::<CityEntry>::empty());
    assert(seq![good].drop_last() =~= Seq::<CityEntry>::empty());
    assert(warning_lines(seq![bad]) =~= seq![warning_spec(bad.name@, bad.timezone@)]);
    assert(warning_lines(seq![good]) =~= Seq::<Seq<char>>::empty());
    assert(known_cities(seq![bad]) =~= Seq::<CityEntry>::empty());
    assert(known_cities(seq![good]) =~= seq![good]);
    assert(warning_lines(s) =~= seq![warning_spec(bad.name@, bad.timezone@)]);
    assert(known_cities(s) =~= seq![good]);
    assert(warning_lines(t) =~= seq![warning_spec(bad.name@, bad.timezone@)]);
    assert(known_cities(t) =~= seq![good]);
}

/// Joins the glyph line, the separator, the timestamp line and the city
/// lines into the final text block.
pub fn assemble(icon: &str, stamp: &str, lines: &Vec<String>) -> (out: String)
    ensures
        out@ == icon@ + "\n---\n"@ + stamp@ + "\n"@ + concat_lines(
            lines@.map_values(|s: String| s@),
        ),
{
    let ghost header: Seq<char> = icon@ + "\n---\n"@ + stamp@ + "\n"@;
    let mut out = String::from_str(icon);
    out.append("\n---\n");
    out.append(stamp);
    out.append("\n");
    proof {
        assert(lines@.map_values(|s: String| s@).take(0) =~= Seq::<Seq<char>>::empty());
        assert(out@ =~= header + concat_lines(lines@.map_values(|s: String| s@).take(0)));
    }
    let mut i: usize = 0;
    while i < lines.len()
        invariant
            i <= lines@.len(),
            out@ == header + concat_lines(lines@.map_values(|s: String| s@).take(i as int)),
            header == icon@ + "\n---\n"@ + stamp@ + "\n"@,
        decreases lines@.len() - i,
    {
        let ghost views = lines@.map_values(|s: String| s@);
        out.append(lines[i].as_str());
        proof {
            assert(views.take(i as int + 1).drop_last() =~= views.take(i as int));
            assert(views.take(i as int + 1).last() == views[i as int]);
            assert(out@ =~= header + concat_lines(views.take(i as int + 1)));
        }
        i = i + 1;
    }
    proof {
        let views = lines@.map_values(|s: String| s@);
        assert(views.take(views.len() as int) =~= views);
    }
    out
}

/// What the final text block looks like: the glyph for the local wall-clock
/// reading (h, m), the separator, some timestamp line, then exactly one
/// zero-padded `HH:MM <name>` line per city whose timezone is known, in
/// configured order, at the per-city readings `times`.
pub open spec fn rendered_output(
    out: Seq<char>,
    cities: Seq<CityEntry>,
    h: u8,
    m: u8,
    stamp: Seq<char>,
    times: Seq<(u8, u8)>,
) -> bool {
    &&& h < 24
    &&& m < 60
    &&& times_in_bounds(times)
    &&& times.len() == known_cities(cities).len()
    &&& out == glyph_spec(h as u32, m as u32) + "\n---\n"@ + stamp + "\n"@ + concat_lines(
        city_lines_of(cities, times),
    )
}

/// Renders the whole text block for the captured instant and configuration,
/// returning it together with the warnings for the cities whose timezone
/// did not resolve. The warnings are pinned exactly; the block's shape is
/// pinned up to the wall-clock readings of the opaque instant.
pub fn render(dt: &CapturedInstant, config: &Config) -> (r: (String, Vec<String>))
    ensures
        r.1@.map_values(|s: String| s@) == warning_lines(config.cities@),
        exists|h: u8, m: u8, stamp: Seq<char>, times: Seq<(u8, u8)>|
            rendered_output(r.0@, config.cities@, h, m, stamp, times),
{
    let h = local_hour(dt);
    let m = local_minute(dt);
    let icon = get_accurate_clock_icon(h as u32, m as u32);
    let stamp = rfc2822_of(dt);
    let (lines, warns) = render_cities(dt, &config.cities);
    let out = assemble(icon, stamp.as_str(), &lines);
    proof {
        let ts = choose|ts: Seq<(u8, u8)>|
            #![trigger city_lines_of(config.cities@, ts)]
            times_in_bounds(ts) && ts.len() == known_cities(config.cities@).len()
                && lines@.map_values(|s: String| s@) == city_lines_of(config.cities@, ts);
        assert(lines@.map_values(|s: String| s@) == city_lines_of(config.cities@, ts));
        assert(out@ == icon@ + "\n---\n"@ + stamp@ + "\n"@ + concat_lines(
            city_lines_of(config.cities@, ts),
        ));
        assert(rendered_output(out@, config.cities@, h, m, stamp@, ts));
    }
    let result = (out, warns);
    proof {
        assert(result.0@ == out@);
        assert(exists|h2: u8, m2: u8, stamp2: Seq<char>, times2: Seq<(u8, u8)>|
            rendered_output(result.0@, config.cities@, h2, m2, stamp2, times2));
    }
    result
}

} // verus!
