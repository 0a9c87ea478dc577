//! Perf-stat plots: which requested events every series holds, and the one
//! unit each event is drawn with.

use vstd::prelude::*;

use crate::plotting::PlotError;
use crate::text::{owned, push_str, str_eq};

verus! {

/// One counter of a `perf stat` report, without its value.
#[derive(Debug, Clone)]
pub struct PerfEventEntry {
    pub event: String,
    pub unit: String,
}

/// The events of one report as (name, unit) pairs.
pub open spec fn entries_view(v: Seq<PerfEventEntry>) -> Seq<(Seq<char>, Seq<char>)> {
    v.map_values(|e: PerfEventEntry| (e.event@, e.unit@))
}

/// The report of one point, when there is one.
pub open spec fn point_view(o: Option<Vec<PerfEventEntry>>) -> Option<Seq<(Seq<char>, Seq<char>)>> {
    match o {
        Some(v) => Some(entries_view(v@)),
        None => None,
    }
}

/// The reports of one series, point by point.
pub open spec fn series_view(s: Seq<Option<Vec<PerfEventEntry>>>) -> Seq<Option<Seq<(Seq<char>, Seq<char>)>>> {
    s.map_values(|o: Option<Vec<PerfEventEntry>>| point_view(o))
}

/// The reports of every series.
pub open spec fn data_view(d: Seq<Vec<Option<Vec<PerfEventEntry>>>>) -> Seq<Seq<Option<Seq<(Seq<char>, Seq<char>)>>>> {
    d.map_values(|s: Vec<Option<Vec<PerfEventEntry>>>| series_view(s@))
}

/// The unit of the first entry named `name` (the entry that is plotted).
pub open spec fn first_unit(entries: Seq<(Seq<char>, Seq<char>)>, name: Seq<char>) -> Option<Seq<char>>
    decreases entries.len(),
{
    if entries.len() == 0 {
        None
    } else if entries[0].0 == name {
        Some(entries[0].1)
    } else {
        first_unit(entries.drop_first(), name)
    }
}

/// The unit of event `name` at one point, when its report holds the event.
pub open spec fn point_unit(p: Option<Seq<(Seq<char>, Seq<char>)>>, name: Seq<char>) -> Option<Seq<char>> {
    match p {
        Some(e) => first_unit(e, name),
        None => None,
    }
}

/// Whether some point of a series holds event `name`.
pub open spec fn series_has(series: Seq<Option<Seq<(Seq<char>, Seq<char>)>>>, name: Seq<char>) -> bool {
    exists|j: int| 0 <= j < series.len() && #[trigger] point_unit(series[j], name) is Some
}

/// The first of `events` that no point of the series holds.
pub open spec fn first_missing_event(series: Seq<Option<Seq<(Seq<char>, Seq<char>)>>>, events: Seq<Seq<char>>) -> Option<Seq<char>>
    decreases events.len(),
{
    if events.len() == 0 {
        None
    } else if !series_has(series, events[0]) {
        Some(events[0])
    } else {
        first_missing_event(series, events.drop_first())
    }
}

/// The first event missing from a series, the series taken in order.
pub open spec fn missing_event(data: Seq<Seq<Option<Seq<(Seq<char>, Seq<char>)>>>>, events: Seq<Seq<char>>) -> Option<Seq<char>>
    decreases data.len(),
{
    if data.len() == 0 {
        None
    } else {
        match first_missing_event(data[0], events) {
            Some(e) => Some(e),
            None => missing_event(data.drop_first(), events),
        }
    }
}

/// The units seen for an event so far.
pub enum UnitsSeen {
    /// None yet.
    Unseen,
    /// This one, every time.
    One(Seq<char>),
    /// At least two different ones.
    Conflicting,
}

/// The units seen once `u` is seen too.
pub open spec fn observe_unit(s: UnitsSeen, u: Option<Seq<char>>) -> UnitsSeen {
    match u {
        None => s,
        Some(x) => match s {
            UnitsSeen::Unseen => UnitsSeen::One(x),
            UnitsSeen::One(y) => if y == x {
                UnitsSeen::One(y)
            } else {
                UnitsSeen::Conflicting
            },
            UnitsSeen::Conflicting => UnitsSeen::Conflicting,
        },
    }
}

/// The units of event `name` seen over a series, after those seen before.
pub open spec fn series_units(s: UnitsSeen, series: Seq<Option<Seq<(Seq<char>, Seq<char>)>>>, name: Seq<char>) -> UnitsSeen
    decreases series.len(),
{
    if series.len() == 0 {
        s
    } else {
        observe_unit(series_units(s, series.drop_last(), name), point_unit(series.last(), name))
    }
}

/// The units of event `name` seen over every series and point.
pub open spec fn data_units(data: Seq<Seq<Option<Seq<(Seq<char>, Seq<char>)>>>>, name: Seq<char>) -> UnitsSeen
    decreases data.len(),
{
    if data.len() == 0 {
        UnitsSeen::Unseen
    } else {
        series_units(data_units(data.drop_last(), name), data.last(), name)
    }
}

/// The first event seen with two different units.
pub open spec fn conflicting_event(data: Seq<Seq<Option<Seq<(Seq<char>, Seq<char>)>>>>, events: Seq<Seq<char>>) -> Option<Seq<char>>
    decreases events.len(),
{
    if events.len() == 0 {
        None
    } else if data_units(data, events[0]) is Conflicting {
        Some(events[0])
    } else {
        conflicting_event(data, events.drop_first())
    }
}

/// Whether `units` is what `s` records: nothing seen, exactly one unit
/// seen, or at least two different units seen.
pub open spec fn records_units(s: UnitsSeen, units: Set<Seq<char>>) -> bool {
    match s {
        UnitsSeen::Unseen => forall|v: Seq<char>| !units.contains(v),
        UnitsSeen::One(u) => forall|v: Seq<char>| units.contains(v) <==> v == u,
        UnitsSeen::Conflicting => exists|a: Seq<char>, b: Seq<char>| units.contains(a) && units.contains(b) && a != b,
    }
}

/// The units that event `name` has at the points of a series.
pub open spec fn series_unit_set(series: Seq<Option<Seq<(Seq<char>, Seq<char>)>>>, name: Seq<char>) -> Set<Seq<char>> {
    Set::new(|u: Seq<char>| exists|j: int| 0 <= j < series.len() && #[trigger] point_unit(series[j], name) == Some(u))
}

/// Whether event `name` has unit `u` at some point of some series.
pub open spec fn unit_observed(data: Seq<Seq<Option<Seq<(Seq<char>, Seq<char>)>>>>, name: Seq<char>, u: Seq<char>) -> bool {
    exists|i: int, j: int| 0 <= i < data.len() && 0 <= j < data[i].len() && #[trigger] point_unit(data[i][j], name) == Some(u)
}

/// The units that event `name` has anywhere in the data.
pub open spec fn data_unit_set(data: Seq<Seq<Option<Seq<(Seq<char>, Seq<char>)>>>>, name: Seq<char>) -> Set<Seq<char>> {
    Set::new(|u: Seq<char>| unit_observed(data, name, u))
}

/// Seeing one more unit records it along with those seen before; once two
/// different units were seen, the event stays conflicting.
proof fn lemma_observe_records(s: UnitsSeen, units: Set<Seq<char>>, o: Option<Seq<char>>)
    requires
        records_units(s, units),
    ensures
        records_units(observe_unit(s, o), match o {
            Some(x) => units.insert(x),
            None => units,
        }),
{
    if let Some(x) = o {
        let after = units.insert(x);
        match s {
            UnitsSeen::Unseen => {
                assert forall|v: Seq<char>| after.contains(v) <==> v == x by {}
            },
            UnitsSeen::One(y) => {
                if y == x {
                    assert forall|v: Seq<char>| after.contains(v) <==> v == y by {}
                } else {
                    assert(after.contains(x) && after.contains(y));
                }
            },
            UnitsSeen::Conflicting => {
                let (a, b) = choose|a: Seq<char>, b: Seq<char>| units.contains(a) && units.contains(b) && a != b;
                assert(after.contains(a) && after.contains(b));
            },
        }
    }
}

/// The units seen over a series add the series' units to those seen before.
proof fn lemma_series_records(s: UnitsSeen, units: Set<Seq<char>>, series: Seq<Option<Seq<(Seq<char>, Seq<char>)>>>, name: Seq<char>)
    requires
        records_units(s, units),
    ensures
        records_units(series_units(s, series, name), units.union(series_unit_set(series, name))),
    decreases series.len(),
{
    if series.len() == 0 {
        assert(units.union(series_unit_set(series, name)) =~= units);
    } else {
        let front = series.drop_last();
        lemma_series_records(s, units, front, name);
        let before = units.union(series_unit_set(front, name));
        let o = point_unit(series.last(), name);
        lemma_observe_records(series_units(s, front, name), before, o);
        let after = match o {
            Some(x) => before.insert(x),
            None => before,
        };
        assert forall|v: Seq<char>| after.contains(v) <==> units.union(series_unit_set(series, name)).contains(v) by {
            if series_unit_set(front, name).contains(v) {
                let j = choose|j: int| 0 <= j < front.len() && #[trigger] point_unit(front[j], name) == Some(v);
                assert(series[j] == front[j]);
            }
            if series_unit_set(series, name).contains(v) {
                let j = choose|j: int| 0 <= j < series.len() && #[trigger] point_unit(series[j], name) == Some(v);
                if j < front.len() {
                    assert(series[j] == front[j]);
                }
            }
            if o == Some(v) {
                assert(point_unit(series[series.len() - 1], name) == Some(v));
            }
        }
        assert(after =~= units.union(series_unit_set(series, name)));
    }
}

/// The units seen over all the data are the units the event has anywhere.
proof fn lemma_data_records(data: Seq<Seq<Option<Seq<(Seq<char>, Seq<char>)>>>>, name: Seq<char>)
    ensures
        records_units(data_units(data, name), data_unit_set(data, name)),
    decreases data.len(),
{
    if data.len() == 0 {
        assert forall|v: Seq<char>| !data_unit_set(data, name).contains(v) by {}
    } else {
        let front = data.drop_last();
        lemma_data_records(front, name);
        lemma_series_records(data_units(front, name), data_unit_set(front, name), data.last(), name);
        let u = data_unit_set(front, name).union(series_unit_set(data.last(), name));
        assert forall|v: Seq<char>| u.contains(v) <==> data_unit_set(data, name).contains(v) by {
            if unit_observed(front, name, v) {
                let (i, j) = choose|i: int, j: int| 0 <= i < front.len() && 0 <= j < front[i].len() && #[trigger] point_unit(front[i][j], name) == Some(v);
                assert(data[i] == front[i]);
            }
            if series_unit_set(data.last(), name).contains(v) {
                let j = choose|j: int| 0 <= j < data.last().len() && #[trigger] point_unit(data.last()[j], name) == Some(v);
                assert(point_unit(data[data.len() - 1][j], name) == Some(v));
            }
            if unit_observed(data, name, v) {
                let (i, j) = choose|i: int, j: int| 0 <= i < data.len() && 0 <= j < data[i].len() && #[trigger] point_unit(data[i][j], name) == Some(v);
                if i < front.len() {
                    assert(front[i] == data[i]);
                    assert(point_unit(front[i][j], name) == Some(v));
                } else {
                    assert(point_unit(data.last()[j], name) == Some(v));
                }
            }
        }
        assert(u =~= data_unit_set(data, name));
    }
}

/// The units of an event are judged over every point of every series: it is
/// in conflict exactly when two of its points have different units, and
/// otherwise it is drawn with the one unit all its points have, or with none
/// when no point has it. A conflict is never forgotten, whatever is seen
/// after it.
pub proof fn lemma_event_unit_conflicts(data: Seq<Seq<Option<Seq<(Seq<char>, Seq<char>)>>>>, name: Seq<char>)
    ensures
        data_units(data, name) is Conflicting <==> exists|a: Seq<char>, b: Seq<char>|
            unit_observed(data, name, a) && unit_observed(data, name, b) && a != b,
        data_units(data, name) matches UnitsSeen::One(u) ==> unit_observed(data, name, u) && forall|v: Seq<char>|
            unit_observed(data, name, v) ==> v == u,
        data_units(data, name) is Unseen <==> forall|v: Seq<char>| !unit_observed(data, name, v),
{
    lemma_data_records(data, name);
    let set = data_unit_set(data, name);
    match data_units(data, name) {
        UnitsSeen::Unseen => {
            assert forall|v: Seq<char>| !unit_observed(data, name, v) by {
                assert(!set.contains(v));
            }
        },
        UnitsSeen::One(u) => {
            assert(set.contains(u));
            assert forall|v: Seq<char>| unit_observed(data, name, v) implies v == u by {
                assert(set.contains(v));
            }
            if exists|a: Seq<char>, b: Seq<char>| unit_observed(data, name, a) && unit_observed(data, name, b) && a != b {
                let (a, b) = choose|a: Seq<char>, b: Seq<char>| unit_observed(data, name, a) && unit_observed(data, name, b) && a != b;
                assert(set.contains(a) && set.contains(b));
            }
        },
        UnitsSeen::Conflicting => {
            let (a, b) = choose|a: Seq<char>, b: Seq<char>| set.contains(a) && set.contains(b) && a != b;
            assert(unit_observed(data, name, a) && unit_observed(data, name, b));
            let (i, j) = choose|i: int, j: int| 0 <= i < data.len() && 0 <= j < data[i].len() && #[trigger] point_unit(data[i][j], name) == Some(a);
        },
    }
}

/// The unit an event is drawn with: the one it was seen with, or none.
pub open spec fn drawn_unit(s: UnitsSeen) -> Seq<char> {
    match s {
        UnitsSeen::One(u) => u,
        _ => Seq::empty(),
    }
}

/// The unit of the first entry named `name`.
fn entry_unit(entries: &Vec<PerfEventEntry>, name: &str) -> (r: Option<String>)
    ensures
        match first_unit(entries_view(entries@), name@) {
            Some(u) => r matches Some(x) && x@ == u,
            None => r is None,
        },
{
    let ghost all = entries_view(entries@);
    let mut i: usize = 0;
    assert(all.skip(0) =~= all);
    while i < entries.len()
        invariant
            i <= entries.len(),
            all == entries_view(entries@),
            first_unit(all, name@) == first_unit(all.skip(i as int), name@),
        decreases entries.len() - i,
    {
        let ghost rest = all.skip(i as int);
        assert(rest[0] == (entries@[i as int].event@, entries@[i as int].unit@));
        assert(rest.drop_first() =~= all.skip(i + 1));
        if str_eq(entries[i].event.as_str(), name) {
            return Some(entries[i].unit.clone());
        }
        i = i + 1;
    }
    assert(all.skip(entries.len() as int) =~= Seq::<(Seq<char>, Seq<char>)>::empty());
    None
}

/// The unit of event `name` at one point.
fn point_event_unit(point: &Option<Vec<PerfEventEntry>>, name: &str) -> (r: Option<String>)
    ensures
        match point_unit(point_view(*point), name@) {
            Some(u) => r matches Some(x) && x@ == u,
            None => r is None,
        },
{
    match point {
        Some(entries) => entry_unit(entries, name),
        None => None,
    }
}

/// Whether some point of a series holds event `name`.
fn series_holds(series: &Vec<Option<Vec<PerfEventEntry>>>, name: &str) -> (r: bool)
    ensures
        r == series_has(series_view(series@), name@),
{
    let ghost sv = series_view(series@);
    let mut j: usize = 0;
    while j < series.len()
        invariant
            j <= series.len(),
            sv == series_view(series@),
            forall|k: int| 0 <= k < j ==> #[trigger] point_unit(sv[k], name@) is None,
        decreases series.len() - j,
    {
        assert(sv[j as int] == point_view(series@[j as int]));
        if point_event_unit(&series[j], name).is_some() {
            return true;
        }
        j = j + 1;
    }
    false
}

/// The exact units seen for one event.
#[derive(Debug, Clone)]
enum UnitFold {
    Unseen,
    One(String),
    Conflicting,
}

/// The abstract value of the units seen.
spec fn fold_view(f: UnitFold) -> UnitsSeen {
    match f {
        UnitFold::Unseen => UnitsSeen::Unseen,
        UnitFold::One(u) => UnitsSeen::One(u@),
        UnitFold::Conflicting => UnitsSeen::Conflicting,
    }
}

/// The units seen once `u` is seen too.
fn observe(f: UnitFold, u: Option<String>) -> (r: UnitFold)
    ensures
        fold_view(r) == observe_unit(fold_view(f), match u {
            Some(x) => Some(x@),
            None => None,
        }),
{
    match u {
        None => f,
        Some(x) => match f {
            UnitFold::Unseen => UnitFold::One(x),
            UnitFold::One(y) => {
                if str_eq(y.as_str(), x.as_str()) {
                    UnitFold::One(y)
                } else {
                    UnitFold::Conflicting
                }
            },
            UnitFold::Conflicting => UnitFold::Conflicting,
        },
    }
}

/// The units of event `name` seen over every series and point.
fn units_of_event(data: &Vec<Vec<Option<Vec<PerfEventEntry>>>>, name: &str) -> (r: UnitFold)
    ensures
        fold_view(r) == data_units(data_view(data@), name@),
{
    let ghost dv = data_view(data@);
    let mut f = UnitFold::Unseen;
    let mut i: usize = 0;
    while i < data.len()
        invariant
            i <= data.len(),
            dv == data_view(data@),
            fold_view(f) == data_units(dv.take(i as int), name@),
        decreases data.len() - i,
    {
        let series = &data[i];
        let ghost sv = series_view(series@);
        let ghost start = fold_view(f);
        assert(dv[i as int] == sv);
        let mut j: usize = 0;
        while j < series.len()
            invariant
                j <= series.len(),
                sv == series_view(series@),
                fold_view(f) == series_units(start, sv.take(j as int), name@),
            decreases series.len() - j,
        {
            assert(sv.take(j + 1).drop_last() =~= sv.take(j as int));
            assert(sv.take(j + 1).last() == point_view(series@[j as int]));
            let u = point_event_unit(&series[j], name);
            f = observe(f, u);
            j = j + 1;
        }
        assert(sv.take(series.len() as int) =~= sv);
        assert(dv.take(i + 1).drop_last() =~= dv.take(i as int));
        assert(dv.take(i + 1).last() == sv);
        i = i + 1;
    }
    assert(dv.take(data.len() as int) =~= dv);
    f
}

/// The unit each requested event is drawn with, in order: an event missing
/// from every point of some series is an error, reported for the first such
/// series and event; then an event seen with two different units is an error;
/// otherwise each event gets the unit it was seen with, or none.
pub fn event_units(events: &Vec<String>, data: &Vec<Vec<Option<Vec<PerfEventEntry>>>>) -> (r: Result<Vec<String>, PlotError>)
    ensures
        match missing_event(data_view(data@), events@.map_values(|e: String| e@)) {
            Some(e) => r matches Err(PlotError::InvalidData(m)) && m@ == "Event '"@ + e + "' not found in dataset"@,
            None => match conflicting_event(data_view(data@), events@.map_values(|e: String| e@)) {
                Some(e) => r matches Err(PlotError::InvalidData(m)) && m@ == "different units for event "@ + e,
                None => r matches Ok(units) && units@.len() == events@.len() && forall|k: int|
                    0 <= k < events@.len() ==> #[trigger] units@[k]@ == drawn_unit(
                        data_units(data_view(data@), events@[k]@),
                    ),
            },
        },
{
    let ghost dv = data_view(data@);
    let ghost ev = events@.map_values(|e: String| e@);
    let mut i: usize = 0;
    assert(dv.skip(0) =~= dv);
    assert(ev.skip(0) =~= ev);
    while i < data.len()
        invariant
            i <= data.len(),
            dv == data_view(data@),
            ev == events@.map_values(|e: String| e@),
            missing_event(dv, ev) == missing_event(dv.skip(i as int), ev),
        decreases data.len() - i,
    {
        let ghost sv = series_view(data@[i as int]@);
        assert(dv.skip(i as int)[0] == sv);
        assert(dv.skip(i as int).drop_first() =~= dv.skip(i + 1));
        let mut k: usize = 0;
        assert(ev.skip(0) =~= ev);
        while k < events.len()
            invariant
                k <= events.len(),
                i < data.len(),
                dv == data_view(data@),
                ev == events@.map_values(|e: String| e@),
                sv == series_view(data@[i as int]@),
                dv.skip(i as int)[0] == sv,
                missing_event(dv, ev) == missing_event(dv.skip(i as int), ev),
                first_missing_event(sv, ev) == first_missing_event(sv, ev.skip(k as int)),
            decreases events.len() - k,
        {
            assert(ev.skip(k as int)[0] == events@[k as int]@);
            assert(ev.skip(k as int).drop_first() =~= ev.skip(k + 1));
            if !series_holds(&data[i], events[k].as_str()) {
                let mut m = owned("Event '");
                push_str(&mut m, events[k].as_str());
                push_str(&mut m, "' not found in dataset");
                return Err(PlotError::InvalidData(m));
            }
            k = k + 1;
        }
        assert(ev.skip(events.len() as int) =~= Seq::<Seq<char>>::empty());
        i = i + 1;
    }
    assert(dv.skip(data.len() as int) =~= Seq::<Seq<Option<Seq<(Seq<char>, Seq<char>)>>>>::empty());
    let mut units: Vec<String> = Vec::new();
    let mut k: usize = 0;
    while k < events.len()
        invariant
            k <= events.len(),
            dv == data_view(data@),
            ev == events@.map_values(|e: String| e@),
            missing_event(dv, ev) is None,
            conflicting_event(dv, ev) == conflicting_event(dv, ev.skip(k as int)),
            units@.len() == k,
            forall|j: int| 0 <= j < k ==> #[trigger] units@[j]@ == drawn_unit(data_units(dv, events@[j]@)),
        decreases events.len() - k,
    {
        assert(ev.skip(k as int)[0] == events@[k as int]@);
        assert(ev.skip(k as int).drop_first() =~= ev.skip(k + 1));
        match units_of_event(data, events[k].as_str()) {
            UnitFold::Conflicting => {
                let mut m = owned("different units for event ");
                push_str(&mut m, events[k].as_str());
                return Err(PlotError::InvalidData(m));
            },
            UnitFold::One(u) => {
                units.push(u);
            },
            UnitFold::Unseen => {
                units.push(String::new());
            },
        }
        k = k + 1;
    }
    assert(ev.skip(events.len() as int) =~= Seq::<Seq<char>>::empty());
    Ok(units)
}

} // verus!
