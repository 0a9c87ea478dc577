//! `perf stat` reports: which event is plotted, and the number texts it
//! prints.

use vstd::prelude::*;

use crate::text::{chars_of, push_char, str_eq};

verus! {

/// `s` with every `,` written as `.` (perf prints either as the decimal point,
/// depending on the system).
pub open spec fn with_decimal_point(s: Seq<char>) -> Seq<char> {
    s.map_values(|c: char| if c == ',' { '.' } else { c })
}

/// `s` with every `,` written as `.`.
pub fn decimal_point_text(s: &str) -> (r: String)
    ensures
        r@ == with_decimal_point(s@),
{
    let v = chars_of(s);
    let mut r = String::new();
    let mut i: usize = 0;
    while i < v.len()
        invariant
            v@ == s@,
            i <= v.len(),
            r@ == with_decimal_point(v@.take(i as int)),
        decreases v.len() - i,
    {
        let c = v[i];
        if c == ',' {
            push_char(&mut r, '.');
        } else {
            push_char(&mut r, c);
        }
        assert(with_decimal_point(v@.take(i + 1)) =~= with_decimal_point(v@.take(i as int)).push(
            if c == ',' { '.' } else { c },
        ));
        i = i + 1;
    }
    assert(v@.take(v.len() as int) =~= v@);
    r
}

/// The position of the first event named `name` among the events' names.
pub fn find_event(names: &Vec<String>, name: &str) -> (r: Option<usize>)
    ensures
        match r {
            Some(i) => i < names.len() && names@[i as int]@ == name@ && forall|j: int| 0 <= j < i ==> names@[j]@ != name@,
            None => forall|j: int| 0 <= j < names.len() ==> names@[j]@ != name@,
        },
{
    let mut i: usize = 0;
    while i < names.len()
        invariant
            i <= names.len(),
            forall|j: int| 0 <= j < i ==> names@[j]@ != name@,
        decreases names.len() - i,
    {
        if str_eq(names[i].as_str(), name) {
            return Some(i);
        }
        i = i + 1;
    }
    None
}

} // verus!
