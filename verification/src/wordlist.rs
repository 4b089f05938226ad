//! The compute half of wordlist loading: raw lines become the ordered
//! sequence of non-empty trimmed candidate fragments that the engine
//! consumes. Reading the file is the surrounding application's.

use vstd::prelude::*;
use vstd::string::StrSliceExecFns;
use crate::text::spec_trim;
use crate::text::trim_str;

verus! {

/// The cleaned form of raw wordlist lines: each line trimmed of whitespace,
/// blank lines dropped, order kept.
pub open spec fn spec_clean_lines(lines: Seq<Seq<char>>) -> Seq<Seq<char>>
    decreases lines.len(),
{
    if lines.len() == 0 {
        Seq::<Seq<char>>::empty()
    } else {
        let init = spec_clean_lines(lines.drop_last());
        let t = spec_trim(lines.last());
        if t.len() == 0 {
            init
        } else {
            init.push(t)
        }
    }
}

/// Trims every line of whitespace and keeps, in file order, exactly those
/// that are not blank.
pub fn prepare_lines(lines: &Vec<String>) -> (r: Vec<String>)
    ensures
        r.deep_view() == spec_clean_lines(lines.deep_view()),
{
    let ghost all = lines.deep_view();
    let mut r: Vec<String> = Vec::new();
    let mut i: usize = 0;
    proof {
        assert(r.deep_view() =~= spec_clean_lines(all.take(0)));
    }
    while i < lines.len()
        invariant
            all == lines.deep_view(),
            all.len() == lines@.len(),
            i <= lines@.len(),
            r.deep_view() == spec_clean_lines(all.take(i as int)),
        decreases lines@.len() - i,
    {
        let t = trim_str(lines[i].as_str());
        let ghost prev = r.deep_view();
        if t.as_str().unicode_len() != 0 {
            r.push(t);
        }
        proof {
            assert(all.take(i as int + 1).drop_last() =~= all.take(i as int));
            assert(all.take(i as int + 1).last() == all[i as int]);
            assert(r.deep_view() =~= spec_clean_lines(all.take(i as int + 1)));
        }
        i = i + 1;
    }
    proof {
        assert(all.take(all.len() as int) =~= all);
    }
    r
}

} // verus!
