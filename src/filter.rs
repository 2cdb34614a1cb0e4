//! User-configured file filters: a file whose name matches one of the
//! patterns is skipped. A pattern matches a name where it finds at least
//! one match in it.

use vstd::prelude::*;

use crate::text::strings_view;
use crate::pattern::{regex_find_all, regex_match_texts, regex_valid};

verus! {

/// The filters, tried in order: `Ok(true)` at the first that matches `name`,
/// `Err` with the first invalid pattern met before that, `Ok(false)` when
/// none matches.
pub open spec fn filter_outcome(filters: Seq<Seq<char>>, name: Seq<char>) -> Result<
    bool,
    Seq<char>,
>
    decreases filters.len(),
{
    if filters.len() == 0 {
        Ok(false)
    } else if !regex_valid(filters[0]) {
        Err(filters[0])
    } else if regex_match_texts(filters[0], name).len() > 0 {
        Ok(true)
    } else {
        filter_outcome(filters.drop_first(), name)
    }
}

/// A filter pattern that the regex engine refused.
#[derive(Debug, Clone)]
pub struct InvalidFilter {
    pub pattern: String,
}

/// Whether a file called `name` is filtered out (see `filter_outcome`);
/// without filters nothing is.
pub fn check_filter(filters: &Option<Vec<String>>, name: &str) -> (r: Result<bool, InvalidFilter>)
    ensures
        match filters {
            Option::None => r == Ok::<bool, InvalidFilter>(false),
            Option::Some(fs) => match (r, filter_outcome(strings_view(fs@), name@)) {
                (Ok(b), Ok(c)) => b == c,
                (Err(e), Err(p)) => e.pattern@ == p,
                _ => false,
            },
        },
{
    let fs = match filters {
        Option::None => return Ok(false),
        Option::Some(fs) => fs,
    };
    let ghost view = strings_view(fs@);
    let mut i: usize = 0;
    assert(view.skip(0) =~= view);
    while i < fs.len()
        invariant
            i <= fs@.len(),
            *filters == Option::Some(*fs),
            view == strings_view(fs@),
            filter_outcome(view, name@) == filter_outcome(view.skip(i as int), name@),
        decreases fs@.len() - i,
    {
        let pattern = &fs[i];
        assert(view.skip(i as int)[0] == pattern@);
        assert(view.skip(i as int).drop_first() =~= view.skip(i + 1));
        match regex_find_all(pattern.as_str(), name) {
            Option::None => {
                return Err(InvalidFilter { pattern: pattern.clone() });
            },
            Option::Some(found) => {
                if found.len() > 0 {
                    return Ok(true);
                }
            },
        }
        i = i + 1;
    }
    assert(view.skip(i as int) =~= Seq::<Seq<char>>::empty());
    Ok(false)
}

} // verus!
