//! The catalog of models that requests may name.

use crate::text::{lemma_first_index, split, str_eq};
use vstd::prelude::*;
use vstd::string::StrSliceExecFns;

verus! {

/// The models a request may name, and the one that stands in where a request
/// names none of them.
#[derive(Debug)]
pub struct ModelCatalog {
    pub allowed: Vec<String>,
    pub default_model: String,
}

/// A catalog as plain text.
pub struct CatalogView {
    pub allowed: Seq<Seq<char>>,
    pub default_model: Seq<char>,
}

impl View for ModelCatalog {
    type V = CatalogView;

    open spec fn view(&self) -> CatalogView {
        CatalogView {
            allowed: self.allowed@.map_values(|model: String| model@),
            default_model: self.default_model@,
        }
    }
}

/// The code points that Unicode classes as `White_Space`.
pub open spec fn is_white_space(c: char) -> bool {
    let u = c as u32;
    ||| 0x09 <= u <= 0x0d
    ||| u == 0x20
    ||| u == 0x85
    ||| u == 0xa0
    ||| u == 0x1680
    ||| 0x2000 <= u <= 0x200a
    ||| u == 0x2028
    ||| u == 0x2029
    ||| u == 0x202f
    ||| u == 0x205f
    ||| u == 0x3000
}

/// `s` without the white space it begins with.
pub open spec fn trim_start(s: Seq<char>) -> Seq<char>
    decreases s.len(),
{
    if s.len() > 0 && is_white_space(s[0]) {
        trim_start(s.drop_first())
    } else {
        s
    }
}

/// `s` without the white space it ends with.
pub open spec fn trim_end(s: Seq<char>) -> Seq<char>
    decreases s.len(),
{
    if s.len() > 0 && is_white_space(s.last()) {
        trim_end(s.drop_last())
    } else {
        s
    }
}

/// `s` without the white space around it.
pub open spec fn trim(s: Seq<char>) -> Seq<char> {
    trim_end(trim_start(s))
}

/// The models that a comma-separated list names: its pieces, each without
/// the white space around it.
pub open spec fn listed_models(list: Seq<char>) -> Seq<Seq<char>> {
    split(list, ',').map_values(|piece: Seq<char>| trim(piece))
}

/// Whether `c` is white space.
pub fn is_whitespace(c: char) -> (white: bool)
    ensures
        white == is_white_space(c),
{
    let u: u32 = c as u32;
    (0x09 <= u && u <= 0x0d) || u == 0x20 || u == 0x85 || u == 0xa0 || u == 0x1680 || (0x2000 <= u
        && u <= 0x200a) || u == 0x2028 || u == 0x2029 || u == 0x202f || u == 0x205f || u == 0x3000
}

/// The bounds of `list[from..to]` without the white space around it.
fn trim_bounds(list: &str, from: usize, to: usize) -> (bounds: (usize, usize))
    requires
        from <= to <= list@.len(),
    ensures
        from <= bounds.0 <= bounds.1 <= to,
        list@.subrange(bounds.0 as int, bounds.1 as int) == trim(
            list@.subrange(from as int, to as int),
        ),
{
    let mut a: usize = from;
    while a < to && is_whitespace(list.get_char(a))
        invariant
            from <= a <= to <= list@.len(),
            trim_start(list@.subrange(from as int, to as int)) == trim_start(
                list@.subrange(a as int, to as int),
            ),
        decreases to - a,
    {
        assert(list@.subrange(a as int, to as int).drop_first() == list@.subrange(
            a + 1,
            to as int,
        ));
        a += 1;
    }
    let mut b: usize = to;
    while b > a && is_whitespace(list.get_char(b - 1))
        invariant
            a <= b <= to <= list@.len(),
            trim_end(list@.subrange(a as int, to as int)) == trim_end(
                list@.subrange(a as int, b as int),
            ),
        decreases b - a,
    {
        assert(list@.subrange(a as int, b as int).drop_last() == list@.subrange(
            a as int,
            b - 1,
        ));
        b -= 1;
    }
    (a, b)
}

impl ModelCatalog {
    /// Reads a catalog from a comma-separated list of model names and the
    /// name of the default model.
    pub fn new(allowed_models: &str, default_model: &str) -> (catalog: ModelCatalog)
        ensures
            catalog@.allowed == listed_models(allowed_models@),
            catalog@.default_model == default_model@,
    {
        let n: usize = allowed_models.unicode_len();
        let mut allowed: Vec<String> = Vec::new();
        let mut start: usize = 0;
        let ghost list = allowed_models@;
        assert(list.subrange(0, n as int) == list);
        loop
            invariant_except_break
                listed_models(list) == allowed@.map_values(|model: String| model@) + listed_models(
                    list.subrange(start as int, n as int),
                ),
            invariant
                start <= n == list.len(),
                list == allowed_models@,
            ensures
                listed_models(list) == allowed@.map_values(|model: String| model@),
            decreases n - start,
        {
            let ghost rest = list.subrange(start as int, n as int);
            let ghost done = allowed@.map_values(|model: String| model@);
            let mut end: usize = start;
            while end < n && allowed_models.get_char(end) != ','
                invariant
                    start <= end <= n == list.len(),
                    list == allowed_models@,
                    forall|j: int| start <= j < end ==> list[j] != ',',
                decreases n - end,
            {
                end += 1;
            }
            proof {
                lemma_first_index(rest, ',', end - start);
            }
            let (a, b) = trim_bounds(allowed_models, start, end);
            let entry = allowed_models.substring_char(a, b).to_owned();
            allowed.push(entry);
            assert(rest.subrange(0, end - start) == list.subrange(start as int, end as int));
            assert(allowed@.map_values(|model: String| model@) == done.push(
                trim(list.subrange(start as int, end as int)),
            ));
            if end == n {
                assert(split(rest, ',') == seq![rest]);
                assert(listed_models(rest) == seq![trim(rest)]);
                break ;
            }
            assert(rest.subrange(end - start + 1, rest.len() as int) == list.subrange(
                end + 1,
                n as int,
            ));
            assert(listed_models(rest) == seq![trim(list.subrange(start as int, end as int))]
                + listed_models(list.subrange(end + 1, n as int)));
            start = end + 1;
        }
        ModelCatalog { allowed, default_model: default_model.to_owned() }
    }

    /// Whether the catalog lists `model`.
    pub fn is_allowed_model(&self, model: &str) -> (allowed: bool)
        ensures
            allowed == self@.allowed.contains(model@),
    {
        let mut i: usize = 0;
        while i < self.allowed.len()
            invariant
                i <= self.allowed.len(),
                forall|j: int| 0 <= j < i ==> self@.allowed[j] != model@,
            decreases self.allowed.len() - i,
        {
            if str_eq(self.allowed[i].as_str(), model) {
                assert(self@.allowed[i as int] == model@);
                return true;
            }
            i += 1;
        }
        false
    }

    /// Whether `model` is the default model.
    pub fn is_default(&self, model: &str) -> (default: bool)
        ensures
            default == (self@.default_model == model@),
    {
        str_eq(self.default_model.as_str(), model)
    }
}

} // verus!
