use vstd::prelude::*;

verus! {

/// What `str::to_lowercase` makes of a text: handle names are keyed by it.
pub uninterp spec fn lower_of(s: Seq<char>) -> Seq<char>;

/// Relies on `str::to_lowercase`: the lowercase form of `s`, a function of
/// its characters alone.
#[verifier::external_body]
pub(crate) fn lowercase(s: &str) -> (r: String)
    ensures
        r@ == lower_of(s@),
{
    s.to_lowercase()
}

/// What `str::lines` splits a text into.
pub uninterp spec fn lines_of(s: Seq<char>) -> Seq<Seq<char>>;

/// What `str::trim` leaves of a text.
pub uninterp spec fn trim_of(s: Seq<char>) -> Seq<char>;

/// Relies on `str::lines`: the lines of `s`, without their line endings.
#[verifier::external_body]
fn split_lines(s: &str) -> (r: Vec<String>)
    ensures
        r@.map_values(|l: String| l@) == lines_of(s@),
{
    s.lines().map(|l| l.to_string()).collect()
}

/// Relies on `str::trim`: `s` without leading and trailing whitespace.
#[verifier::external_body]
fn trimmed(s: &str) -> (r: String)
    ensures
        r@ == trim_of(s@),
{
    s.trim().to_string()
}

/// The trimmed lines of `ls` that are not blank, in order.
pub open spec fn listed(ls: Seq<Seq<char>>) -> Seq<Seq<char>>
    decreases ls.len(),
{
    if ls.len() == 0 {
        Seq::empty()
    } else if trim_of(ls.last()).len() == 0 {
        listed(ls.drop_last())
    } else {
        listed(ls.drop_last()).push(trim_of(ls.last()))
    }
}

/// The entries of a newline-separated list: each line trimmed, blank lines
/// left out, order kept.
pub fn parse_list(text: &str) -> (r: Vec<String>)
    ensures
        r@.map_values(|l: String| l@) == listed(lines_of(text@)),
{
    let lines = split_lines(text);
    let ghost ls = lines@.map_values(|l: String| l@);
    let mut r: Vec<String> = Vec::new();
    let mut i: usize = 0;
    while i < lines.len()
        invariant
            i <= lines.len(),
            ls == lines@.map_values(|l: String| l@),
            r@.map_values(|l: String| l@) == listed(ls.take(i as int)),
        decreases lines.len() - i,
    {
        let t = trimmed(lines[i].as_str());
        let ghost before = r@.map_values(|l: String| l@);
        assert(ls.take(i as int + 1).drop_last() =~= ls.take(i as int));
        assert(ls.take(i as int + 1).last() == lines@[i as int]@);
        if !t.as_str().is_empty() {
            r.push(t);
            assert(r@.map_values(|l: String| l@) =~= before.push(trim_of(lines@[i as int]@)));
        }
        i += 1;
    }
    assert(ls.take(lines.len() as int) =~= ls);
    r
}

} // verus!
