use vstd::prelude::*;

verus! {

/// `parts` joined with `sep` between each two neighbours.
pub open spec fn joined(parts: Seq<Seq<char>>, sep: Seq<char>) -> Seq<char>
    decreases parts.len(),
{
    if parts.len() == 0 {
        Seq::empty()
    } else if parts.len() == 1 {
        parts[0]
    } else {
        joined(parts.drop_last(), sep) + sep + parts.last()
    }
}

/// The views of a vector of strings.
pub open spec fn views(parts: Seq<String>) -> Seq<Seq<char>> {
    parts.map_values(|s: String| s@)
}

/// Joins `parts` with `sep` between each two neighbours.
pub fn join_strings(parts: &Vec<String>, sep: &str) -> (r: String)
    ensures
        r@ == joined(views(parts@), sep@),
{
    let mut ret = String::new();
    let mut i: usize = 0;
    while i < parts.len()
        invariant
            i <= parts@.len(),
            ret@ == joined(views(parts@.subrange(0, i as int)), sep@),
        decreases parts@.len() - i,
    {
        proof {
            let next = views(parts@.subrange(0, i + 1));
            assert(next.drop_last() =~= views(parts@.subrange(0, i as int)));
            assert(next.last() == parts@[i as int]@);
        }
        if i > 0 {
            ret.append(sep);
        }
        ret.append(parts[i].as_str());
        i = i + 1;
    }
    proof {
        assert(parts@.subrange(0, i as int) =~= parts@);
    }
    ret
}

/// The decimal digit character for `d`.
pub open spec fn digit_char(d: nat) -> char {
    if d == 0 { '0' }
    else if d == 1 { '1' }
    else if d == 2 { '2' }
    else if d == 3 { '3' }
    else if d == 4 { '4' }
    else if d == 5 { '5' }
    else if d == 6 { '6' }
    else if d == 7 { '7' }
    else if d == 8 { '8' }
    else { '9' }
}

/// The decimal notation of `n`, without leading zeros.
pub open spec fn decimal(n: nat) -> Seq<char>
    decreases n,
{
    if n < 10 {
        seq![digit_char(n)]
    } else {
        decimal(n / 10).push(digit_char(n % 10))
    }
}

fn digit_str(d: u64) -> (s: &'static str)
    requires
        d < 10,
    ensures
        s@ == seq![digit_char(d as nat)],
{
    proof {
        reveal_strlit("0");
        reveal_strlit("1");
        reveal_strlit("2");
        reveal_strlit("3");
        reveal_strlit("4");
        reveal_strlit("5");
        reveal_strlit("6");
        reveal_strlit("7");
        reveal_strlit("8");
        reveal_strlit("9");
    }
    if d == 0 { "0" }
    else if d == 1 { "1" }
    else if d == 2 { "2" }
    else if d == 3 { "3" }
    else if d == 4 { "4" }
    else if d == 5 { "5" }
    else if d == 6 { "6" }
    else if d == 7 { "7" }
    else if d == 8 { "8" }
    else { "9" }
}

/// The decimal notation of `n`.
pub fn decimal_string(n: u64) -> (s: String)
    ensures
        s@ == decimal(n as nat),
    decreases n,
{
    if n < 10 {
        let mut s = String::new();
        s.append(digit_str(n));
        s
    } else {
        let mut s = decimal_string(n / 10);
        s.append(digit_str(n % 10));
        s
    }
}

/// One entry of a rendered value list: its index and its value, `?` when
/// the value is unknown.
pub open spec fn entry_text(i: nat, v: Option<u64>) -> Seq<char> {
    "["@ + decimal(i) + "] = "@ + match v {
        Some(n) => decimal(n as nat),
        None => "?"@,
    }
}

/// A list of optional values as the report shows it: `[i] = value` entries
/// joined by `", "`, or `(empty)` for an empty list.
pub open spec fn rendered_values(x: Seq<Option<u64>>) -> Seq<char> {
    if x.len() == 0 {
        "(empty)"@
    } else {
        joined(Seq::new(x.len(), |i: int| entry_text(i as nat, x[i])), ", "@)
    }
}

fn entry_string(i: usize, v: Option<u64>) -> (s: String)
    ensures
        s@ == entry_text(i as nat, v),
{
    let mut s = String::new();
    s.append("[");
    let index = decimal_string(i as u64);
    s.append(index.as_str());
    s.append("] = ");
    match v {
        Some(n) => {
            let value = decimal_string(n);
            s.append(value.as_str());
        },
        None => {
            s.append("?");
        },
    }
    s
}

/// Renders a list of optional values for the report.
pub fn format_optional_u64_sequence(x: &[Option<u64>]) -> (r: String)
    ensures
        r@ == rendered_values(x@),
{
    if x.len() == 0 {
        let mut r = String::new();
        r.append("(empty)");
        return r;
    }
    let mut entries: Vec<String> = Vec::new();
    let mut i: usize = 0;
    while i < x.len()
        invariant
            i <= x@.len(),
            views(entries@) =~= Seq::new(i as nat, |j: int| entry_text(j as nat, x@[j])),
        decreases x@.len() - i,
    {
        let e = entry_string(i, x[i]);
        let ghost before = entries@;
        entries.push(e);
        proof {
            assert(views(entries@) =~= views(before).push(e@));
        }
        i = i + 1;
    }
    join_strings(&entries, ", ")
}

} // verus!
