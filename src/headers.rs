use vstd::prelude::*;

verus! {

/// Two characters are equal once ASCII letters are folded to lower case.
pub open spec fn same_char_ignoring_case(a: char, b: char) -> bool {
    a == b || ('A' <= a && a <= 'Z' && b as u32 == a as u32 + 32) || ('A' <= b && b <= 'Z'
        && a as u32 == b as u32 + 32)
}

/// Header names compare without regard to ASCII case.
pub open spec fn same_name(a: Seq<char>, b: Seq<char>) -> bool {
    a.len() == b.len() && forall|i: int|
        0 <= i < a.len() ==> same_char_ignoring_case(#[trigger] a[i], b[i])
}

/// The value that a list of header assignments leaves for `name`: the last
/// assignment to a name equal to it without regard to case wins.
pub open spec fn header_lookup(h: Seq<(Seq<char>, Seq<char>)>, name: Seq<char>) -> Option<
    Seq<char>,
>
    decreases h.len(),
{
    if h.len() == 0 {
        None
    } else if same_name(h.last().0, name) {
        Some(h.last().1)
    } else {
        header_lookup(h.drop_last(), name)
    }
}

/// Setting a header and then reading it back under any spelling of its name
/// that differs only in ASCII case gives the value that was set.
pub proof fn set_then_read(
    h: Seq<(Seq<char>, Seq<char>)>,
    name: Seq<char>,
    value: Seq<char>,
    query: Seq<char>,
)
    requires
        same_name(name, query),
    ensures
        header_lookup(h.push((name, value)), query) == Some(value),
{
    assert(h.push((name, value)).drop_last() =~= h);
}

/// Setting a header leaves every other name's value as it was.
pub proof fn set_keeps_others(
    h: Seq<(Seq<char>, Seq<char>)>,
    name: Seq<char>,
    value: Seq<char>,
    query: Seq<char>,
)
    requires
        !same_name(name, query),
    ensures
        header_lookup(h.push((name, value)), query) == header_lookup(h, query),
{
    assert(h.push((name, value)).drop_last() =~= h);
}

fn chars_match(x: char, y: char) -> (r: bool)
    ensures
        r == same_char_ignoring_case(x, y),
{
    let xu = x as u32;
    let yu = y as u32;
    xu == yu || ('A' <= x && x <= 'Z' && yu == xu + 32) || ('A' <= y && y <= 'Z' && xu == yu
        + 32)
}

/// Whether two header names are equal without regard to ASCII case.
pub fn names_match(a: &str, b: &str) -> (r: bool)
    ensures
        r == same_name(a@, b@),
{
    let n = a.unicode_len();
    if n != b.unicode_len() {
        return false;
    }
    let mut i: usize = 0;
    while i < n
        invariant
            n == a@.len(),
            n == b@.len(),
            i <= n,
            forall|j: int| 0 <= j < i ==> same_char_ignoring_case(#[trigger] a@[j], b@[j]),
        decreases n - i,
    {
        let x = a.get_char(i);
        let y = b.get_char(i);
        if !chars_match(x, y) {
            assert(!same_char_ignoring_case(a@[i as int], b@[i as int]));
            return false;
        }
        i += 1;
    }
    true
}

} // verus!
