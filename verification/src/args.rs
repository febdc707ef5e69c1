//! The argument grammar of the `extends(...)` attribute.
//!
//! The argument is a parenthesized, comma-separated list of plain
//! identifiers. A list of exactly one item must be written with a trailing
//! comma — `(A,)` — because `(A)` is a parenthesized expression, not a list,
//! and is rejected. `(A, B)` and `(A, B,)` both name the two-element list.

use vstd::prelude::*;

verus! {

/// A byte the grammar treats as blank space.
pub open spec fn is_ws(b: u8) -> bool {
    b == 32 || b == 9 || b == 10 || b == 13
}

/// A byte that may open an identifier: a letter or an underscore.
pub open spec fn is_ident_start(b: u8) -> bool {
    (65 <= b && b <= 90) || (97 <= b && b <= 122) || b == 95
}

/// A byte that may continue an identifier: a letter, a digit or an underscore.
pub open spec fn is_ident_cont(b: u8) -> bool {
    is_ident_start(b) || (48 <= b && b <= 57)
}

/// The first position at or after `i` that does not hold blank space.
pub open spec fn skip_ws(s: Seq<u8>, i: int) -> int
    decreases s.len() - i,
{
    if i < s.len() && is_ws(s[i]) {
        skip_ws(s, i + 1)
    } else {
        i
    }
}

/// The first position at or after `i` that cannot continue an identifier.
pub open spec fn ident_end(s: Seq<u8>, i: int) -> int
    decreases s.len() - i,
{
    if i < s.len() && is_ident_cont(s[i]) {
        ident_end(s, i + 1)
    } else {
        i
    }
}

pub proof fn lemma_skip_ws_bounds(s: Seq<u8>, i: int)
    requires
        0 <= i <= s.len(),
    ensures
        i <= skip_ws(s, i) <= s.len(),
    decreases s.len() - i,
{
    if i < s.len() && is_ws(s[i]) {
        lemma_skip_ws_bounds(s, i + 1);
    }
}

pub proof fn lemma_ident_end_bounds(s: Seq<u8>, i: int)
    requires
        0 <= i <= s.len(),
    ensures
        i <= ident_end(s, i) <= s.len(),
    decreases s.len() - i,
{
    if i < s.len() && is_ident_cont(s[i]) {
        lemma_ident_end_bounds(s, i + 1);
    }
}

#[via_fn]
proof fn spec_items_decreases(s: Seq<u8>, i: int) {
    let j = skip_ws(s, i);
    lemma_skip_ws_bounds(s, i);
    if j < s.len() && is_ident_start(s[j]) {
        lemma_ident_end_bounds(s, j + 1);
        let k = ident_end(s, j + 1);
        lemma_skip_ws_bounds(s, k);
    }
}

/// The items between the opening parenthesis and the closing one, read from
/// position `i`: the identifiers in order, whether the last one is followed
/// by a comma, and the position of the closing parenthesis. `None` when the
/// text between the parentheses is not a comma-separated identifier list.
pub open spec fn spec_items(s: Seq<u8>, i: int) -> Option<(Seq<Seq<u8>>, bool, int)>
    decreases s.len() - i,
        when 0 <= i <= s.len()
        via spec_items_decreases
{
    let j = skip_ws(s, i);
    if j < s.len() && s[j] == 41 {
        // `)` — the list ends here.
        Some((Seq::empty(), false, j))
    } else if j < s.len() && is_ident_start(s[j]) {
        let k = ident_end(s, j + 1);
        let name = s.subrange(j, k);
        let m = skip_ws(s, k);
        if m < s.len() && s[m] == 44 {
            // `,` — more items, or a trailing comma.
            match spec_items(s, m + 1) {
                Option::None => None,
                Option::Some((rest, rest_trailing, end)) => Some(
                    (seq![name] + rest, rest.len() == 0 || rest_trailing, end),
                ),
            }
        } else if m < s.len() && s[m] == 41 {
            // `)` right after an item: the item carries no trailing comma.
            Some((seq![name], false, m))
        } else {
            None
        }
    } else {
        None
    }
}

/// What the attribute argument text names: `Some` of the identifier list when
/// the text is a parenthesized identifier list (one item only with a trailing
/// comma), `None` otherwise.
pub open spec fn spec_parse_extends(s: Seq<u8>) -> Option<Seq<Seq<u8>>> {
    let i = skip_ws(s, 0);
    if i < s.len() && s[i] == 40 {
        // `(`
        match spec_items(s, i + 1) {
            Option::None => None,
            Option::Some((ids, trailing, end)) => {
                if skip_ws(s, end + 1) == s.len() && (ids.len() != 1 || trailing) {
                    Some(ids)
                } else {
                    None
                }
            },
        }
    } else {
        None
    }
}

/// Steps over blank space.
fn skip_ws_exec(s: &Vec<u8>, i: usize) -> (r: usize)
    requires
        i <= s.len(),
    ensures
        r == skip_ws(s@, i as int),
        i <= r <= s.len(),
{
    let mut j: usize = i;
    while j < s.len() && (s[j] == 32 || s[j] == 9 || s[j] == 10 || s[j] == 13)
        invariant
            i <= j <= s.len(),
            skip_ws(s@, i as int) == skip_ws(s@, j as int),
        decreases s.len() - j,
    {
        j += 1;
    }
    j
}

/// Steps over identifier bytes.
fn ident_end_exec(s: &Vec<u8>, i: usize) -> (r: usize)
    requires
        i <= s.len(),
    ensures
        r == ident_end(s@, i as int),
        i <= r <= s.len(),
{
    let mut j: usize = i;
    while j < s.len() && ((65 <= s[j] && s[j] <= 90) || (97 <= s[j] && s[j] <= 122) || s[j] == 95
        || (48 <= s[j] && s[j] <= 57))
        invariant
            i <= j <= s.len(),
            ident_end(s@, i as int) == ident_end(s@, j as int),
        decreases s.len() - j,
    {
        j += 1;
    }
    j
}

/// Reads the item list from position `i`, mirroring `spec_items`.
fn items_exec(s: &Vec<u8>, i: usize) -> (r: Option<(Vec<Vec<u8>>, bool, usize)>)
    requires
        i <= s.len(),
    ensures
        match (r, spec_items(s@, i as int)) {
            (Option::Some((ids, trailing, end)), Option::Some((sids, st, send))) => ids.deep_view()
                == sids && trailing == st && end as int == send && end < s.len(),
            (Option::None, Option::None) => true,
            _ => false,
        },
    decreases s.len() - i,
{
    let j = skip_ws_exec(s, i);
    if j < s.len() && s[j] == 41 {
        let ids: Vec<Vec<u8>> = Vec::new();
        assert(ids.deep_view() =~~= Seq::<Seq<u8>>::empty());
        Some((ids, false, j))
    } else if j < s.len() && ((65 <= s[j] && s[j] <= 90) || (97 <= s[j] && s[j] <= 122) || s[j]
        == 95) {
        let k = ident_end_exec(s, j + 1);
        let name = crate::text::copy_range(s, j, k);
        let m = skip_ws_exec(s, k);
        if m < s.len() && s[m] == 44 {
            match items_exec(s, m + 1) {
                Option::None => None,
                Option::Some((mut rest, rest_trailing, end)) => {
                    let trailing = rest.len() == 0 || rest_trailing;
                    let ghost rest_v = rest.deep_view();
                    rest.insert(0, name);
                    assert(rest.deep_view() =~~= seq![s@.subrange(j as int, k as int)] + rest_v);
                    Some((rest, trailing, end))
                },
            }
        } else if m < s.len() && s[m] == 41 {
            let mut ids: Vec<Vec<u8>> = Vec::new();
            ids.push(name);
            assert(ids.deep_view() =~~= seq![s@.subrange(j as int, k as int)]);
            Some((ids, false, m))
        } else {
            None
        }
    } else {
        None
    }
}

/// Parses the raw argument text of an `extends(...)` attribute into the list
/// of named source enums, `None` when the text is not an identifier list.
pub fn parse_extends(text: &Vec<u8>) -> (r: Option<Vec<Vec<u8>>>)
    ensures
        r.deep_view() == spec_parse_extends(text@),
{
    let i = skip_ws_exec(text, 0);
    if i < text.len() && text[i] == 40 {
        match items_exec(text, i + 1) {
            Option::None => None,
            Option::Some((ids, trailing, end)) => {
                let after = skip_ws_exec(text, end + 1);
                if after == text.len() && (ids.len() != 1 || trailing) {
                    Some(ids)
                } else {
                    None
                }
            },
        }
    } else {
        None
    }
}

} // verus!
