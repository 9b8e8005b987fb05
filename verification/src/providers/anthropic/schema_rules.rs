//! JSON helpers of the Anthropic family: canonical key order, stable text,
//! the first balanced object in free text, and the permissive object schema.
use vstd::prelude::*;

use crate::json::{json_to_text, spec_json_text, JsonValue, SpecJson};
use crate::text::{chars_of, owned, substring};

verus! {

/// Lexicographic order on texts by character code (the order of `str`).
pub open spec fn text_lt(a: Seq<char>, b: Seq<char>) -> bool
    decreases a.len(),
{
    if a.len() == 0 {
        b.len() > 0
    } else if b.len() == 0 {
        false
    } else if a[0] != b[0] {
        (a[0] as u32) < (b[0] as u32)
    } else {
        text_lt(a.drop_first(), b.drop_first())
    }
}

/// `entries` with `e` added at its key's place; an entry already holding the
/// key is kept and `e` dropped.
pub open spec fn insert_entry(es: Seq<(Seq<char>, SpecJson)>, e: (Seq<char>, SpecJson)) -> Seq<
    (Seq<char>, SpecJson),
>
    decreases es.len(),
{
    if es.len() == 0 {
        seq![e]
    } else if es[0].0 == e.0 {
        es
    } else if text_lt(e.0, es[0].0) {
        seq![e] + es
    } else {
        seq![es[0]] + insert_entry(es.drop_first(), e)
    }
}

/// The entries ordered by key, the first entry of each key kept.
pub open spec fn sort_entries(es: Seq<(Seq<char>, SpecJson)>) -> Seq<(Seq<char>, SpecJson)>
    decreases es.len(),
{
    if es.len() == 0 {
        seq![]
    } else {
        insert_entry(sort_entries(es.drop_last()), es.last())
    }
}

/// The members of an object, each value in canonical form.
pub open spec fn canonical_members(es: Seq<(Seq<char>, SpecJson)>) -> Seq<(Seq<char>, SpecJson)>
    decreases es,
{
    Seq::new(
        es.len(),
        |i: int|
            if 0 <= i < es.len() {
                (es[i].0, spec_canonicalize(es[i].1))
            } else {
                (Seq::empty(), SpecJson::Null)
            },
    )
}

/// The items of an array, each in canonical form.
pub open spec fn canonical_items(xs: Seq<SpecJson>) -> Seq<SpecJson>
    decreases xs,
{
    Seq::new(
        xs.len(),
        |i: int|
            if 0 <= i < xs.len() {
                spec_canonicalize(xs[i])
            } else {
                SpecJson::Null
            },
    )
}

/// The canonical form of a document: object members ordered by key, at every depth.
pub open spec fn spec_canonicalize(v: SpecJson) -> SpecJson
    decreases v,
{
    match v {
        SpecJson::Object(es) => SpecJson::Object(sort_entries(canonical_members(es))),
        SpecJson::Array(xs) => SpecJson::Array(canonical_items(xs)),
        _ => v,
    }
}

/// Whether `a` comes before `b` in the order of `str`.
pub fn text_less(a: &str, b: &str) -> (r: bool)
    ensures
        r == text_lt(a@, b@),
{
    let ca = chars_of(a);
    let cb = chars_of(b);
    let mut k: usize = 0;
    assert(a@.skip(0) =~= a@);
    assert(b@.skip(0) =~= b@);
    while k < ca.len() && k < cb.len() && ca[k] == cb[k]
        invariant
            ca@ == a@,
            cb@ == b@,
            k <= ca.len(),
            k <= cb.len(),
            text_lt(a@, b@) == text_lt(a@.skip(k as int), b@.skip(k as int)),
        decreases ca.len() - k,
    {
        assert(a@.skip(k as int).drop_first() =~= a@.skip(k + 1));
        assert(b@.skip(k as int).drop_first() =~= b@.skip(k + 1));
        k = k + 1;
    }
    if k == ca.len() {
        k < cb.len()
    } else if k == cb.len() {
        false
    } else {
        (ca[k] as u32) < (cb[k] as u32)
    }
}

/// Adds `e` to key-ordered `out` at its key's place, unless the key is present.
pub fn insert_member_sorted(out: &mut Vec<(String, JsonValue)>, e: (String, JsonValue))
    ensures
        final(out)@.map_values(|x: (String, JsonValue)| (x.0@, x.1@)) == insert_entry(
            old(out)@.map_values(|x: (String, JsonValue)| (x.0@, x.1@)),
            (e.0@, e.1@),
        ),
{
    let ghost es = old(out)@.map_values(|x: (String, JsonValue)| (x.0@, x.1@));
    let ghost ev = (e.0@, e.1@);
    let mut j: usize = 0;
    assert(es.skip(0) =~= es);
    assert(es.take(0) + insert_entry(es, ev) =~= insert_entry(es, ev));
    while j < out.len()
        invariant
            out@ == old(out)@,
            es == old(out)@.map_values(|x: (String, JsonValue)| (x.0@, x.1@)),
            ev == (e.0@, e.1@),
            j <= out.len(),
            insert_entry(es, ev) == es.take(j as int) + insert_entry(es.skip(j as int), ev),
        decreases out.len() - j,
    {
        let ghost rest = es.skip(j as int);
        assert(rest[0] == es[j as int]);
        if crate::text::str_equal(out[j].0.as_str(), e.0.as_str()) {
            assert(insert_entry(rest, ev) == rest);
            assert(es.take(j as int) + rest =~= es);
            return;
        }
        if text_less(e.0.as_str(), out[j].0.as_str()) {
            out.insert(j, e);
            assert(insert_entry(rest, ev) == seq![ev] + rest);
            assert(out@.map_values(|x: (String, JsonValue)| (x.0@, x.1@)) =~= es.take(j as int) + (seq![ev] + rest));
            return;
        }
        assert(rest.drop_first() =~= es.skip(j + 1));
        assert(es.take(j as int) + (seq![rest[0]] + insert_entry(rest.drop_first(), ev)) =~= es.take(j + 1) + insert_entry(es.skip(j + 1), ev));
        j = j + 1;
    }
    assert(es.skip(j as int) =~= Seq::<(Seq<char>, SpecJson)>::empty());
    assert(es.take(j as int) =~= es);
    out.push(e);
    assert(out@.map_values(|x: (String, JsonValue)| (x.0@, x.1@)) =~= es + seq![ev]);
}

/// The document with object members ordered by key, at every depth.
#[verifier::loop_isolation(false)]
pub fn canonicalize_json(value: &JsonValue) -> (r: JsonValue)
    ensures
        r@ == spec_canonicalize(value@),
    decreases value,
{
    match value {
        JsonValue::Object(entries) => {
            let ghost es = value@->Object_0;
            let ghost mapped = canonical_members(es);
            let mut out: Vec<(String, JsonValue)> = Vec::new();
            let mut i: usize = 0;
            assert(mapped.take(0) =~= Seq::<(Seq<char>, SpecJson)>::empty());
            assert(out@.map_values(|x: (String, JsonValue)| (x.0@, x.1@)) =~= Seq::<(Seq<char>, SpecJson)>::empty());
            while i < entries.len()
                invariant
                    i <= entries.len(),
                    es == value@->Object_0,
                    es.len() == entries.len(),
                    value@ == SpecJson::Object(es),
                    forall|k: int|
                        0 <= k < entries.len() ==> #[trigger] es[k] == (entries@[k].0@, entries@[k].1@),
                    mapped == canonical_members(es),
                    out@.map_values(|x: (String, JsonValue)| (x.0@, x.1@)) == sort_entries(mapped.take(i as int)),
                decreases entries.len() - i,
            {
                proof {
                    assert(decreases_to!(*value => value->Object_0));
                    assert(decreases_to!(*entries => entries@));
                    assert(decreases_to!(entries@ => entries@[i as int]));
                    assert(decreases_to!(entries@[i as int] => entries@[i as int].1));
                    assert(decreases_to!(*value => entries@[i as int].1));
                }
                let c = canonicalize_json(&entries[i].1);
                assert(es[i as int] == (entries@[i as int].0@, entries@[i as int].1@));
                assert(mapped.take(i + 1).drop_last() =~= mapped.take(i as int));
                assert(mapped.take(i + 1).last() == (entries@[i as int].0@, c@));
                insert_member_sorted(&mut out, (entries[i].0.clone(), c));
                i = i + 1;
            }
            assert(mapped.take(entries.len() as int) =~= mapped);
            let ghost ov = out@.map_values(|x: (String, JsonValue)| (x.0@, x.1@));
            let r = JsonValue::Object(out);
            assert(r@->Object_0 =~= ov);
            r
        },
        JsonValue::Array(items) => {
            let ghost xs = value@->Array_0;
            let mut out: Vec<JsonValue> = Vec::new();
            let mut i: usize = 0;
            while i < items.len()
                invariant
                    i <= items.len(),
                    xs == value@->Array_0,
                    xs.len() == items.len(),
                    value@ == SpecJson::Array(xs),
                    forall|k: int| 0 <= k < items.len() ==> #[trigger] xs[k] == items@[k]@,
                    out.len() == i,
                    forall|k: int| 0 <= k < i ==> (#[trigger] out@[k])@ == spec_canonicalize(xs[k]),
                decreases items.len() - i,
            {
                proof {
                    assert(decreases_to!(*value => value->Array_0));
                    assert(decreases_to!(*items => items@));
                    assert(decreases_to!(items@ => items@[i as int]));
                    assert(decreases_to!(*value => items@[i as int]));
                }
                let c = canonicalize_json(&items[i]);
                assert(xs[i as int] == items@[i as int]@);
                out.push(c);
                i = i + 1;
            }
            let r = JsonValue::Array(out);
            assert(r@->Array_0 =~= spec_canonicalize(value@)->Array_0);
            r
        },
        _ => value.copy(),
    }
}

/// The compact JSON text of a document, or `null` where it cannot be written.
pub open spec fn spec_stable_json_string(v: SpecJson) -> Seq<char> {
    match spec_json_text(v) {
        Some(t) => t,
        None => "null"@,
    }
}

/// The compact JSON text of a document (`serde_json::to_string`), or `null`
/// where it cannot be written.
pub fn stable_json_string(value: &JsonValue) -> (r: String)
    ensures
        r@ == spec_stable_json_string(value@),
{
    match json_to_text(value) {
        Some(t) => t,
        None => owned("null"),
    }
}

/// The result of scanning `s` from `i` for the first balanced `{...}` outside
/// string literals, with the scan state so far: where the outermost object
/// started, how deep the nesting is, whether the scan is inside a string and
/// whether the previous character was an escaping backslash there.
pub open spec fn scan_first_object(
    s: Seq<char>,
    i: int,
    start: Option<int>,
    depth: int,
    in_string: bool,
    escaped: bool,
) -> Option<Seq<char>>
    decreases s.len() - i,
{
    if i < 0 || i >= s.len() {
        None
    } else {
        let c = s[i];
        if in_string {
            if escaped {
                scan_first_object(s, i + 1, start, depth, true, false)
            } else if c == '\\' {
                scan_first_object(s, i + 1, start, depth, true, true)
            } else if c == '"' {
                scan_first_object(s, i + 1, start, depth, false, false)
            } else {
                scan_first_object(s, i + 1, start, depth, true, false)
            }
        } else if c == '"' {
            scan_first_object(s, i + 1, start, depth, true, false)
        } else if c == '{' {
            scan_first_object(
                s,
                i + 1,
                if start is None {
                    Some(i)
                } else {
                    start
                },
                depth + 1,
                false,
                false,
            )
        } else if c == '}' && depth > 0 {
            if depth == 1 && start is Some {
                Some(s.subrange(start->0, i + 1))
            } else {
                scan_first_object(s, i + 1, start, depth - 1, false, false)
            }
        } else {
            scan_first_object(s, i + 1, start, depth, false, escaped)
        }
    }
}

/// The first balanced JSON object text in `s`, string literals respected.
pub open spec fn spec_extract_first_json_object(s: Seq<char>) -> Option<Seq<char>> {
    scan_first_object(s, 0, None, 0, false, false)
}

/// What the scan finds is a slice of the text that starts with `{` and ends with `}`.
pub proof fn lemma_scan_braces(
    s: Seq<char>,
    i: int,
    start: Option<int>,
    depth: int,
    in_string: bool,
    escaped: bool,
)
    requires
        0 <= i <= s.len(),
        start matches Some(k) ==> 0 <= k < i && s[k] == '{',
    ensures
        scan_first_object(s, i, start, depth, in_string, escaped) matches Some(t) ==> t.len() >= 2
            && t[0] == '{' && t[t.len() - 1] == '}' && exists|a: int, b: int|
            0 <= a < b <= s.len() && t == s.subrange(a, b),
    decreases s.len() - i,
{
    if i < s.len() {
        if !in_string && s[i] == '}' && depth > 0 && depth == 1 && start is Some {
            let a = start->0;
            assert(s.subrange(a, i + 1) == s.subrange(a, i + 1));
        }
        let c = s[i];
        if in_string {
            if escaped {
                lemma_scan_braces(s, i + 1, start, depth, true, false);
            } else if c == '\\' {
                lemma_scan_braces(s, i + 1, start, depth, true, true);
            } else if c == '"' {
                lemma_scan_braces(s, i + 1, start, depth, false, false);
            } else {
                lemma_scan_braces(s, i + 1, start, depth, true, false);
            }
        } else if c == '"' {
            lemma_scan_braces(s, i + 1, start, depth, true, false);
        } else if c == '{' {
            let ns = if start is None {
                Some(i)
            } else {
                start
            };
            lemma_scan_braces(s, i + 1, ns, depth + 1, false, false);
        } else if c == '}' && depth > 0 {
            if !(depth == 1 && start is Some) {
                lemma_scan_braces(s, i + 1, start, depth - 1, false, false);
            }
        } else {
            lemma_scan_braces(s, i + 1, start, depth, false, escaped);
        }
    }
}

/// The first balanced JSON object in free text, skipping braces inside string
/// literals; `None` when no object closes. What it returns is a slice of the
/// text that starts with `{` and ends with `}`.
pub fn extract_first_json_object(text: &str) -> (r: Option<String>)
    ensures
        match r {
            Some(t) => spec_extract_first_json_object(text@) == Some(t@),
            None => spec_extract_first_json_object(text@) is None,
        },
        r matches Some(t) ==> t@.len() >= 2 && t@[0] == '{' && t@[t@.len() - 1] == '}' && exists|a: int, b: int|
            0 <= a < b <= text@.len() && t@ == text@.subrange(a, b),
{
    let chars = chars_of(text);
    let n = chars.len();
    let mut start: Option<usize> = None;
    let mut depth: usize = 0;
    let mut in_string = false;
    let mut escaped = false;
    let mut i: usize = 0;
    while i < n
        invariant
            chars@ == text@,
            n == chars.len(),
            i <= n,
            depth <= i,
            start matches Some(k) ==> k < i,
            !in_string ==> !escaped,
            spec_extract_first_json_object(text@) == scan_first_object(
                text@,
                i as int,
                match start {
                    Some(k) => Some(k as int),
                    None => None,
                },
                depth as int,
                in_string,
                escaped,
            ),
        decreases n - i,
    {
        let c = chars[i];
        if in_string {
            if escaped {
                escaped = false;
            } else if c == '\\' {
                escaped = true;
            } else if c == '"' {
                in_string = false;
            }
        } else if c == '"' {
            in_string = true;
        } else if c == '{' {
            if start.is_none() {
                start = Some(i);
            }
            depth = depth + 1;
        } else if c == '}' && depth > 0 {
            depth = depth - 1;
            if depth == 0 {
                match start {
                    Some(k) => {
                        proof {
                            lemma_scan_braces(text@, 0, None, 0, false, false);
                        }
                        return Some(substring(text, k, i + 1));
                    },
                    None => {},
                }
            }
        }
        i = i + 1;
    }
    None
}

/// The schema `{"additionalProperties": true, "type": "object"}`.
pub open spec fn spec_permissive_json_object_schema() -> SpecJson {
    SpecJson::Object(
        seq![
            ("additionalProperties"@, SpecJson::Bool(true)),
            ("type"@, SpecJson::Str("object"@)),
        ],
    )
}

/// The schema of any JSON object: `{"type": "object", "additionalProperties": true}`,
/// members in key order.
pub fn permissive_json_object_schema() -> (r: JsonValue)
    ensures
        r@ == spec_permissive_json_object_schema(),
{
    let additional = JsonValue::Bool(true);
    let object = JsonValue::String(owned("object"));
    assert(additional@ == SpecJson::Bool(true));
    assert(object@ == SpecJson::Str("object"@));
    let mut entries: Vec<(String, JsonValue)> = Vec::new();
    entries.push((owned("additionalProperties"), additional));
    entries.push((owned("type"), object));
    let r = JsonValue::Object(entries);
    assert(r@->Object_0 =~= spec_permissive_json_object_schema()->Object_0);
    r
}

proof fn lemma_text_lt_irreflexive(a: Seq<char>)
    ensures
        !text_lt(a, a),
    decreases a.len(),
{
    if a.len() > 0 {
        lemma_text_lt_irreflexive(a.drop_first());
    }
}

proof fn lemma_text_lt_transitive(a: Seq<char>, b: Seq<char>, c: Seq<char>)
    requires
        text_lt(a, b),
        text_lt(b, c),
    ensures
        text_lt(a, c),
    decreases a.len(),
{
    if a.len() > 0 && b.len() > 0 && c.len() > 0 && a[0] == b[0] && b[0] == c[0] {
        lemma_text_lt_transitive(a.drop_first(), b.drop_first(), c.drop_first());
    }
}

proof fn lemma_text_lt_total(a: Seq<char>, b: Seq<char>)
    requires
        a != b,
    ensures
        text_lt(a, b) || text_lt(b, a),
    decreases a.len(),
{
    if a.len() > 0 && b.len() > 0 && a[0] == b[0] {
        if a.drop_first() == b.drop_first() {
            assert(a =~= seq![a[0]] + a.drop_first());
            assert(b =~= seq![b[0]] + b.drop_first());
        }
        lemma_text_lt_total(a.drop_first(), b.drop_first());
    } else if a.len() > 0 && b.len() > 0 {
        vstd::utf8::char_u32_cast(a[0], a[0] as u32);
        vstd::utf8::char_u32_cast(b[0], b[0] as u32);
    } else if a.len() == 0 && b.len() == 0 {
        assert(a =~= b);
    }
}

/// The members come in strictly increasing key order.
pub open spec fn keys_sorted(es: Seq<(Seq<char>, SpecJson)>) -> bool {
    forall|i: int, j: int| 0 <= i < j < es.len() ==> text_lt(#[trigger] es[i].0, #[trigger] es[j].0)
}

proof fn lemma_insert_entry_bound(es: Seq<(Seq<char>, SpecJson)>, e: (Seq<char>, SpecJson), k: Seq<char>)
    requires
        forall|j: int| 0 <= j < es.len() ==> text_lt(k, #[trigger] es[j].0),
        text_lt(k, e.0),
    ensures
        forall|x: int| 0 <= x < insert_entry(es, e).len() ==> text_lt(k, #[trigger] insert_entry(es, e)[x].0),
    decreases es.len(),
{
    if es.len() > 0 && es[0].0 != e.0 && !text_lt(e.0, es[0].0) {
        let rest = es.drop_first();
        lemma_insert_entry_bound(rest, e, k);
        let r = insert_entry(es, e);
        assert forall|x: int| 0 <= x < r.len() implies text_lt(k, #[trigger] r[x].0) by {
            if x > 0 {
                assert(r[x] == insert_entry(rest, e)[x - 1]);
            }
        }
    }
}

proof fn lemma_insert_entry_sorted(es: Seq<(Seq<char>, SpecJson)>, e: (Seq<char>, SpecJson))
    requires
        keys_sorted(es),
    ensures
        keys_sorted(insert_entry(es, e)),
    decreases es.len(),
{
    let r = insert_entry(es, e);
    if es.len() == 0 {
    } else if es[0].0 == e.0 {
    } else if text_lt(e.0, es[0].0) {
        assert forall|i: int, j: int| 0 <= i < j < r.len() implies text_lt(#[trigger] r[i].0, #[trigger] r[j].0) by {
            if i == 0 {
                if j > 1 {
                    lemma_text_lt_transitive(e.0, es[0].0, es[j - 1].0);
                }
            } else {
                assert(r[i] == es[i - 1] && r[j] == es[j - 1]);
            }
        }
    } else {
        lemma_text_lt_total(e.0, es[0].0);
        let rest = es.drop_first();
        assert forall|i: int, j: int| 0 <= i < j < rest.len() implies text_lt(#[trigger] rest[i].0, #[trigger] rest[j].0) by {
            assert(rest[i] == es[i + 1] && rest[j] == es[j + 1]);
        }
        lemma_insert_entry_sorted(rest, e);
        assert forall|j: int| 0 <= j < rest.len() implies text_lt(es[0].0, #[trigger] rest[j].0) by {
            assert(rest[j] == es[j + 1]);
        }
        lemma_insert_entry_bound(rest, e, es[0].0);
        let ir = insert_entry(rest, e);
        assert forall|i: int, j: int| 0 <= i < j < r.len() implies text_lt(#[trigger] r[i].0, #[trigger] r[j].0) by {
            if i == 0 {
                assert(r[j] == ir[j - 1]);
            } else {
                assert(r[i] == ir[i - 1] && r[j] == ir[j - 1]);
            }
        }
    }
}

proof fn lemma_sort_entries_sorted(es: Seq<(Seq<char>, SpecJson)>)
    ensures
        keys_sorted(sort_entries(es)),
    decreases es.len(),
{
    if es.len() > 0 {
        lemma_sort_entries_sorted(es.drop_last());
        lemma_insert_entry_sorted(sort_entries(es.drop_last()), es.last());
    }
}

/// A canonical object has its members in strictly increasing key order, so no
/// key occurs twice.
pub proof fn law_canonical_keys_sorted(v: SpecJson)
    ensures
        spec_canonicalize(v) matches SpecJson::Object(es) ==> keys_sorted(es),
{
    match v {
        SpecJson::Object(es) => lemma_sort_entries_sorted(canonical_members(es)),
        _ => {},
    }
}

proof fn lemma_text_lt_asymmetric(a: Seq<char>, b: Seq<char>)
    requires
        text_lt(a, b),
    ensures
        !text_lt(b, a),
{
    if text_lt(b, a) {
        lemma_text_lt_transitive(a, b, a);
        lemma_text_lt_irreflexive(a);
    }
}

/// Adding an entry whose key follows every key appends it.
proof fn lemma_insert_entry_last(es: Seq<(Seq<char>, SpecJson)>, e: (Seq<char>, SpecJson))
    requires
        forall|j: int| 0 <= j < es.len() ==> text_lt(#[trigger] es[j].0, e.0),
    ensures
        insert_entry(es, e) == es.push(e),
    decreases es.len(),
{
    if es.len() > 0 {
        lemma_text_lt_irreflexive(e.0);
        lemma_text_lt_asymmetric(es[0].0, e.0);
        let rest = es.drop_first();
        assert forall|j: int| 0 <= j < rest.len() implies text_lt(#[trigger] rest[j].0, e.0) by {
            assert(rest[j] == es[j + 1]);
        }
        lemma_insert_entry_last(rest, e);
        assert(seq![es[0]] + rest.push(e) =~= es.push(e));
    } else {
        assert(seq![e] =~= es.push(e));
    }
}

/// Sorting members that are already in strictly increasing key order keeps them.
proof fn lemma_sort_entries_of_sorted(es: Seq<(Seq<char>, SpecJson)>)
    requires
        keys_sorted(es),
    ensures
        sort_entries(es) == es,
    decreases es.len(),
{
    if es.len() > 0 {
        let init = es.drop_last();
        assert(keys_sorted(init)) by {
            assert forall|i: int, j: int| 0 <= i < j < init.len() implies text_lt(
                #[trigger] init[i].0,
                #[trigger] init[j].0,
            ) by {
                assert(init[i] == es[i] && init[j] == es[j]);
            }
        }
        lemma_sort_entries_of_sorted(init);
        assert forall|j: int| 0 <= j < init.len() implies text_lt(#[trigger] init[j].0, es.last().0) by {
            assert(init[j] == es[j]);
        }
        lemma_insert_entry_last(init, es.last());
        assert(init.push(es.last()) =~= es);
    }
}

/// Every entry of an insertion is an entry of the list or the inserted one.
proof fn lemma_insert_entry_members(es: Seq<(Seq<char>, SpecJson)>, e: (Seq<char>, SpecJson), x: int)
    requires
        0 <= x < insert_entry(es, e).len(),
    ensures
        insert_entry(es, e)[x] == e || exists|j: int| 0 <= j < es.len() && insert_entry(es, e)[x] == es[j],
    decreases es.len(),
{
    let r = insert_entry(es, e);
    if es.len() == 0 {
    } else if es[0].0 == e.0 {
        assert(r[x] == es[x]);
    } else if text_lt(e.0, es[0].0) {
        if x > 0 {
            assert(r[x] == es[x - 1]);
        }
    } else {
        if x > 0 {
            let rest = es.drop_first();
            assert(r[x] == insert_entry(rest, e)[x - 1]);
            lemma_insert_entry_members(rest, e, x - 1);
            if insert_entry(rest, e)[x - 1] != e {
                let j = choose|j: int| 0 <= j < rest.len() && insert_entry(rest, e)[x - 1] == rest[j];
                assert(r[x] == es[j + 1]);
            }
        } else {
            assert(r[0] == es[0]);
        }
    }
}

/// Every entry of the sorted members is one of the members.
proof fn lemma_sort_entries_members(es: Seq<(Seq<char>, SpecJson)>, x: int)
    requires
        0 <= x < sort_entries(es).len(),
    ensures
        exists|j: int| 0 <= j < es.len() && sort_entries(es)[x] == es[j],
    decreases es.len(),
{
    if es.len() > 0 {
        let init = es.drop_last();
        lemma_insert_entry_members(sort_entries(init), es.last(), x);
        if sort_entries(es)[x] == es.last() {
            assert(sort_entries(es)[x] == es[es.len() - 1]);
        } else {
            let k = choose|k: int|
                0 <= k < sort_entries(init).len() && sort_entries(es)[x] == sort_entries(init)[k];
            lemma_sort_entries_members(init, k);
            let j = choose|j: int| 0 <= j < init.len() && sort_entries(init)[k] == init[j];
            assert(sort_entries(es)[x] == es[j]);
        }
    }
}

/// Canonicalizing a canonical document changes nothing: `canonicalize_json`
/// is idempotent, so the stable text of a canonical document is stable.
pub proof fn law_canonicalize_idempotent(v: SpecJson)
    ensures
        spec_canonicalize(spec_canonicalize(v)) == spec_canonicalize(v),
    decreases v,
{
    match v {
        SpecJson::Object(es) => {
            let cm = canonical_members(es);
            let sorted = sort_entries(cm);
            lemma_sort_entries_sorted(cm);
            assert forall|x: int| 0 <= x < sorted.len() implies #[trigger] canonical_members(sorted)[x]
                == sorted[x] by {
                lemma_sort_entries_members(cm, x);
                let j = choose|j: int| 0 <= j < cm.len() && sorted[x] == cm[j];
                assert(cm[j] == (es[j].0, spec_canonicalize(es[j].1)));
                law_canonicalize_idempotent(es[j].1);
            }
            assert(canonical_members(sorted) =~= sorted);
            lemma_sort_entries_of_sorted(sorted);
        },
        SpecJson::Array(xs) => {
            let ci = canonical_items(xs);
            assert forall|x: int| 0 <= x < ci.len() implies #[trigger] canonical_items(ci)[x] == ci[x] by {
                law_canonicalize_idempotent(xs[x]);
            }
            assert(canonical_items(ci) =~= ci);
        },
        _ => {},
    }
}

} // verus!
