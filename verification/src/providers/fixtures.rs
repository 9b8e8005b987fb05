//! Helpers for recorded provider fixtures: error fixture paths and error bodies.
use vstd::prelude::*;

use crate::json::{JsonValue, SpecJson};
use crate::text::{chars_of, concat, is_blank_str, spec_trim, str_equal};

verus! {

/// The index of the first `/` at or after `i`, or the length when there is none.
pub open spec fn next_slash(s: Seq<char>, i: int) -> int
    decreases s.len() - i,
{
    if i < 0 || i >= s.len() {
        s.len() as int
    } else if s[i] == '/' {
        i
    } else {
        next_slash(s, i + 1)
    }
}

/// The scenario and model named by an error fixture path
/// `errors/<scenario>/<model>.json`, or the message of what is wrong with it.
pub open spec fn spec_parse_error_relpath(s: Seq<char>) -> Result<(Seq<char>, Seq<char>), Seq<char>> {
    let p1 = next_slash(s, 0);
    let p2 = next_slash(s, p1 + 1);
    let p3 = next_slash(s, p2 + 1);
    if s.subrange(0, p1) != "errors"@ {
        Err("unexpected error relpath prefix: "@ + s)
    } else if p1 < s.len() && p2 < s.len() && p3 < s.len() {
        Err("unexpected error relpath shape: "@ + s)
    } else if p1 >= s.len() {
        Err("missing error scenario in relpath: "@ + s)
    } else if spec_trim(s.subrange(p1 + 1, p2)).len() == 0 {
        Err("empty error scenario in relpath: "@ + s)
    } else if p2 >= s.len() {
        Err("missing error file in relpath: "@ + s)
    } else {
        let file = s.subrange(p2 + 1, p3);
        if file.len() < 5 || file.subrange(file.len() - 5, file.len() as int) != ".json"@ {
            Err("error relpath does not end with .json: "@ + s)
        } else {
            let model = file.subrange(0, file.len() - 5);
            if spec_trim(model).len() == 0 {
                Err("empty error model in relpath: "@ + s)
            } else {
                Ok((s.subrange(p1 + 1, p2), model))
            }
        }
    }
}

/// The first `/` at or after `from`.
fn find_slash(chars: &Vec<char>, from: usize) -> (r: usize)
    requires
        from <= chars.len(),
    ensures
        r == next_slash(chars@, from as int),
        from <= r <= chars.len(),
{
    let mut i = from;
    while i < chars.len() && chars[i] != '/'
        invariant
            from <= i <= chars.len(),
            next_slash(chars@, i as int) == next_slash(chars@, from as int),
        decreases chars.len() - i,
    {
        i = i + 1;
    }
    i
}

/// Splits an error fixture path `errors/<scenario>/<model>.json` into its
/// scenario and model.
pub fn parse_error_relpath(relpath: &str) -> (r: Result<(&str, &str), String>)
    ensures
        match spec_parse_error_relpath(relpath@) {
            Ok((scenario, model)) => r matches Ok((a, b)) && a@ == scenario && b@ == model,
            Err(m) => r matches Err(e) && e@ == m,
        },
{
    let chars = chars_of(relpath);
    let n = chars.len();
    let p1 = find_slash(&chars, 0);
    let p2 = if p1 < n {
        find_slash(&chars, p1 + 1)
    } else {
        n
    };
    let p3 = if p2 < n {
        find_slash(&chars, p2 + 1)
    } else {
        n
    };
    assert(p2 == next_slash(relpath@, p1 + 1));
    assert(p3 == next_slash(relpath@, p2 + 1));
    if !str_equal(relpath.substring_char(0, p1), "errors") {
        return Err(concat("unexpected error relpath prefix: ", relpath));
    }
    if p1 < n && p2 < n && p3 < n {
        return Err(concat("unexpected error relpath shape: ", relpath));
    }
    if p1 >= n {
        return Err(concat("missing error scenario in relpath: ", relpath));
    }
    let scenario = relpath.substring_char(p1 + 1, p2);
    if is_blank_str(scenario) {
        return Err(concat("empty error scenario in relpath: ", relpath));
    }
    if p2 >= n {
        return Err(concat("missing error file in relpath: ", relpath));
    }
    let file = relpath.substring_char(p2 + 1, p3);
    let flen = p3 - (p2 + 1);
    assert(file@.len() == flen);
    if flen < 5 || !str_equal(file.substring_char(flen - 5, flen), ".json") {
        return Err(concat("error relpath does not end with .json: ", relpath));
    }
    let model = file.substring_char(0, flen - 5);
    if is_blank_str(model) {
        return Err(concat("empty error model in relpath: ", relpath));
    }
    Ok((scenario, model))
}

/// Whether a body carries an `error` object at the top level.
pub open spec fn spec_has_top_level_error_object(body: SpecJson) -> bool {
    match body.get("error"@) {
        Some(e) => e.is_object(),
        None => false,
    }
}

/// Whether a body carries an `error` object at the top level.
pub fn has_top_level_error_object(body: &JsonValue) -> (r: bool)
    ensures
        r == spec_has_top_level_error_object(body@),
{
    match body.get("error") {
        Some(e) => e.is_object(),
        None => false,
    }
}

proof fn lemma_next_slash(s: Seq<char>, i: int)
    requires
        0 <= i <= s.len(),
    ensures
        i <= next_slash(s, i) <= s.len(),
        next_slash(s, i) < s.len() ==> s[next_slash(s, i)] == '/',
        forall|k: int| i <= k < next_slash(s, i) ==> s[k] != '/',
    decreases s.len() - i,
{
    if i < s.len() && s[i] != '/' {
        lemma_next_slash(s, i + 1);
    }
}

/// A path that parses is exactly `errors/<scenario>/<model>.json`, and its
/// scenario holds no `/`.
pub proof fn law_error_relpath_round_trip(s: Seq<char>)
    ensures
        spec_parse_error_relpath(s) matches Ok((scenario, model)) ==> s == "errors/"@ + scenario
            + "/"@ + model + ".json"@ && !scenario.contains('/'),
{
    reveal_strlit("errors");
    reveal_strlit("errors/");
    reveal_strlit("/");
    reveal_strlit(".json");
    lemma_next_slash(s, 0);
    let p1 = next_slash(s, 0);
    if p1 < s.len() {
        lemma_next_slash(s, p1 + 1);
        let p2 = next_slash(s, p1 + 1);
        if p2 < s.len() {
            lemma_next_slash(s, p2 + 1);
        }
    }
    if spec_parse_error_relpath(s) is Ok {
        let (scenario, model) = spec_parse_error_relpath(s)->Ok_0;
        let p2 = next_slash(s, p1 + 1);
        let p3 = next_slash(s, p2 + 1);
        assert(p3 == s.len());
        let file = s.subrange(p2 + 1, p3);
        assert(model =~= file.subrange(0, file.len() - 5));
        assert(file =~= model + ".json"@);
        assert(s =~= s.subrange(0, p1) + seq![s[p1]] + scenario + seq![s[p2]] + file);
        assert(s =~= "errors/"@ + scenario + "/"@ + model + ".json"@);
        assert forall|k: int| 0 <= k < scenario.len() implies scenario[k] != '/' by {
            assert(scenario[k] == s[p1 + 1 + k]);
        }
    }
}

} // verus!
