//! Strategy parameters: the parameters each strategy takes with their
//! default values, and reading a parameter the user may not have set yet.

use vstd::prelude::*;
use crate::string_map::StrMap;
use crate::text::same_text;

verus! {

/// The parameters of a strategy and their default values, in the order the
/// parameter form lists them; strategies without parameters have none.
pub open spec fn param_defaults(strategy: Seq<char>) -> Seq<(Seq<char>, Seq<char>)> {
    if strategy == "bollinger"@ {
        seq![("window"@, "20"@), ("std_dev"@, "2.0"@)]
    } else if strategy == "ml"@ {
        seq![("lookback_days"@, "60"@)]
    } else if strategy == "momentum"@ {
        seq![("lookback_period"@, "20"@), ("momentum_threshold"@, "0.02"@)]
    } else {
        seq![]
    }
}

/// The view of a list of text pairs.
pub open spec fn pairs_view(v: Vec<(String, String)>) -> Seq<(Seq<char>, Seq<char>)> {
    v@.map_values(|p: (String, String)| (p.0@, p.1@))
}

/// The parameters `strategy` takes, each with its default value.
pub fn strategy_param_defaults(strategy: &str) -> (defaults: Vec<(String, String)>)
    ensures
        pairs_view(defaults) == param_defaults(strategy@),
{
    proof {
        reveal_strlit("bollinger");
        reveal_strlit("ml");
        reveal_strlit("momentum");
    }
    let v = if same_text(strategy, "bollinger") {
        vec![("window".to_owned(), "20".to_owned()), ("std_dev".to_owned(), "2.0".to_owned())]
    } else if same_text(strategy, "ml") {
        vec![("lookback_days".to_owned(), "60".to_owned())]
    } else if same_text(strategy, "momentum") {
        vec![("lookback_period".to_owned(), "20".to_owned()), ("momentum_threshold".to_owned(), "0.02".to_owned())]
    } else {
        Vec::new()
    };
    assert(pairs_view(v) =~= param_defaults(strategy@));
    v
}

/// The value the parameter form shows for `key`: what the user set, or the
/// default.
pub open spec fn shown_param(params: Map<Seq<char>, String>, key: Seq<char>, default: Seq<char>) -> Seq<char> {
    if params.contains_key(key) {
        params[key]@
    } else {
        default
    }
}

/// The value of parameter `key`, or `default` when it has not been set.
pub fn param_or_default(params: &StrMap<String>, key: &str, default: &str) -> (v: String)
    ensures
        v@ == shown_param(params@, key@, default@),
{
    match params.get(key) {
        Some(v) => v.clone(),
        None => default.to_owned(),
    }
}

/// Every parameter of `strategy` that has not been set yet, set to its
/// default; parameters already set keep their values.
pub open spec fn with_defaults(params: Map<Seq<char>, Seq<char>>, defaults: Seq<(Seq<char>, Seq<char>)>) -> Map<Seq<char>, Seq<char>>
    decreases defaults.len(),
{
    if defaults.len() == 0 {
        params
    } else {
        let last = defaults.last();
        let rest = with_defaults(params, defaults.drop_last());
        if rest.contains_key(last.0) {
            rest
        } else {
            rest.insert(last.0, last.1)
        }
    }
}

/// The texts a map of texts holds.
pub open spec fn texts(m: Map<Seq<char>, String>) -> Map<Seq<char>, Seq<char>> {
    m.map_values(|v: String| v@)
}

/// Sets every parameter of `strategy` that is not set yet to its default,
/// as the parameter form does when it is shown.
pub fn fill_param_defaults(params: &mut StrMap<String>, strategy: &str)
    ensures
        texts(final(params)@) == with_defaults(texts(old(params)@), param_defaults(strategy@)),
{
    let defaults = strategy_param_defaults(strategy);
    let ghost d = pairs_view(defaults);
    let mut i: usize = 0;
    while i < defaults.len()
        invariant
            d == pairs_view(defaults),
            d == param_defaults(strategy@),
            i <= defaults@.len(),
            texts(params@) == with_defaults(texts(old(params)@), d.take(i as int)),
        decreases defaults@.len() - i,
    {
        let key = &defaults[i].0;
        let value = param_or_default(params, key.as_str(), defaults[i].1.as_str());
        let ghost before = texts(params@);
        params.insert(key.clone(), value);
        proof {
            assert(d.take(i + 1).drop_last() == d.take(i as int));
            assert(d.take(i + 1).last() == d[i as int]);
            if before.contains_key(d[i as int].0) {
                assert(texts(params@) =~= before);
            } else {
                assert(texts(params@) =~= before.insert(d[i as int].0, d[i as int].1));
            }
        }
        i = i + 1;
    }
    assert(d.take(i as int) == d);
}

/// Filling in defaults never changes a parameter the user has set, and
/// afterwards every parameter of the strategy has a value.
pub proof fn law_defaults_keep_user_values(params: Map<Seq<char>, Seq<char>>, defaults: Seq<(Seq<char>, Seq<char>)>)
    ensures
        forall|k: Seq<char>| #[trigger] params.contains_key(k) ==>
            with_defaults(params, defaults).contains_key(k) && with_defaults(params, defaults)[k] == params[k],
        forall|j: int| 0 <= j < defaults.len() ==> with_defaults(params, defaults).contains_key(#[trigger] defaults[j].0),
        forall|k: Seq<char>| #[trigger] with_defaults(params, defaults).contains_key(k) ==>
            params.contains_key(k) || exists|j: int| 0 <= j < defaults.len() && defaults[j].0 == k,
    decreases defaults.len(),
{
    if defaults.len() > 0 {
        let rest = defaults.drop_last();
        law_defaults_keep_user_values(params, rest);
        assert forall|j: int| 0 <= j < defaults.len() implies with_defaults(params, defaults).contains_key(#[trigger] defaults[j].0) by {
            if j < defaults.len() - 1 {
                assert(rest[j] == defaults[j]);
            }
        }
        assert forall|k: Seq<char>| #[trigger] with_defaults(params, defaults).contains_key(k) implies
            params.contains_key(k) || exists|j: int| 0 <= j < defaults.len() && defaults[j].0 == k by {
            if with_defaults(params, rest).contains_key(k) {
                if !params.contains_key(k) {
                    let j = choose|j: int| 0 <= j < rest.len() && rest[j].0 == k;
                    assert(defaults[j] == rest[j]);
                }
            } else {
                assert(defaults[defaults.len() - 1].0 == k);
            }
        }
    }
}

/// Filling in defaults a second time changes nothing.
pub proof fn law_defaults_idempotent(params: Map<Seq<char>, Seq<char>>, defaults: Seq<(Seq<char>, Seq<char>)>)
    ensures
        with_defaults(with_defaults(params, defaults), defaults) == with_defaults(params, defaults),
    decreases defaults.len(),
{
    if defaults.len() > 0 {
        let once = with_defaults(params, defaults);
        law_defaults_keep_user_values(params, defaults);
        law_defaults_keep_user_values(once, defaults);
        assert forall|k: Seq<char>| #[trigger] with_defaults(once, defaults).contains_key(k) <==> once.contains_key(k) by {
            if with_defaults(once, defaults).contains_key(k) && !once.contains_key(k) {
                let j = choose|j: int| 0 <= j < defaults.len() && defaults[j].0 == k;
                assert(once.contains_key(defaults[j].0));
            }
        }
        assert(with_defaults(once, defaults) =~= once);
    }
}

/// The parameter table of the strategies: Bollinger bands take a window of
/// 20 and 2.0 standard deviations, the ML strategy looks back 60 days, the
/// momentum strategy looks back 20 periods with a 0.02 threshold, and any
/// other strategy takes no parameters.
pub proof fn law_strategy_parameter_table(other: Seq<char>)
    requires
        other != "bollinger"@,
        other != "ml"@,
        other != "momentum"@,
    ensures
        param_defaults("bollinger"@) == seq![("window"@, "20"@), ("std_dev"@, "2.0"@)],
        param_defaults("ml"@) == seq![("lookback_days"@, "60"@)],
        param_defaults("momentum"@) == seq![("lookback_period"@, "20"@), ("momentum_threshold"@, "0.02"@)],
        param_defaults(other) == Seq::<(Seq<char>, Seq<char>)>::empty(),
{
    reveal_strlit("bollinger");
    reveal_strlit("ml");
    reveal_strlit("momentum");
    assert("ml"@ != "bollinger"@) by {
        assert("ml"@.len() != "bollinger"@.len());
    }
    assert("momentum"@ != "bollinger"@) by {
        assert("momentum"@.len() != "bollinger"@.len());
    }
    assert("momentum"@ != "ml"@) by {
        assert("momentum"@.len() != "ml"@.len());
    }
}

/// No two strategies share a parameter name, and no strategy lists a
/// parameter twice.
pub proof fn law_parameters_belong_to_one_strategy(s1: Seq<char>, s2: Seq<char>, i: int, j: int)
    requires
        0 <= i < param_defaults(s1).len(),
        0 <= j < param_defaults(s2).len(),
        s1 != s2 || i != j,
    ensures
        param_defaults(s1)[i].0 != param_defaults(s2)[j].0,
{
    reveal_strlit("bollinger");
    reveal_strlit("ml");
    reveal_strlit("momentum");
    reveal_strlit("window");
    reveal_strlit("std_dev");
    reveal_strlit("lookback_days");
    reveal_strlit("lookback_period");
    reveal_strlit("momentum_threshold");
    assert(seq!['x'].len() == 1);
    assert("ml"@.len() == 2);
    law_strategy_parameter_table(seq!['x']);
    // the five parameter names differ in length
    assert("window"@.len() == 6);
    assert("std_dev"@.len() == 7);
    assert("lookback_days"@.len() == 13);
    assert("lookback_period"@.len() == 15);
    assert("momentum_threshold"@.len() == 18);
}

} // verus!
