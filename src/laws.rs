//! Properties that hold of every input, stated over the models that the
//! functions' contracts use.
use crate::tokens::{html_tokens, is_token, lemma_tokens_from, non_space, run_count};
use crate::value::{decimal_u32, u32_or, ValueModel};
use vstd::prelude::*;

verus! {

/// The token list made from `t` gives back `t` as its text, unchanged.
pub proof fn token_list_text_round_trip(t: Seq<char>)
    ensures
        ValueModel::TokenList(t, html_tokens(t)).text() == t,
{
}

/// The token list made from `t` holds one token for each run of
/// non-whitespace characters in `t`, each token non-empty and free of
/// whitespace, and the tokens put together are the non-whitespace characters
/// of `t` in order.
pub proof fn token_list_tokens(t: Seq<char>)
    ensures
        ValueModel::TokenList(t, html_tokens(t)).tokens() == Some(html_tokens(t)),
        html_tokens(t).len() == run_count(t, true),
        forall|k: int| 0 <= k < html_tokens(t).len() ==> is_token(#[trigger] html_tokens(t)[k]),
        html_tokens(t).flatten() == non_space(t),
{
    lemma_tokens_from(t, seq![]);
    assert(Seq::<char>::empty() + non_space(t) =~= non_space(t));
}

/// The number made from `t` keeps `t` as its text; its value is what `t`
/// reads as in base 10 where it reads as a `u32`, and `default` elsewhere.
pub proof fn unsigned_text_and_value(t: Seq<char>, default: u32)
    ensures
        ValueModel::UInt(t, u32_or(t, default)).text() == t,
        decimal_u32(t) matches Some(v) ==> u32_or(t, default) == v,
        decimal_u32(t) is None ==> u32_or(t, default) == default,
{
}

} // verus!
