use vstd::prelude::*;
use crate::envelope::{SubscriptionModel, spec_decode_elems, spec_decode_filters, spec_parse};
use crate::errors::ErrorModel;
use crate::filter::{
    FilterModel, empty_filter_model, spec_apply_field, spec_decode_fields, spec_decode_filter,
    spec_known_key,
};
use crate::value::JsonValue;

verus! {

/// A successful tail decode yields exactly one filter per element.
pub proof fn lemma_filters_len(elems: Seq<JsonValue>)
    ensures
        spec_decode_filters(elems) matches Ok(fs) ==> fs.len() == elems.len(),
    decreases elems.len(),
{
    if elems.len() > 0 {
        lemma_filters_len(elems.drop_first());
    }
}

/// For any well-formed envelope, the decoded identifier is the second
/// element verbatim, and there is exactly one filter per remaining element.
pub proof fn lemma_id_and_count(elems: Seq<JsonValue>, m: SubscriptionModel)
    requires
        spec_decode_elems(elems) == Ok::<SubscriptionModel, ErrorModel>(m),
    ensures
        elems.len() >= 3,
        elems[1] is Str,
        m.id == elems[1]->Str_0@,
        m.filters.len() == elems.len() - 2,
{
    lemma_filters_len(elems.skip(2));
}

/// A successful tail decode is pointwise: the filter at `j` is the decode of
/// the element at `j`.
pub proof fn lemma_filters_pointwise(elems: Seq<JsonValue>, fs: Seq<FilterModel>, j: int)
    requires
        spec_decode_filters(elems) == Ok::<Seq<FilterModel>, ErrorModel>(fs),
        0 <= j < elems.len(),
    ensures
        spec_decode_filter(elems[j]) == Ok::<FilterModel, ErrorModel>(fs[j]),
    decreases j,
{
    let f = spec_decode_filter(elems[0])->Ok_0;
    let rest = spec_decode_filters(elems.drop_first())->Ok_0;
    assert(fs == seq![f] + rest);
    if j == 0 {
        assert(fs[0] == f);
    } else {
        lemma_filters_len(elems.drop_first());
        lemma_filters_pointwise(elems.drop_first(), rest, j - 1);
        assert(elems.drop_first()[j - 1] == elems[j]);
        assert(fs[j] == rest[j - 1]);
    }
}

/// Filter order is preserved: the Nth filter object of the envelope decodes
/// exactly to the Nth filter of the subscription.
pub proof fn lemma_order_preserved(elems: Seq<JsonValue>, m: SubscriptionModel, n: int)
    requires
        spec_decode_elems(elems) == Ok::<SubscriptionModel, ErrorModel>(m),
        0 <= n < m.filters.len(),
    ensures
        n + 2 < elems.len(),
        spec_decode_filter(elems[n + 2]) == Ok::<FilterModel, ErrorModel>(m.filters[n]),
{
    lemma_filters_len(elems.skip(2));
    lemma_filters_pointwise(elems.skip(2), m.filters, n);
    assert(elems.skip(2)[n] == elems[n + 2]);
}

/// An empty filter object decodes to the filter with every field unset.
pub proof fn lemma_empty_object(v: JsonValue)
    requires
        v matches JsonValue::Obj(pairs) && pairs@.len() == 0,
    ensures
        spec_decode_filter(v) == Ok::<FilterModel, ErrorModel>(empty_filter_model()),
{
}

/// A filter object one of whose keys is outside the schema is rejected,
/// whatever else it holds.
pub proof fn lemma_unknown_key_fields(pairs: Seq<(String, JsonValue)>, f: FilterModel, j: int)
    requires
        0 <= j < pairs.len(),
        !spec_known_key(pairs[j].0@),
    ensures
        spec_decode_fields(pairs, f) is Err,
    decreases pairs.len(),
{
    if j > 0 {
        match spec_apply_field(f, pairs[0].0@, pairs[0].1) {
            Ok(f2) => {
                assert(pairs.drop_first()[j - 1] == pairs[j]);
                lemma_unknown_key_fields(pairs.drop_first(), f2, j - 1);
            },
            Err(_) => {},
        }
    }
}

/// A rejected element anywhere in the tail rejects the whole tail.
pub proof fn lemma_bad_filter_rejects(elems: Seq<JsonValue>, j: int)
    requires
        0 <= j < elems.len(),
        spec_decode_filter(elems[j]) is Err,
    ensures
        spec_decode_filters(elems) is Err,
    decreases elems.len(),
{
    if j > 0 && spec_decode_filter(elems[0]) is Ok {
        assert(elems.drop_first()[j - 1] == elems[j]);
        lemma_bad_filter_rejects(elems.drop_first(), j - 1);
    }
}

/// Any unknown key in any filter object rejects the whole envelope, no
/// matter how many earlier filters were valid.
pub proof fn lemma_unknown_field_rejects(elems: Seq<JsonValue>, n: int, j: int)
    requires
        2 <= n < elems.len(),
        elems[n] matches JsonValue::Obj(pairs) && 0 <= j < pairs@.len() && !spec_known_key(
            pairs@[j].0@,
        ),
    ensures
        spec_decode_elems(elems) is Err,
{
    lemma_unknown_key_fields(elems[n]->Obj_0@, empty_filter_model(), j);
    assert(elems.skip(2)[n - 2] == elems[n]);
    lemma_bad_filter_rejects(elems.skip(2), n - 2);
}

/// A sequence of fewer than three elements always fails.
pub proof fn lemma_too_few(elems: Seq<JsonValue>)
    requires
        elems.len() < 3,
    ensures
        spec_decode_elems(elems) == Err::<SubscriptionModel, ErrorModel>(ErrorModel::TooFewElements),
{
}

/// A first element other than exactly the string `REQ` always fails: on a
/// long enough sequence, a string yields `UnexpectedCommand` and a non-string
/// `NotAString`; a shorter one already fails on its length.
pub proof fn lemma_wrong_command(elems: Seq<JsonValue>)
    requires
        elems.len() >= 1,
        !(elems[0] matches JsonValue::Str(c) && c@ == "REQ"@),
    ensures
        spec_decode_elems(elems) is Err,
        elems.len() >= 3 && elems[0] is Str ==> spec_decode_elems(elems) == Err::<
            SubscriptionModel,
            ErrorModel,
        >(ErrorModel::UnexpectedCommand),
        elems.len() >= 3 && !(elems[0] is Str) ==> spec_decode_elems(elems) == Err::<
            SubscriptionModel,
            ErrorModel,
        >(ErrorModel::NotAString),
{
}

/// Decoding is referentially transparent: one text, one outcome.
pub proof fn lemma_parse_deterministic(t1: Seq<char>, t2: Seq<char>)
    requires
        t1 == t2,
    ensures
        spec_parse(t1) == spec_parse(t2),
{
}

} // verus!
