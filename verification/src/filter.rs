use vstd::prelude::*;
use vstd::string::StringExecFns;
use crate::errors::{DecodeError, ErrorModel};
use crate::value::JsonValue;

verus! {

/// One set of optional matching constraints from a subscription request.  An
/// absent field means "no constraint on this axis"; a filter with every field
/// unset matches everything.
#[derive(Debug, Clone, PartialEq, Eq)]
pub struct ReqFilter {
    /// Event id constraint.
    pub id: Option<String>,
    /// Author constraint.
    pub author: Option<String>,
    /// Event kind constraint; the wire value must lie in 0..=255.
    pub kind: Option<u8>,
    /// Referenced event id (wire key `e#`).
    pub event: Option<String>,
    /// Referenced public key (wire key `p#`).
    pub pubkey: Option<String>,
    /// Epoch-seconds lower bound.
    pub since: Option<u64>,
    /// Set of author constraints.
    pub authors: Option<Vec<String>>,
}

/// Spec-level image of a filter, with strings as character sequences.
pub struct FilterModel {
    pub id: Option<Seq<char>>,
    pub author: Option<Seq<char>>,
    pub kind: Option<u8>,
    pub event: Option<Seq<char>>,
    pub pubkey: Option<Seq<char>>,
    pub since: Option<u64>,
    pub authors: Option<Seq<Seq<char>>>,
}

impl View for ReqFilter {
    type V = FilterModel;

    open spec fn view(&self) -> FilterModel {
        FilterModel {
            id: self.id.deep_view(),
            author: self.author.deep_view(),
            kind: self.kind,
            event: self.event.deep_view(),
            pubkey: self.pubkey.deep_view(),
            since: self.since,
            authors: self.authors.deep_view(),
        }
    }
}

impl DeepView for ReqFilter {
    type V = FilterModel;

    open spec fn deep_view(&self) -> FilterModel {
        self.view()
    }
}

/// The filter with every field unset.
pub open spec fn empty_filter_model() -> FilterModel {
    FilterModel {
        id: None,
        author: None,
        kind: None,
        event: None,
        pubkey: None,
        since: None,
        authors: None,
    }
}

/// The closed set of keys a filter object may carry.
pub open spec fn spec_known_key(k: Seq<char>) -> bool {
    ||| k == "id"@
    ||| k == "author"@
    ||| k == "kind"@
    ||| k == "e#"@
    ||| k == "p#"@
    ||| k == "since"@
    ||| k == "authors"@
}

/// What one key/value pair of a filter object does to the filter built so
/// far: it sets the named field, or rejects the object.
pub open spec fn spec_apply_field(f: FilterModel, k: Seq<char>, v: JsonValue) -> Result<
    FilterModel,
    ErrorModel,
> {
    if k == "id"@ {
        match v {
            JsonValue::Str(s) => Ok(FilterModel { id: Some(s@), ..f }),
            _ => Err(ErrorModel::InvalidFieldType(k)),
        }
    } else if k == "author"@ {
        match v {
            JsonValue::Str(s) => Ok(FilterModel { author: Some(s@), ..f }),
            _ => Err(ErrorModel::InvalidFieldType(k)),
        }
    } else if k == "kind"@ {
        match v {
            JsonValue::UInt(n) => if n <= 255 {
                Ok(FilterModel { kind: Some(n as u8), ..f })
            } else {
                Err(ErrorModel::InvalidFieldType(k))
            },
            _ => Err(ErrorModel::InvalidFieldType(k)),
        }
    } else if k == "e#"@ {
        match v {
            JsonValue::Str(s) => Ok(FilterModel { event: Some(s@), ..f }),
            _ => Err(ErrorModel::InvalidFieldType(k)),
        }
    } else if k == "p#"@ {
        match v {
            JsonValue::Str(s) => Ok(FilterModel { pubkey: Some(s@), ..f }),
            _ => Err(ErrorModel::InvalidFieldType(k)),
        }
    } else if k == "since"@ {
        match v {
            JsonValue::UInt(n) => Ok(FilterModel { since: Some(n), ..f }),
            _ => Err(ErrorModel::InvalidFieldType(k)),
        }
    } else if k == "authors"@ {
        match v {
            JsonValue::Arr(items) => if forall|i: int|
                0 <= i < items@.len() ==> items@[i] is Str {
                Ok(
                    FilterModel {
                        authors: Some(Seq::new(items@.len(), |i: int| items@[i]->Str_0@)),
                        ..f
                    },
                )
            } else {
                Err(ErrorModel::InvalidFieldType(k))
            },
            _ => Err(ErrorModel::InvalidFieldType(k)),
        }
    } else {
        Err(ErrorModel::UnknownField(k))
    }
}

/// Folds the pairs of a filter object, in order, over `spec_apply_field`,
/// starting from `f`; the first rejected pair rejects the whole object.
pub open spec fn spec_decode_fields(
    pairs: Seq<(String, JsonValue)>,
    f: FilterModel,
) -> Result<FilterModel, ErrorModel>
    decreases pairs.len(),
{
    if pairs.len() == 0 {
        Ok(f)
    } else {
        match spec_apply_field(f, pairs[0].0@, pairs[0].1) {
            Ok(f2) => spec_decode_fields(pairs.drop_first(), f2),
            Err(e) => Err(e),
        }
    }
}

/// What decoding one element of the envelope tail yields: a filter, where the
/// element is a record every pair of which the schema accepts, else the first
/// rejection.  An element that is not a record at all is rejected with an
/// empty key name.
pub open spec fn spec_decode_filter(v: JsonValue) -> Result<FilterModel, ErrorModel> {
    match v {
        JsonValue::Obj(pairs) => spec_decode_fields(pairs@, empty_filter_model()),
        _ => Err(ErrorModel::InvalidFieldType(Seq::empty())),
    }
}

impl ReqFilter {
    /// The filter with every field unset.
    pub fn empty() -> (r: ReqFilter)
        ensures
            r@ == empty_filter_model(),
    {
        ReqFilter {
            id: None,
            author: None,
            kind: None,
            event: None,
            pubkey: None,
            since: None,
            authors: None,
        }
    }

    /// Sets the field named `k` of `f` to `v`, or rejects: an unrecognized
    /// key with `UnknownField`, a recognized key whose value has the wrong
    /// shape with `InvalidFieldType`.
    #[verifier::loop_isolation(false)]
    fn apply_field(f: ReqFilter, k: &String, v: &JsonValue) -> (r: Result<ReqFilter, DecodeError>)
        ensures
            (match r {
                Ok(f2) => spec_apply_field(f@, k@, *v) == Ok::<FilterModel, ErrorModel>(f2@),
                Err(e) => spec_apply_field(f@, k@, *v) == Err::<FilterModel, ErrorModel>(e@),
            }),
    {
        if *k == String::from_str("id") {
            match v {
                JsonValue::Str(s) => Ok(ReqFilter { id: Some(s.clone()), ..f }),
                _ => Err(DecodeError::InvalidFieldType(k.clone())),
            }
        } else if *k == String::from_str("author") {
            match v {
                JsonValue::Str(s) => Ok(ReqFilter { author: Some(s.clone()), ..f }),
                _ => Err(DecodeError::InvalidFieldType(k.clone())),
            }
        } else if *k == String::from_str("kind") {
            match v {
                JsonValue::UInt(n) => if *n <= 255 {
                    Ok(ReqFilter { kind: Some(*n as u8), ..f })
                } else {
                    Err(DecodeError::InvalidFieldType(k.clone()))
                },
                _ => Err(DecodeError::InvalidFieldType(k.clone())),
            }
        } else if *k == String::from_str("e#") {
            match v {
                JsonValue::Str(s) => Ok(ReqFilter { event: Some(s.clone()), ..f }),
                _ => Err(DecodeError::InvalidFieldType(k.clone())),
            }
        } else if *k == String::from_str("p#") {
            match v {
                JsonValue::Str(s) => Ok(ReqFilter { pubkey: Some(s.clone()), ..f }),
                _ => Err(DecodeError::InvalidFieldType(k.clone())),
            }
        } else if *k == String::from_str("since") {
            match v {
                JsonValue::UInt(n) => Ok(ReqFilter { since: Some(*n), ..f }),
                _ => Err(DecodeError::InvalidFieldType(k.clone())),
            }
        } else if *k == String::from_str("authors") {
            match v {
                JsonValue::Arr(items) => {
                    let mut out: Vec<String> = Vec::new();
                    let m = items.len();
                    let mut j: usize = 0;
                    while j < m
                        invariant
                            j <= m,
                            m == items@.len(),
                            out@.len() == j,
                            forall|t: int| 0 <= t < j ==> items@[t] is Str,
                            forall|t: int| 0 <= t < j ==> out@[t]@ == items@[t]->Str_0@,
                        decreases m - j,
                    {
                        match &items[j] {
                            JsonValue::Str(s) => out.push(s.clone()),
                            _ => {
                                proof {
                                    assert(!(items@[j as int] is Str));
                                    assert(!(forall|i: int|
                                        0 <= i < items@.len() ==> items@[i] is Str));
                                }
                                return Err(DecodeError::InvalidFieldType(k.clone()));
                            },
                        }
                        j += 1;
                    }
                    proof {
                        assert(out.deep_view() =~~= Seq::new(
                            items@.len(),
                            |i: int| items@[i]->Str_0@,
                        ));
                    }
                    Ok(ReqFilter { authors: Some(out), ..f })
                },
                _ => Err(DecodeError::InvalidFieldType(k.clone())),
            }
        } else {
            Err(DecodeError::UnknownField(k.clone()))
        }
    }

    /// Filter Schema Validator: decodes one element of the envelope tail into
    /// a filter, under the closed schema, or rejects it with the first
    /// violation.
    #[verifier::loop_isolation(false)]
    pub fn decode(v: &JsonValue) -> (r: Result<ReqFilter, DecodeError>)
        ensures
            (match r {
                Ok(f) => spec_decode_filter(*v) == Ok::<FilterModel, ErrorModel>(f@),
                Err(e) => spec_decode_filter(*v) == Err::<FilterModel, ErrorModel>(e@),
            }),
    {
        match v {
            JsonValue::Obj(pairs) => {
                let mut f = ReqFilter::empty();
                let n = pairs.len();
                let mut i: usize = 0;
                proof {
                    assert(pairs@.skip(0) =~= pairs@);
                }
                while i < n
                    invariant
                        i <= n,
                        n == pairs@.len(),
                        spec_decode_fields(pairs@.skip(i as int), f@) == spec_decode_fields(
                            pairs@,
                            empty_filter_model(),
                        ),
                    decreases n - i,
                {
                    proof {
                        assert(pairs@.skip(i as int)[0] == pairs@[i as int]);
                        assert(pairs@.skip(i as int).drop_first() =~= pairs@.skip(i as int + 1));
                    }
                    let (k, val) = &pairs[i];
                    match Self::apply_field(f, k, val) {
                        Ok(f2) => {
                            proof {
                                assert(spec_decode_fields(pairs@.skip(i as int), f@)
                                    == spec_decode_fields(pairs@.skip(i as int + 1), f2@));
                            }
                            f = f2;
                        },
                        Err(e) => {
                            proof {
                                assert(spec_decode_fields(pairs@.skip(i as int), f@)
                                    == Err::<FilterModel, ErrorModel>(e@));
                            }
                            return Err(e);
                        },
                    }
                    i += 1;
                }
                proof {
                    assert(pairs@.skip(n as int) =~= Seq::<(String, JsonValue)>::empty());
                }
                Ok(f)
            },
            _ => Err(DecodeError::InvalidFieldType(String::new())),
        }
    }
}

} // verus!
