use vstd::prelude::*;
use vstd::string::StringExecFns;
use crate::errors::{DecodeError, ErrorModel};
use crate::filter::{FilterModel, ReqFilter, spec_decode_filter};
use crate::json::{json_from_str, spec_json_of};
use crate::value::JsonValue;

verus! {

/// The command tokens of a raw request, kept verbatim.
#[derive(Debug, Clone, PartialEq, Eq)]
pub struct ReqCmd {
    /// The tokens, in the order they arrived.
    pub cmds: Vec<String>,
}

/// A decoded subscription request: an identifier and at least one filter, in
/// the order the filter objects appeared.  Immutable once constructed.
#[derive(Debug, PartialEq, Eq)]
pub struct Subscription {
    id: String,
    filters: Vec<ReqFilter>,
}

/// Spec-level image of a subscription.
pub struct SubscriptionModel {
    pub id: Seq<char>,
    pub filters: Seq<FilterModel>,
}

/// The filters of `fs`, each as its spec-level image.
pub open spec fn filters_view(fs: Seq<ReqFilter>) -> Seq<FilterModel> {
    Seq::new(fs.len(), |i: int| fs[i]@)
}

impl View for Subscription {
    type V = SubscriptionModel;

    closed spec fn view(&self) -> SubscriptionModel {
        SubscriptionModel { id: self.id@, filters: filters_view(self.filters@) }
    }
}

/// Decodes the tail of the envelope: every element must be a valid filter
/// object, in order; the first rejected element rejects them all.
pub open spec fn spec_decode_filters(elems: Seq<JsonValue>) -> Result<Seq<FilterModel>, ErrorModel>
    decreases elems.len(),
{
    if elems.len() == 0 {
        Ok(Seq::empty())
    } else {
        match spec_decode_filter(elems[0]) {
            Ok(f) => match spec_decode_filters(elems.drop_first()) {
                Ok(rest) => Ok(seq![f] + rest),
                Err(e) => Err(e),
            },
            Err(e) => Err(e),
        }
    }
}

/// Decodes the elements of the envelope sequence: at least three elements,
/// the command literal, the subscription identifier, then one filter object
/// per remaining element.
pub open spec fn spec_decode_elems(elems: Seq<JsonValue>) -> Result<SubscriptionModel, ErrorModel> {
    if elems.len() < 3 {
        Err(ErrorModel::TooFewElements)
    } else {
        match elems[0] {
            JsonValue::Str(cmd) => if cmd@ == "REQ"@ {
                match elems[1] {
                    JsonValue::Str(sid) => match spec_decode_filters(elems.skip(2)) {
                        Ok(fs) => Ok(SubscriptionModel { id: sid@, filters: fs }),
                        Err(e) => Err(e),
                    },
                    _ => Err(ErrorModel::MissingSubscriptionId),
                }
            } else {
                Err(ErrorModel::UnexpectedCommand)
            },
            _ => Err(ErrorModel::NotAString),
        }
    }
}

/// Envelope Decoder on a value tree: the root must be a sequence, and its
/// elements must satisfy `spec_decode_elems`.
pub open spec fn spec_decode(v: JsonValue) -> Result<SubscriptionModel, ErrorModel> {
    match v {
        JsonValue::Arr(elems) => spec_decode_elems(elems@),
        _ => Err(ErrorModel::NotASequence),
    }
}

/// What parsing a text yields: the decode of its JSON value tree, or
/// `MalformedInput` where the text is not well-formed JSON.
pub open spec fn spec_parse(text: Seq<char>) -> Result<SubscriptionModel, ErrorModel> {
    match spec_json_of(text) {
        Some(v) => spec_decode(v),
        None => Err(ErrorModel::MalformedInput),
    }
}

impl Subscription {
    /// At least one filter, always: a request with zero filter elements is
    /// rejected, so no subscription ever holds an empty filter list.
    #[verifier::type_invariant]
    spec fn wf(self) -> bool {
        self.filters@.len() >= 1
    }

    /// The subscription identifier, verbatim from the request.
    pub fn get_id(&self) -> (r: String)
        ensures
            r@ == self@.id,
    {
        self.id.clone()
    }

    /// The filters, read-only, in the order they appeared in the request.
    pub fn filters(&self) -> (r: &Vec<ReqFilter>)
        ensures
            filters_view(r@) == self@.filters,
            r@.len() >= 1,
    {
        proof {
            use_type_invariant(self);
        }
        &self.filters
    }

    /// Decodes a raw request text: parses it as JSON, then validates the
    /// value tree as a subscription request.  All-or-nothing: the first
    /// violation rejects the whole text.
    pub fn parse(json: &str) -> (r: Result<Subscription, DecodeError>)
        ensures
            (match r {
                Ok(s) => spec_parse(json@) == Ok::<SubscriptionModel, ErrorModel>(s@),
                Err(e) => spec_parse(json@) == Err::<SubscriptionModel, ErrorModel>(e@),
            }),
    {
        match json_from_str(json) {
            Some(v) => Subscription::from_value(&v),
            None => Err(DecodeError::MalformedInput),
        }
    }

    /// Envelope Decoder: validates a generic value tree as a subscription
    /// request and assembles the result, or rejects the whole tree with the
    /// first violation.
    #[verifier::loop_isolation(false)]
    pub fn from_value(v: &JsonValue) -> (r: Result<Subscription, DecodeError>)
        ensures
            (match r {
                Ok(s) => spec_decode(*v) == Ok::<SubscriptionModel, ErrorModel>(s@),
                Err(e) => spec_decode(*v) == Err::<SubscriptionModel, ErrorModel>(e@),
            }),
    {
        match v {
            JsonValue::Arr(elems) => {
                let n = elems.len();
                if n < 3 {
                    return Err(DecodeError::TooFewElements);
                }
                match &elems[0] {
                    JsonValue::Str(cmd) => {
                        if !(*cmd == String::from_str("REQ")) {
                            return Err(DecodeError::UnexpectedCommand);
                        }
                    },
                    _ => {
                        return Err(DecodeError::NotAString);
                    },
                }
                let sid: String = match &elems[1] {
                    JsonValue::Str(s) => s.clone(),
                    _ => {
                        return Err(DecodeError::MissingSubscriptionId);
                    },
                };
                let mut filters: Vec<ReqFilter> = Vec::new();
                let mut i: usize = 2;
                proof {
                    assert(filters_view(filters@) =~= Seq::<FilterModel>::empty());
                    assert forall|rest: Seq<FilterModel>|
                        true implies Seq::<FilterModel>::empty() + rest == rest by {
                        assert(Seq::<FilterModel>::empty() + rest =~= rest);
                    }
                }
                while i < n
                    invariant
                        2 <= i <= n,
                        filters@.len() == i - 2,
                        (match spec_decode_filters(elems@.skip(i as int)) {
                            Ok(rest) => spec_decode_filters(elems@.skip(2)) == Ok::<
                                Seq<FilterModel>,
                                ErrorModel,
                            >(filters_view(filters@) + rest),
                            Err(e) => spec_decode_filters(elems@.skip(2)) == Err::<
                                Seq<FilterModel>,
                                ErrorModel,
                            >(e),
                        }),
                    decreases n - i,
                {
                    proof {
                        assert(elems@.skip(i as int)[0] == elems@[i as int]);
                        assert(elems@.skip(i as int).drop_first() =~= elems@.skip(i as int + 1));
                    }
                    match ReqFilter::decode(&elems[i]) {
                        Ok(f) => {
                            let ghost prev = filters@;
                            filters.push(f);
                            proof {
                                assert(filters_view(filters@) =~= filters_view(prev) + seq![f@]);
                                assert forall|rest: Seq<FilterModel>|
                                    true implies filters_view(prev) + (seq![f@] + rest)
                                    == (filters_view(prev) + seq![f@]) + rest by {
                                    assert(filters_view(prev) + (seq![f@] + rest) =~= (filters_view(
                                        prev,
                                    ) + seq![f@]) + rest);
                                }
                            }
                        },
                        Err(e) => {
                            return Err(e);
                        },
                    }
                    i += 1;
                }
                proof {
                    assert(elems@.skip(n as int) =~= Seq::<JsonValue>::empty());
                    assert(filters_view(filters@) + Seq::<FilterModel>::empty() =~= filters_view(
                        filters@,
                    ));
                }
                Ok(Subscription { id: sid, filters })
            },
            _ => Err(DecodeError::NotASequence),
        }
    }
}

} // verus!
