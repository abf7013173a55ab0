use vstd::prelude::*;

verus! {

/// A generic JSON-like value tree holding, as plain data, exactly the shapes
/// the decoder reads: strings, unsigned integers, ordered sequences and
/// key/value records.  Every other shape a text can carry (null, booleans,
/// negative or fractional numbers) is collapsed into `Other`, which no
/// decoding rule accepts, so nothing the decoder cares about is lost.
#[derive(Debug)]
pub enum JsonValue {
    /// A string.
    Str(String),
    /// An unsigned 64-bit integer.
    UInt(u64),
    /// An ordered, heterogeneous sequence.
    Arr(Vec<JsonValue>),
    /// A record of key/value pairs, in the order the tree was built with.
    Obj(Vec<(String, JsonValue)>),
    /// Any value of a shape the decoder never accepts.
    Other,
}

} // verus!
