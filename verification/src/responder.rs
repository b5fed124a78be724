//! The request responder: which representation a conversion request gets,
//! and what is written where.

use crate::atoms::{listing, AtomTable, WellKnown};
use crate::protocol::{
    Atom, ConversionRequest, PropertyData, PropertyValue, Request, RequestModel, NONE,
    PROP_MODE_REPLACE,
};
use vstd::prelude::*;
use vstd::slice::slice_to_vec;

verus! {

/// What a target asks for, as the responder sees it.
#[derive(Clone, Copy, Debug, PartialEq, Eq, Structural)]
pub enum Conversion {
    /// The list of the targets that the responder knows.
    TargetList,
    /// Several conversions at once.
    Multiple,
    /// The text itself.
    Text,
    /// Nothing that the responder offers.
    Unsupported,
}

/// The form in which an answer was written.
#[derive(Clone, Copy, Debug, PartialEq, Eq, Structural)]
pub enum Representation {
    /// A list of atoms, 32 bits each.
    AtomList,
    /// The text as bytes, 8 bits each.
    Text,
}

/// How a conversion request ended.
#[derive(Clone, Copy, Debug, PartialEq, Eq, Structural)]
pub enum ConversionResult {
    /// The destination property now holds the answer in this form.
    Written(Representation),
    /// The destination property was left as it was.
    Declined,
}

/// What `target` asks for. The first match decides: `TARGETS`, then
/// `MULTIPLE`, then the three names of UTF-8 text.
pub open spec fn conversion_for(table: Map<WellKnown, Atom>, target: Atom) -> Conversion {
    if table.contains_pair(WellKnown::Targets, target) {
        Conversion::TargetList
    } else if table.contains_pair(WellKnown::Multiple, target) {
        Conversion::Multiple
    } else if table.contains_pair(WellKnown::Utf8String, target) || table.contains_pair(
        WellKnown::TextPlainUtf8,
        target,
    ) || table.contains_pair(WellKnown::GtkTextBufferContents, target) {
        Conversion::Text
    } else {
        Conversion::Unsupported
    }
}

/// What an [`Answer`] holds.
pub struct AnswerModel {
    pub result: ConversionResult,
    pub request: Option<RequestModel>,
}

/// The answer to `request` of a responder with the atoms of `table` and the
/// text `payload`.
///
/// A request without a destination property is declined and nothing is sent
/// for it. A request for `TARGETS` gets every atom of the table, a request
/// for text gets the payload as it is; both replace the destination property
/// and give it the type that was asked for. A request for `MULTIPLE` has its
/// destination property read and is declined. Any other request is declined
/// and nothing is sent for it.
pub open spec fn answer_for(
    table: Map<WellKnown, Atom>,
    payload: Seq<u8>,
    request: ConversionRequest,
) -> AnswerModel {
    if request.property == NONE {
        AnswerModel { result: ConversionResult::Declined, request: None }
    } else {
        match conversion_for(table, request.target) {
            Conversion::TargetList => AnswerModel {
                result: ConversionResult::Written(Representation::AtomList),
                request: Some(
                    RequestModel::ChangeProperty {
                        mode: PROP_MODE_REPLACE,
                        window: request.requestor,
                        property: request.property,
                        kind: request.target,
                        value: PropertyData::Atoms(listing(table)),
                    },
                ),
            },
            Conversion::Multiple => AnswerModel {
                result: ConversionResult::Declined,
                request: Some(
                    RequestModel::GetProperty {
                        delete: false,
                        window: request.requestor,
                        property: request.property,
                        kind: request.target,
                        long_offset: 0,
                        long_length: u32::MAX,
                    },
                ),
            },
            Conversion::Text => AnswerModel {
                result: ConversionResult::Written(Representation::Text),
                request: Some(
                    RequestModel::ChangeProperty {
                        mode: PROP_MODE_REPLACE,
                        window: request.requestor,
                        property: request.property,
                        kind: request.target,
                        value: PropertyData::Bytes(payload),
                    },
                ),
            },
            Conversion::Unsupported => AnswerModel {
                result: ConversionResult::Declined,
                request: None,
            },
        }
    }
}

/// The responder's answer to one conversion request.
#[derive(Debug)]
pub struct Answer {
    /// How the request ended.
    pub result: ConversionResult,
    /// The request to the server that carries the answer out, if there is
    /// one. It goes out before the requestor is notified.
    pub request: Option<Request>,
}

impl View for Answer {
    type V = AnswerModel;

    open spec fn view(&self) -> AnswerModel {
        AnswerModel {
            result: self.result,
            request: match self.request {
                Some(request) => Some(request@),
                None => None,
            },
        }
    }
}

/// Says what `target` asks for.
pub fn classify(atoms: &AtomTable, target: Atom) -> (conversion: Conversion)
    ensures
        conversion == conversion_for(atoms@, target),
{
    let asked = Some(target);
    if atoms.lookup(WellKnown::Targets) == asked {
        Conversion::TargetList
    } else if atoms.lookup(WellKnown::Multiple) == asked {
        Conversion::Multiple
    } else if atoms.lookup(WellKnown::Utf8String) == asked || atoms.lookup(WellKnown::TextPlainUtf8)
        == asked || atoms.lookup(WellKnown::GtkTextBufferContents) == asked {
        Conversion::Text
    } else {
        Conversion::Unsupported
    }
}

/// Answers one conversion request for the text `payload`.
pub fn respond(atoms: &AtomTable, payload: &[u8], request: &ConversionRequest) -> (answer: Answer)
    ensures
        answer@ == answer_for(atoms@, payload@, *request),
{
    if request.property == NONE {
        return Answer { result: ConversionResult::Declined, request: None };
    }
    match classify(atoms, request.target) {
        Conversion::TargetList => Answer {
            result: ConversionResult::Written(Representation::AtomList),
            request: Some(
                Request::ChangeProperty {
                    mode: PROP_MODE_REPLACE,
                    window: request.requestor,
                    property: request.property,
                    kind: request.target,
                    value: PropertyValue::Atoms(atoms.all()),
                },
            ),
        },
        Conversion::Multiple => Answer {
            result: ConversionResult::Declined,
            request: Some(
                Request::GetProperty {
                    delete: false,
                    window: request.requestor,
                    property: request.property,
                    kind: request.target,
                    long_offset: 0,
                    long_length: u32::MAX,
                },
            ),
        },
        Conversion::Text => Answer {
            result: ConversionResult::Written(Representation::Text),
            request: Some(
                Request::ChangeProperty {
                    mode: PROP_MODE_REPLACE,
                    window: request.requestor,
                    property: request.property,
                    kind: request.target,
                    value: PropertyValue::Bytes(slice_to_vec(payload)),
                },
            ),
        },
        Conversion::Unsupported => Answer { result: ConversionResult::Declined, request: None },
    }
}

/// One entry of the list that a `MULTIPLE` request leaves in its destination
/// property: a target and the property that takes its conversion.
#[derive(Clone, Copy, Debug, PartialEq, Eq, Structural)]
pub struct AtomPair {
    pub target: Atom,
    pub property: Atom,
}

/// The pairs that `value` holds: two atoms each, in order. An atom left over
/// at the end belongs to no pair.
pub open spec fn pairs_of(value: Seq<Atom>) -> Seq<AtomPair> {
    Seq::new(
        (value.len() / 2) as nat,
        |i: int| AtomPair { target: value[2 * i], property: value[2 * i + 1] },
    )
}

/// Reads the value of a `MULTIPLE` request's destination property as a list
/// of pairs.
pub fn atom_pairs(value: &[Atom]) -> (pairs: Vec<AtomPair>)
    ensures
        pairs@ == pairs_of(value@),
{
    let mut pairs: Vec<AtomPair> = Vec::new();
    let mut i: usize = 0;
    while i + 1 < value.len()
        invariant
            i % 2 == 0,
            i <= value.len(),
            pairs@.len() == i / 2,
            forall|k: int|
                0 <= k < pairs@.len() ==> pairs@[k] == (AtomPair {
                    target: value@[2 * k],
                    property: value@[2 * k + 1],
                }),
        decreases value.len() - i,
    {
        pairs.push(AtomPair { target: value[i], property: value[i + 1] });
        i += 2;
    }
    pairs
}

} // verus!
