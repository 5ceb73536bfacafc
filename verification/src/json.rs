//! JSON arguments: text that the operator typed and that was accepted as JSON.

use vstd::prelude::*;

verus! {

/// Whether `text` is one JSON document, as `serde_json` reads it.
pub uninterp spec fn json_valid(text: Seq<char>) -> bool;

/// `serde_json::from_str`, asked for a `serde_json::Value`: whether it accepts
/// `text`. The answer depends on the text alone; nothing else is claimed of it.
#[verifier::external_body]
fn accepted_by_serde(text: &str) -> (ok: bool)
    ensures
        ok == json_valid(text@),
{
    serde_json::from_str::<serde_json::Value>(text).is_ok()
}

/// A JSON document, kept as the text it was read from.
#[derive(PartialEq, Eq, Debug)]
pub struct JsonText {
    text: String,
}

impl View for JsonText {
    type V = Seq<char>;

    closed spec fn view(&self) -> Seq<char> {
        self.text@
    }
}

impl JsonText {
    #[verifier::type_invariant]
    spec fn valid(self) -> bool {
        json_valid(self.text@)
    }

    /// Reads `text` as JSON: `Some` exactly when it is one JSON document, and
    /// then the document is `text` itself.
    pub fn parse(text: &str) -> (r: Option<JsonText>)
        ensures
            r is Some <==> json_valid(text@),
            r matches Some(json) ==> json@ == text@,
    {
        if accepted_by_serde(text) {
            Some(JsonText { text: text.to_owned() })
        } else {
            None
        }
    }

    /// The document's text.
    pub fn as_str(&self) -> (r: &str)
        ensures
            r@ == self@,
            json_valid(r@),
    {
        proof {
            use_type_invariant(self);
        }
        self.text.as_str()
    }

    /// Gives the document's text away.
    pub fn into_string(self) -> (r: String)
        ensures
            r@ == self@,
            json_valid(r@),
    {
        proof {
            use_type_invariant(&self);
        }
        self.text
    }
}

} // verus!
