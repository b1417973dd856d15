//! What comes back from the outside: the provider's answer to an update, or
//! the failure of a call.

use vstd::prelude::*;
use crate::text::texts_of;

verus! {

/// One error the provider reports.
#[derive(Clone, Debug)]
pub struct ApiError {
    /// The provider's description of the error.
    pub message: String,
}

impl View for ApiError {
    type V = Seq<char>;

    open spec fn view(&self) -> Seq<char> {
        self.message@
    }
}

/// The record as the provider stored it.
#[derive(Clone, Debug)]
pub struct DnsRecordResult {
    /// The DNS name of the record.
    pub name: String,
    /// The address the record points at.
    pub content: String,
}

/// A [`DnsRecordResult`] as plain text values.
pub struct DnsRecordResultView {
    pub name: Seq<char>,
    pub content: Seq<char>,
}

impl View for DnsRecordResult {
    type V = DnsRecordResultView;

    open spec fn view(&self) -> DnsRecordResultView {
        DnsRecordResultView { name: self.name@, content: self.content@ }
    }
}

/// The provider's answer to an update, decoded.
#[derive(Clone, Debug)]
pub struct ApiResponse {
    /// Whether the provider stored the record.
    pub success: bool,
    /// The errors the provider reports, in its order.
    pub errors: Vec<ApiError>,
    /// The stored record, where the provider sent it.
    pub result: Option<DnsRecordResult>,
}

/// An [`ApiResponse`] as plain values; each error is its message.
pub struct ApiResponseView {
    pub success: bool,
    pub errors: Seq<Seq<char>>,
    pub result: Option<DnsRecordResultView>,
}

impl View for ApiResponse {
    type V = ApiResponseView;

    open spec fn view(&self) -> ApiResponseView {
        ApiResponseView {
            success: self.success,
            errors: Seq::new(self.errors@.len(), |i: int| self.errors@[i]@),
            result: match self.result {
                Some(record) => Some(record@),
                None => None,
            },
        }
    }
}

impl ApiResponse {
    /// The messages of the reported errors, in the provider's order.
    pub fn error_messages(&self) -> (messages: Vec<String>)
        ensures
            texts_of(messages@) == self@.errors,
    {
        let mut messages: Vec<String> = Vec::new();
        let mut i: usize = 0;
        while i < self.errors.len()
            invariant
                i <= self.errors@.len(),
                messages@.len() == i,
                forall|j: int| 0 <= j < i ==> (#[trigger] messages@[j])@ == self.errors@[j]@,
            decreases self.errors@.len() - i,
        {
            messages.push(self.errors[i].message.clone());
            i = i + 1;
        }
        assert(texts_of(messages@) =~= self@.errors);
        messages
    }
}

/// How a call to the outside failed.
#[derive(Clone, Copy, Debug, PartialEq, Eq, Structural)]
pub enum FailureKind {
    /// The request did not get through, or no answer came back.
    Transport,
    /// An answer came back and could not be decoded.
    Decode,
}

/// A failed call: its kind and the text that describes it.
#[derive(Clone, Debug)]
pub struct Failure {
    /// How the call failed.
    pub kind: FailureKind,
    /// The description of the failure, for the log.
    pub detail: String,
}

/// A [`Failure`] as plain values.
pub struct FailureView {
    pub kind: FailureKind,
    pub detail: Seq<char>,
}

impl View for Failure {
    type V = FailureView;

    open spec fn view(&self) -> FailureView {
        FailureView { kind: self.kind, detail: self.detail@ }
    }
}

} // verus!
