//! The lines the updater logs.

use vstd::prelude::*;
use crate::text::{join, joined, texts_of};
use crate::response::{ApiResponse, ApiResponseView, Failure, FailureView};

verus! {

/// Something worth a line in the log.
#[derive(Clone, Debug)]
pub enum Notice {
    /// The resolved address differs from the last known one.
    AddressChanged { from: String, to: String },
    /// The resolved address is the last known one.
    AddressUnchanged { address: String },
    /// The address could not be resolved.
    ResolveFailed(Failure),
    /// The update did not reach the provider, or its answer could not be read.
    UpdateFailed(Failure),
    /// The provider stored the record and sent it back.
    RecordUpdated { name: String, content: String },
    /// The provider refused the update, for the reasons listed.
    UpdateRejected { errors: Vec<String> },
}

/// A [`Notice`] as plain values.
pub enum NoticeView {
    AddressChanged { from: Seq<char>, to: Seq<char> },
    AddressUnchanged { address: Seq<char> },
    ResolveFailed(FailureView),
    UpdateFailed(FailureView),
    RecordUpdated { name: Seq<char>, content: Seq<char> },
    UpdateRejected { errors: Seq<Seq<char>> },
}

impl View for Notice {
    type V = NoticeView;

    open spec fn view(&self) -> NoticeView {
        match self {
            Notice::AddressChanged { from, to } => NoticeView::AddressChanged {
                from: from@,
                to: to@,
            },
            Notice::AddressUnchanged { address } => NoticeView::AddressUnchanged {
                address: address@,
            },
            Notice::ResolveFailed(failure) => NoticeView::ResolveFailed(failure@),
            Notice::UpdateFailed(failure) => NoticeView::UpdateFailed(failure@),
            Notice::RecordUpdated { name, content } => NoticeView::RecordUpdated {
                name: name@,
                content: content@,
            },
            Notice::UpdateRejected { errors } => NoticeView::UpdateRejected {
                errors: texts_of(errors@),
            },
        }
    }
}

impl NoticeView {
    /// The text of the log line.
    pub open spec fn message_text(self) -> Seq<char> {
        match self {
            NoticeView::AddressChanged { from, to } => "IP change detected: "@ + from + " -> "@
                + to,
            NoticeView::AddressUnchanged { address } => "IP has not changed. Current IP: "@
                + address,
            NoticeView::ResolveFailed(failure) => "Error fetching external IP: "@
                + failure.detail,
            NoticeView::UpdateFailed(failure) => "Error updating DNS record: "@ + failure.detail,
            NoticeView::RecordUpdated { name, content } => "DNS record updated successfully: "@
                + name + " -> "@ + content,
            NoticeView::UpdateRejected { errors } => "Failed to update DNS record: "@ + joined(
                errors,
                "; "@,
            ),
        }
    }

    /// Whether the line reports something that went wrong.
    pub open spec fn is_error(self) -> bool {
        self is ResolveFailed || self is UpdateFailed || self is UpdateRejected
    }
}

/// The line that reports the provider's answer to an update: the stored
/// record where the provider accepted the update and sent the record back,
/// nothing where it accepted and sent none, its errors where it refused.
pub open spec fn answer_notice(response: ApiResponseView) -> Option<NoticeView> {
    if response.success {
        match response.result {
            Some(record) => Some(
                NoticeView::RecordUpdated { name: record.name, content: record.content },
            ),
            None => None,
        }
    } else {
        Some(NoticeView::UpdateRejected { errors: response.errors })
    }
}

/// The view of a notice that may be absent.
pub open spec fn notice_view(notice: Option<Notice>) -> Option<NoticeView> {
    match notice {
        Some(notice) => Some(notice@),
        None => None,
    }
}

impl Notice {
    /// The line that reports the provider's answer to an update, if the
    /// answer is worth one.
    pub fn for_answer(response: &ApiResponse) -> (notice: Option<Notice>)
        ensures
            notice_view(notice) == answer_notice(response@),
    {
        if response.success {
            match &response.result {
                Some(record) => Some(
                    Notice::RecordUpdated {
                        name: record.name.clone(),
                        content: record.content.clone(),
                    },
                ),
                None => None,
            }
        } else {
            Some(Notice::UpdateRejected { errors: response.error_messages() })
        }
    }

    /// The text of the log line.
    pub fn message(&self) -> (line: String)
        ensures
            line@ == self@.message_text(),
    {
        match self {
            Notice::AddressChanged { from, to } => {
                let mut line = String::from_str("IP change detected: ");
                line.append(from.as_str());
                line.append(" -> ");
                line.append(to.as_str());
                line
            },
            Notice::AddressUnchanged { address } => {
                let mut line = String::from_str("IP has not changed. Current IP: ");
                line.append(address.as_str());
                line
            },
            Notice::ResolveFailed(failure) => {
                let mut line = String::from_str("Error fetching external IP: ");
                line.append(failure.detail.as_str());
                line
            },
            Notice::UpdateFailed(failure) => {
                let mut line = String::from_str("Error updating DNS record: ");
                line.append(failure.detail.as_str());
                line
            },
            Notice::RecordUpdated { name, content } => {
                let mut line = String::from_str("DNS record updated successfully: ");
                line.append(name.as_str());
                line.append(" -> ");
                line.append(content.as_str());
                line
            },
            Notice::UpdateRejected { errors } => {
                let mut line = String::from_str("Failed to update DNS record: ");
                line.append(join(errors, "; ").as_str());
                line
            },
        }
    }

    /// Whether the line reports something that went wrong, and so belongs on
    /// the error stream.
    pub fn is_error(&self) -> (wrong: bool)
        ensures
            wrong == self@.is_error(),
    {
        match self {
            Notice::ResolveFailed(_) => true,
            Notice::UpdateFailed(_) => true,
            Notice::UpdateRejected { .. } => true,
            _ => false,
        }
    }
}

} // verus!
