//! The failures the viewer reports on its own account, and the messages it
//! shows for them in each interface language.
use vstd::prelude::*;

use crate::settings::UiLanguage;

verus! {

/// A failure of the viewer itself: a background task that could not be
/// started for a file, or an export asked for while nothing is shown.
#[derive(Debug, Clone, PartialEq, Eq)]
pub enum ViewerAppError {
    DecodeWorkerStart { path: String },
    ExportWorkerStart { path: String },
    NoImageToExport,
}

/// The full message for an error of the given kind (`path` is the file it
/// names, if any), in `language`.
pub open spec fn error_message(error: ViewerAppError, language: UiLanguage) -> Seq<char> {
    match (error, language) {
        (ViewerAppError::DecodeWorkerStart { path }, UiLanguage::Korean) =>
            "이미지 디코드 작업을 시작하지 못했습니다. 시스템 리소스가 부족할 수 있습니다.\n\n파일: "@ + path@,
        (ViewerAppError::DecodeWorkerStart { path }, UiLanguage::English) =>
            "Could not start the image decode task. System resources may be low.\n\nFile: "@ + path@,
        (ViewerAppError::ExportWorkerStart { path }, UiLanguage::Korean) =>
            "이미지 내보내기 작업을 시작하지 못했습니다. 시스템 리소스가 부족할 수 있습니다.\n\n파일: "@ + path@,
        (ViewerAppError::ExportWorkerStart { path }, UiLanguage::English) =>
            "Could not start the image export task. System resources may be low.\n\nFile: "@ + path@,
        (ViewerAppError::NoImageToExport, UiLanguage::Korean) => "내보낼 이미지가 없습니다."@,
        (ViewerAppError::NoImageToExport, UiLanguage::English) => "There is no image to export."@,
    }
}

/// The one-line message for an error of the given kind, in `language`.
pub open spec fn brief_error_message(error: ViewerAppError, language: UiLanguage) -> Seq<char> {
    match (error, language) {
        (ViewerAppError::DecodeWorkerStart { .. }, UiLanguage::Korean) => "이미지 디코드 작업을 시작하지 못했습니다."@,
        (ViewerAppError::DecodeWorkerStart { .. }, UiLanguage::English) => "Could not start the image decode task."@,
        (ViewerAppError::ExportWorkerStart { .. }, UiLanguage::Korean) => "이미지 내보내기 작업을 시작하지 못했습니다."@,
        (ViewerAppError::ExportWorkerStart { .. }, UiLanguage::English) => "Could not start the image export task."@,
        (ViewerAppError::NoImageToExport, UiLanguage::Korean) => "내보낼 이미지가 없습니다."@,
        (ViewerAppError::NoImageToExport, UiLanguage::English) => "There is no image to export."@,
    }
}

/// The text the error is written as in logs (not translated).
pub open spec fn error_text(error: ViewerAppError) -> Seq<char> {
    match error {
        ViewerAppError::DecodeWorkerStart { path } => "failed to start image decode worker: "@ + path@,
        ViewerAppError::ExportWorkerStart { path } => "failed to start image export worker: "@ + path@,
        ViewerAppError::NoImageToExport => "no image to export"@,
    }
}

impl ViewerAppError {
    /// The full message in Korean.
    pub fn user_message(&self) -> (message: String)
        ensures
            message@ == error_message(*self, UiLanguage::Korean),
    {
        self.user_message_for(UiLanguage::Korean)
    }

    /// The full message in `language`.
    pub fn user_message_for(&self, language: UiLanguage) -> (message: String)
        ensures
            message@ == error_message(*self, language),
    {
        match self {
            ViewerAppError::DecodeWorkerStart { path } => {
                let mut message = match language {
                    UiLanguage::Korean => String::from_str(
                        "이미지 디코드 작업을 시작하지 못했습니다. 시스템 리소스가 부족할 수 있습니다.\n\n파일: ",
                    ),
                    UiLanguage::English => String::from_str(
                        "Could not start the image decode task. System resources may be low.\n\nFile: ",
                    ),
                };
                message.append(path.as_str());
                message
            },
            ViewerAppError::ExportWorkerStart { path } => {
                let mut message = match language {
                    UiLanguage::Korean => String::from_str(
                        "이미지 내보내기 작업을 시작하지 못했습니다. 시스템 리소스가 부족할 수 있습니다.\n\n파일: ",
                    ),
                    UiLanguage::English => String::from_str(
                        "Could not start the image export task. System resources may be low.\n\nFile: ",
                    ),
                };
                message.append(path.as_str());
                message
            },
            ViewerAppError::NoImageToExport => String::from_str(self.brief_user_message_for(language)),
        }
    }

    /// The one-line message in Korean.
    pub fn brief_user_message(&self) -> (message: &'static str)
        ensures
            message@ == brief_error_message(*self, UiLanguage::Korean),
    {
        self.brief_user_message_for(UiLanguage::Korean)
    }

    /// The one-line message in `language`.
    pub fn brief_user_message_for(&self, language: UiLanguage) -> (message: &'static str)
        ensures
            message@ == brief_error_message(*self, language),
    {
        match (self, language) {
            (ViewerAppError::DecodeWorkerStart { .. }, UiLanguage::Korean) => "이미지 디코드 작업을 시작하지 못했습니다.",
            (ViewerAppError::DecodeWorkerStart { .. }, UiLanguage::English) => "Could not start the image decode task.",
            (ViewerAppError::ExportWorkerStart { .. }, UiLanguage::Korean) => "이미지 내보내기 작업을 시작하지 못했습니다.",
            (ViewerAppError::ExportWorkerStart { .. }, UiLanguage::English) => "Could not start the image export task.",
            (ViewerAppError::NoImageToExport, UiLanguage::Korean) => "내보낼 이미지가 없습니다.",
            (ViewerAppError::NoImageToExport, UiLanguage::English) => "There is no image to export.",
        }
    }

    /// The untranslated text of the error.
    pub fn display_text(&self) -> (text: String)
        ensures
            text@ == error_text(*self),
    {
        match self {
            ViewerAppError::DecodeWorkerStart { path } => {
                let mut text = String::from_str("failed to start image decode worker: ");
                text.append(path.as_str());
                text
            },
            ViewerAppError::ExportWorkerStart { path } => {
                let mut text = String::from_str("failed to start image export worker: ");
                text.append(path.as_str());
                text
            },
            ViewerAppError::NoImageToExport => String::from_str("no image to export"),
        }
    }
}

} // verus!
