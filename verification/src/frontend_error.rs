use vstd::prelude::*;
use vstd::string::*;

verus! {

/// Why a scan or a parse step failed. A plain tag: callers compare by variant.
#[derive(Debug, Clone, Copy, PartialEq, Eq, Structural)]
pub enum FrontendError {
    /// The input ended where a token was expected.
    EOI,
    /// Placeholder held by a scanner that has produced nothing yet.
    Default,
    ExpectedArrowTip,
    ExpectedMoreInput,
    ExpectedEscapeSequence,
    ExpectedIdentifier,
    UnrecognizedInput,
    ExpectedColon,
    ExpectedProdStartOrUse,
    ExpectedName,
    ExpectedArrow,
    ExpectedEndl,
    ExpectedUse,
    ExpectedCloseCurlyBrace,
    ExpectedPart,
}

impl FrontendError {
    /// The fixed description of each tag.
    pub open spec fn description_text(self) -> Seq<char> {
        match self {
            FrontendError::ExpectedArrowTip => "expected '>'"@,
            FrontendError::ExpectedCloseCurlyBrace => "expected '}'"@,
            FrontendError::ExpectedMoreInput => "expected more input"@,
            FrontendError::ExpectedEscapeSequence => "expected escape sequence"@,
            FrontendError::ExpectedIdentifier => "expected identifer"@,
            FrontendError::UnrecognizedInput => "unrecognized input"@,
            FrontendError::ExpectedColon => "expected ':'"@,
            FrontendError::EOI => "end of input"@,
            FrontendError::Default => "default"@,
            FrontendError::ExpectedProdStartOrUse => "expected production name or 'use'"@,
            FrontendError::ExpectedName => "expected Name"@,
            FrontendError::ExpectedArrow => "expected ->"@,
            FrontendError::ExpectedEndl => "expected endline"@,
            FrontendError::ExpectedUse => "expected 'use'"@,
            FrontendError::ExpectedPart => "expected one of: LITERAL, LEXICAL RULE NAME, NAME, EPSILON"@,
        }
    }

    /// What is shown for an error: one prefix for every tag, lexical or not.
    pub open spec fn message_text(self) -> Seq<char> {
        "Lexical Error: "@ + self.description_text()
    }

    /// The fixed description of this tag.
    pub fn description(&self) -> (text: &'static str)
        ensures
            text@ == self.description_text(),
    {
        match *self {
            FrontendError::ExpectedArrowTip => "expected '>'",
            FrontendError::ExpectedCloseCurlyBrace => "expected '}'",
            FrontendError::ExpectedMoreInput => "expected more input",
            FrontendError::ExpectedEscapeSequence => "expected escape sequence",
            FrontendError::ExpectedIdentifier => "expected identifer",
            FrontendError::UnrecognizedInput => "unrecognized input",
            FrontendError::ExpectedColon => "expected ':'",
            FrontendError::EOI => "end of input",
            FrontendError::Default => "default",
            FrontendError::ExpectedProdStartOrUse => "expected production name or 'use'",
            FrontendError::ExpectedName => "expected Name",
            FrontendError::ExpectedArrow => "expected ->",
            FrontendError::ExpectedEndl => "expected endline",
            FrontendError::ExpectedUse => "expected 'use'",
            FrontendError::ExpectedPart => "expected one of: LITERAL, LEXICAL RULE NAME, NAME, EPSILON",
        }
    }

    /// The text to display for this error.
    pub fn to_string(&self) -> (text: String)
        ensures
            text@ == self.message_text(),
    {
        let mut text = String::from_str("Lexical Error: ");
        text.append(self.description());
        text
    }
}

} // verus!
