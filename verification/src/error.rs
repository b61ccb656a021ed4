//! The single error type of the installer and its message texts.

use vstd::prelude::*;
use vstd::string::StringExecFns;

verus! {

/// Everything that can end an install attempt.
#[derive(Debug, Clone, PartialEq, Eq)]
pub enum InstallError {
    /// The remote endpoint could not be reached; `detail` is the transport's
    /// own description.
    NetworkError { detail: String },
    /// The remote endpoint answered with a status outside 200..=299.
    NotSuccessStatus { status: u16 },
    /// The body of the release reply did not have the expected shape.
    MalformedResponse,
    /// The release lists no asset.
    NoAssetsAvailable,
    /// The stream broke off, storing a chunk failed, or the stream ended
    /// before the declared length was reached.
    TransferIncomplete { received: u64, expected: Option<u64> },
    /// The archive could not be opened, or one of its entries could not be
    /// read.
    CorruptArchive,
    /// A directory or file at `path` could not be created or written, or the
    /// installer refused to create it.
    FilesystemError { path: String },
}

/// The mathematical value of an [`InstallError`]: texts as sequences of
/// characters.
pub enum InstallErrorView {
    NetworkError { detail: Seq<char> },
    NotSuccessStatus { status: u16 },
    MalformedResponse,
    NoAssetsAvailable,
    TransferIncomplete { received: u64, expected: Option<u64> },
    CorruptArchive,
    FilesystemError { path: Seq<char> },
}

impl View for InstallError {
    type V = InstallErrorView;

    open spec fn view(&self) -> InstallErrorView {
        match self {
            InstallError::NetworkError { detail } => InstallErrorView::NetworkError {
                detail: detail@,
            },
            InstallError::NotSuccessStatus { status } => InstallErrorView::NotSuccessStatus {
                status: *status,
            },
            InstallError::MalformedResponse => InstallErrorView::MalformedResponse,
            InstallError::NoAssetsAvailable => InstallErrorView::NoAssetsAvailable,
            InstallError::TransferIncomplete { received, expected } => {
                InstallErrorView::TransferIncomplete { received: *received, expected: *expected }
            },
            InstallError::CorruptArchive => InstallErrorView::CorruptArchive,
            InstallError::FilesystemError { path } => InstallErrorView::FilesystemError {
                path: path@,
            },
        }
    }
}

/// `outcome` is the failure whose value is `error`.
pub open spec fn fails_with<T>(outcome: Result<T, InstallError>, error: InstallErrorView) -> bool {
    outcome matches Err(e) && e@ == error
}

/// The character that writes the digit `d`.
pub open spec fn digit_char(d: nat) -> char {
    if d == 0 {
        '0'
    } else if d == 1 {
        '1'
    } else if d == 2 {
        '2'
    } else if d == 3 {
        '3'
    } else if d == 4 {
        '4'
    } else if d == 5 {
        '5'
    } else if d == 6 {
        '6'
    } else if d == 7 {
        '7'
    } else if d == 8 {
        '8'
    } else {
        '9'
    }
}

/// `n` written in base ten, without sign and without leading zeros.
pub open spec fn decimal(n: nat) -> Seq<char>
    decreases n,
{
    if n < 10 {
        seq![digit_char(n)]
    } else {
        decimal(n / 10).push(digit_char(n % 10))
    }
}

fn digit_text(d: u64) -> (text: &'static str)
    requires
        d < 10,
    ensures
        text@ == seq![digit_char(d as nat)],
{
    proof {
        reveal_strlit("0");
        reveal_strlit("1");
        reveal_strlit("2");
        reveal_strlit("3");
        reveal_strlit("4");
        reveal_strlit("5");
        reveal_strlit("6");
        reveal_strlit("7");
        reveal_strlit("8");
        reveal_strlit("9");
    }
    if d == 0 {
        "0"
    } else if d == 1 {
        "1"
    } else if d == 2 {
        "2"
    } else if d == 3 {
        "3"
    } else if d == 4 {
        "4"
    } else if d == 5 {
        "5"
    } else if d == 6 {
        "6"
    } else if d == 7 {
        "7"
    } else if d == 8 {
        "8"
    } else {
        "9"
    }
}

/// Appends `n` in base ten to `out`.
pub fn push_decimal(out: &mut String, n: u64)
    ensures
        final(out)@ == old(out)@ + decimal(n as nat),
    decreases n,
{
    if n >= 10 {
        push_decimal(out, n / 10);
    }
    out.append(digit_text(n % 10));
}

/// The text that describes the error `error` to a person. The text of a
/// refused status holds the status.
pub open spec fn message_of(error: InstallErrorView) -> Seq<char> {
    match error {
        InstallErrorView::NetworkError { detail } => "network error: "@ + detail,
        InstallErrorView::NotSuccessStatus { status } => "request failed with status "@ + decimal(
            status as nat,
        ),
        InstallErrorView::MalformedResponse => "the release reply could not be read"@,
        InstallErrorView::NoAssetsAvailable => "no assets found in the latest release"@,
        InstallErrorView::TransferIncomplete { received, expected } => match expected {
            Some(total) => "transfer incomplete: "@ + decimal(received as nat) + " of "@ + decimal(
                total as nat,
            ) + " bytes stored"@,
            None => "transfer incomplete: "@ + decimal(received as nat) + " bytes stored"@,
        },
        InstallErrorView::CorruptArchive => "the archive could not be read"@,
        InstallErrorView::FilesystemError { path } => "cannot create "@ + path,
    }
}

impl InstallError {
    /// The text that describes this error to a person.
    pub fn message(&self) -> (text: String)
        ensures
            text@ == message_of(self@),
    {
        match self {
            InstallError::NetworkError { detail } => {
                let mut text = String::from_str("network error: ");
                text.append(detail.as_str());
                text
            },
            InstallError::NotSuccessStatus { status } => {
                let mut text = String::from_str("request failed with status ");
                push_decimal(&mut text, *status as u64);
                text
            },
            InstallError::MalformedResponse => String::from_str(
                "the release reply could not be read",
            ),
            InstallError::NoAssetsAvailable => String::from_str(
                "no assets found in the latest release",
            ),
            InstallError::TransferIncomplete { received, expected } => {
                let mut text = String::from_str("transfer incomplete: ");
                push_decimal(&mut text, *received);
                match expected {
                    Some(total) => {
                        text.append(" of ");
                        push_decimal(&mut text, *total);
                    },
                    None => {},
                }
                text.append(" bytes stored");
                text
            },
            InstallError::CorruptArchive => String::from_str("the archive could not be read"),
            InstallError::FilesystemError { path } => {
                let mut text = String::from_str("cannot create ");
                text.append(path.as_str());
                text
            },
        }
    }
}

} // verus!
