//! The platform status vocabulary: the status codes the firmware's boot
//! services report, modeled as plain values, and their diagnostic text.

use vstd::prelude::*;

verus! {

/// A status code reported by the platform's storage, image-loading or
/// image-starting facilities. `Unknown` stands for every code outside the
/// named set.
#[derive(Clone, Copy, Debug, PartialEq, Eq, Structural)]
pub enum PlatformStatus {
    Success,
    WarnUnknownGlyph,
    WarnDeleteFailure,
    WarnWriteFailure,
    WarnBufferTooSmall,
    WarnStaleData,
    WarnFileSystem,
    WarnResetRequired,
    LoadError,
    InvalidParameter,
    Unsupported,
    BadBufferSize,
    BufferTooSmall,
    NotReady,
    DeviceError,
    WriteProtected,
    OutOfResources,
    VolumeCorrupted,
    VolumeFull,
    NoMedia,
    MediaChanged,
    NotFound,
    AccessDenied,
    NoResponse,
    NoMapping,
    Timeout,
    NotStarted,
    AlreadyStarted,
    Aborted,
    IcmpError,
    TftpError,
    ProtocolError,
    IncompatibleVersion,
    SecurityViolation,
    CrcError,
    EndOfMedia,
    EndOfFile,
    InvalidLanguage,
    CompromisedData,
    IpAddressConflict,
    HttpError,
    Unknown,
}

/// The diagnostic sentence that belongs to each platform status.
pub open spec fn spec_status_text(status: PlatformStatus) -> Seq<char> {
    match status {
        PlatformStatus::Success => "The operation completed successfully."@,
        PlatformStatus::WarnUnknownGlyph => "The program used a character that could not be rendered."@,
        PlatformStatus::WarnDeleteFailure => "The program closed a file handle that could not be deleted."@,
        PlatformStatus::WarnWriteFailure => "The program closed a file handle that could not be written."@,
        PlatformStatus::WarnBufferTooSmall => "The program encountered a buffer underflow."@,
        PlatformStatus::WarnStaleData => "The program contained data that was not updated within the required time."@,
        PlatformStatus::WarnFileSystem => "The program contained data that was a compatible filesystem."@,
        PlatformStatus::WarnResetRequired => "The program performed an operation that requires a system restart."@,
        PlatformStatus::LoadError => "The image failed to load."@,
        PlatformStatus::InvalidParameter => "A parameter was incorrect."@,
        PlatformStatus::Unsupported => "The requested operation is not supported on this system."@,
        PlatformStatus::BadBufferSize => "The supplied buffer was of improper size for the request."@,
        PlatformStatus::BufferTooSmall => "The supplied buffer was not large enough to hold the requested data."@,
        PlatformStatus::NotReady => "The device is not ready."@,
        PlatformStatus::DeviceError => "The device reported a hardware error while attempting the operation."@,
        PlatformStatus::WriteProtected => "The device cannot be written to."@,
        PlatformStatus::OutOfResources => "The system has run out of resources."@,
        PlatformStatus::VolumeCorrupted => "The file system is corrupted."@,
        PlatformStatus::VolumeFull => "The file system is full."@,
        PlatformStatus::NoMedia => "The device does not contain valid media."@,
        PlatformStatus::MediaChanged => "The device has changed media since the last access."@,
        PlatformStatus::NotFound => "The requested resource could not be found."@,
        PlatformStatus::AccessDenied => "Access is denied."@,
        PlatformStatus::NoResponse => "The remote server did not respond to the request."@,
        PlatformStatus::NoMapping => "No route to the requested device exists."@,
        PlatformStatus::Timeout => "The request did not complete in a timely manner."@,
        PlatformStatus::NotStarted => "The program requested a protocol that has not been initialized."@,
        PlatformStatus::AlreadyStarted => "The program initialized a protocol that was already initialized."@,
        PlatformStatus::Aborted => "The operation was aborted abruptly."@,
        PlatformStatus::IcmpError => "The network connection encountered an ICMP protocol error."@,
        PlatformStatus::TftpError => "The network connection encountered a TFTP protocol error."@,
        PlatformStatus::ProtocolError => "The network connection encountered a protocol error."@,
        PlatformStatus::IncompatibleVersion => "The function is not compatible with the requested version."@,
        PlatformStatus::SecurityViolation => "The operation constitutes a violation of the security policy."@,
        PlatformStatus::CrcError => "The operation failed a consistency check."@,
        PlatformStatus::EndOfMedia => "The device has no more data to provide."@,
        PlatformStatus::EndOfFile => "The file has no more data to provide."@,
        PlatformStatus::InvalidLanguage => "The requested language is invalid."@,
        PlatformStatus::CompromisedData => "The data has not been securely validated and could be compromised."@,
        PlatformStatus::IpAddressConflict => "The network address allocation has led to a conflict."@,
        PlatformStatus::HttpError => "The network connection encountered an HTTP protocol error."@,
        PlatformStatus::Unknown => "An unknown system error has occurred."@,
    }
}

/// Renders a platform status as the diagnostic sentence a caller shows to
/// the user.
pub fn status_to_text(status: PlatformStatus) -> (r: String)
    ensures
        r@ == spec_status_text(status),
{
    let text: &str = match status {
        PlatformStatus::Success => "The operation completed successfully.",
        PlatformStatus::WarnUnknownGlyph => "The program used a character that could not be rendered.",
        PlatformStatus::WarnDeleteFailure => "The program closed a file handle that could not be deleted.",
        PlatformStatus::WarnWriteFailure => "The program closed a file handle that could not be written.",
        PlatformStatus::WarnBufferTooSmall => "The program encountered a buffer underflow.",
        PlatformStatus::WarnStaleData => "The program contained data that was not updated within the required time.",
        PlatformStatus::WarnFileSystem => "The program contained data that was a compatible filesystem.",
        PlatformStatus::WarnResetRequired => "The program performed an operation that requires a system restart.",
        PlatformStatus::LoadError => "The image failed to load.",
        PlatformStatus::InvalidParameter => "A parameter was incorrect.",
        PlatformStatus::Unsupported => "The requested operation is not supported on this system.",
        PlatformStatus::BadBufferSize => "The supplied buffer was of improper size for the request.",
        PlatformStatus::BufferTooSmall => "The supplied buffer was not large enough to hold the requested data.",
        PlatformStatus::NotReady => "The device is not ready.",
        PlatformStatus::DeviceError => "The device reported a hardware error while attempting the operation.",
        PlatformStatus::WriteProtected => "The device cannot be written to.",
        PlatformStatus::OutOfResources => "The system has run out of resources.",
        PlatformStatus::VolumeCorrupted => "The file system is corrupted.",
        PlatformStatus::VolumeFull => "The file system is full.",
        PlatformStatus::NoMedia => "The device does not contain valid media.",
        PlatformStatus::MediaChanged => "The device has changed media since the last access.",
        PlatformStatus::NotFound => "The requested resource could not be found.",
        PlatformStatus::AccessDenied => "Access is denied.",
        PlatformStatus::NoResponse => "The remote server did not respond to the request.",
        PlatformStatus::NoMapping => "No route to the requested device exists.",
        PlatformStatus::Timeout => "The request did not complete in a timely manner.",
        PlatformStatus::NotStarted => "The program requested a protocol that has not been initialized.",
        PlatformStatus::AlreadyStarted => "The program initialized a protocol that was already initialized.",
        PlatformStatus::Aborted => "The operation was aborted abruptly.",
        PlatformStatus::IcmpError => "The network connection encountered an ICMP protocol error.",
        PlatformStatus::TftpError => "The network connection encountered a TFTP protocol error.",
        PlatformStatus::ProtocolError => "The network connection encountered a protocol error.",
        PlatformStatus::IncompatibleVersion => "The function is not compatible with the requested version.",
        PlatformStatus::SecurityViolation => "The operation constitutes a violation of the security policy.",
        PlatformStatus::CrcError => "The operation failed a consistency check.",
        PlatformStatus::EndOfMedia => "The device has no more data to provide.",
        PlatformStatus::EndOfFile => "The file has no more data to provide.",
        PlatformStatus::InvalidLanguage => "The requested language is invalid.",
        PlatformStatus::CompromisedData => "The data has not been securely validated and could be compromised.",
        PlatformStatus::IpAddressConflict => "The network address allocation has led to a conflict.",
        PlatformStatus::HttpError => "The network connection encountered an HTTP protocol error.",
        PlatformStatus::Unknown => "An unknown system error has occurred.",
    };
    text.to_owned()
}

} // verus!
