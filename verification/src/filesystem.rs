//! File-system errors with their guidance, the table of supported media
//! types, and the path rules of the platform file-system managers.
use vstd::prelude::*;
use crate::clock::Timestamp;
use crate::platform::OsType;
use crate::windows_fs::{normalized_windows, windows_path_problem, WindowsFileSystemManager};
use crate::library::{components, same_path_components};
use crate::path::{extension, extension_of};
use crate::text::{
    chars_of, concat2, concat3, concat5, contains, eq_str, has_substring, lower_chars,
    lowercase_of, owned, push_char, push_str, texts, utf8_len, utf8_len_exceeds,
};

verus! {

/// File system specific errors.
#[derive(Debug)]
pub enum FileSystemError {
    PathNotFound { path: String },
    AccessDenied { path: String, reason: String },
    InvalidPath { path: String, reason: String },
    InvalidWindowsCharacter { path: String, character: char, reason: String },
    InvalidColonUsage { path: String, details: String },
    PathTooLong { path: String, details: String },
    ReservedName { path: String, reserved_name: String },
    /// An I/O failure, by the message of the underlying error.
    Io(String),
    Permission { path: String, details: String },
    Encoding { path: String, details: String },
    Platform(String),
}

/// Error severity levels.
#[derive(Debug, Clone, Copy, PartialEq, Eq, Structural)]
pub enum ErrorSeverity {
    Warning,
    Error,
    Critical,
}

/// The explanation shown for a refused path.
pub open spec fn invalid_path_text(path: Seq<char>, reason: Seq<char>) -> Seq<char> {
    "Invalid path: "@ + path + "\nReason: "@ + reason
        + "\n\nWhat this means: The path format is not valid for this system.\nSuggestion: Use a valid path format for your operating system."@
}

/// The reason the rules of an operating system refuse a path, if they do.
pub open spec fn platform_path_problem(os: OsType, p: Seq<char>) -> Option<Seq<char>> {
    if os == OsType::Windows {
        windows_path_problem(p)
    } else {
        common_path_problem(p)
    }
}

impl FileSystemError {
    /// The error's message.
    pub open spec fn text(&self) -> Seq<char> {
        match self {
            FileSystemError::PathNotFound { path } => "Path not found: "@ + path@,
            FileSystemError::AccessDenied { path, reason } => "Access denied: "@ + path@ + " - "@ + reason@,
            FileSystemError::InvalidPath { path, reason } => "Invalid path: "@ + path@ + " - "@ + reason@,
            FileSystemError::InvalidWindowsCharacter { path, character, reason } =>
                "Path contains invalid Windows character '"@ + seq![*character] + "': "@ + path@ + " - "@ + reason@,
            FileSystemError::InvalidColonUsage { path, details } => "Invalid colon usage in Windows path: "@
                + path@ + " - "@ + details@,
            FileSystemError::PathTooLong { path, details } => "Path exceeds maximum length: "@ + path@ + " - "@
                + details@,
            FileSystemError::ReservedName { path, reserved_name } => "Path contains reserved name: "@ + path@
                + " - "@ + reserved_name@,
            FileSystemError::Io(e) => "I/O error: "@ + e@,
            FileSystemError::Permission { path, details } => "Permission error: "@ + path@ + " - "@ + details@,
            FileSystemError::Encoding { path, details } => "Encoding error: "@ + path@ + " - "@ + details@,
            FileSystemError::Platform(m) => "Platform-specific error: "@ + m@,
        }
    }

    /// The error's message.
    pub fn message(&self) -> (res: String)
        ensures
            res@ == self.text(),
    {
        proof {
            reveal_strlit("");
        }
        match self {
            FileSystemError::PathNotFound { path } => concat2("Path not found: ", path.as_str()),
            FileSystemError::AccessDenied { path, reason } => concat5(
                "Access denied: ", path.as_str(), " - ", reason.as_str(), ""),
            FileSystemError::InvalidPath { path, reason } => concat5(
                "Invalid path: ", path.as_str(), " - ", reason.as_str(), ""),
            FileSystemError::InvalidWindowsCharacter { path, character, reason } => {
                let mut s = owned("Path contains invalid Windows character '");
                push_char(&mut s, *character);
                push_str(&mut s, "': ");
                push_str(&mut s, path.as_str());
                push_str(&mut s, " - ");
                push_str(&mut s, reason.as_str());
                assert(s@ =~= self.text());
                s
            },
            FileSystemError::InvalidColonUsage { path, details } => concat5(
                "Invalid colon usage in Windows path: ", path.as_str(), " - ", details.as_str(), ""),
            FileSystemError::PathTooLong { path, details } => concat5(
                "Path exceeds maximum length: ", path.as_str(), " - ", details.as_str(), ""),
            FileSystemError::ReservedName { path, reserved_name } => concat5(
                "Path contains reserved name: ", path.as_str(), " - ", reserved_name.as_str(), ""),
            FileSystemError::Io(e) => concat2("I/O error: ", e.as_str()),
            FileSystemError::Permission { path, details } => concat5(
                "Permission error: ", path.as_str(), " - ", details.as_str(), ""),
            FileSystemError::Encoding { path, details } => concat5(
                "Encoding error: ", path.as_str(), " - ", details.as_str(), ""),
            FileSystemError::Platform(m) => concat2("Platform-specific error: ", m.as_str()),
        }
    }

    /// The detailed explanation shown to the user.
    pub open spec fn user_text(&self) -> Seq<char> {
        match self {
            FileSystemError::PathNotFound { path } => "Path not found: "@ + path@
                + "\n\nWhat this means: The specified file or directory does not exist.\nSuggestion: Verify the path is correct and the file/directory exists."@,
            FileSystemError::AccessDenied { path, reason } => "Access denied: "@ + path@ + "\nReason: "@ + reason@
                + "\n\nWhat this means: You don't have permission to access this location.\nSuggestion: Check file permissions or run with appropriate privileges."@,
            FileSystemError::InvalidPath { path, reason } => invalid_path_text(path@, reason@),
            FileSystemError::InvalidWindowsCharacter { path, character, reason } =>
                "Invalid Windows path character '"@ + seq![*character] + "': "@ + path@ + "\nReason: "@ + reason@
                + "\n\nWhat this means: Windows paths cannot contain certain special characters.\nSuggestion: Remove or replace the invalid character '"@
                + seq![*character] + "' from your path."@,
            FileSystemError::InvalidColonUsage { path, details } => "Invalid colon usage in Windows path: "@ + path@
                + "\nDetails: "@ + details@
                + "\n\nWhat this means: Colons (:) are only allowed in specific positions in Windows paths.\nValid examples:\n  - Drive letters: C:\\Users\\Documents\n  - UNC network paths: \\\\server:port\\share\nSuggestion: Check that colons are only used in drive letters or network addresses."@,
            FileSystemError::PathTooLong { path, details } => "Path too long: "@ + path@ + "\nDetails: "@ + details@
                + "\n\nWhat this means: The path exceeds the maximum length allowed by Windows.\nSuggestion: Use a shorter path or enable long path support in Windows."@,
            FileSystemError::ReservedName { path, reserved_name } => "Reserved name in path: "@ + path@
                + "\nReserved name: "@ + reserved_name@
                + "\n\nWhat this means: Windows reserves certain names that cannot be used as file or directory names.\nReserved names include: CON, PRN, AUX, NUL, COM1-9, LPT1-9\nSuggestion: Choose a different name that is not reserved by Windows."@,
            FileSystemError::Io(e) => "System I/O error: "@ + e@
                + "\n\nWhat this means: A low-level system operation failed.\nSuggestion: Check disk space, file permissions, and system resources."@,
            FileSystemError::Permission { path, details } => "Permission error: "@ + path@ + "\nDetails: "@ + details@
                + "\n\nWhat this means: The application doesn't have the required permissions.\nSuggestion: Check file/directory permissions or run with elevated privileges."@,
            FileSystemError::Encoding { path, details } => "Text encoding error: "@ + path@ + "\nDetails: "@ + details@
                + "\n\nWhat this means: The path contains characters that cannot be properly encoded.\nSuggestion: Use standard ASCII characters in file paths when possible."@,
            FileSystemError::Platform(m) => "Platform-specific error: "@ + m@
                + "\n\nWhat this means: A system-specific operation failed.\nSuggestion: Check system logs and ensure the operation is supported on your platform."@,
        }
    }

    /// Get a user-friendly error message with detailed explanation.
    pub fn user_message(&self) -> (res: String)
        ensures
            res@ == self.user_text(),
    {
        match self {
            FileSystemError::PathNotFound { path } => concat3(
                "Path not found: ",
                path.as_str(),
                "\n\nWhat this means: The specified file or directory does not exist.\nSuggestion: Verify the path is correct and the file/directory exists.",
            ),
            FileSystemError::AccessDenied { path, reason } => concat5(
                "Access denied: ",
                path.as_str(),
                "\nReason: ",
                reason.as_str(),
                "\n\nWhat this means: You don't have permission to access this location.\nSuggestion: Check file permissions or run with appropriate privileges.",
            ),
            FileSystemError::InvalidPath { path, reason } => concat5(
                "Invalid path: ",
                path.as_str(),
                "\nReason: ",
                reason.as_str(),
                "\n\nWhat this means: The path format is not valid for this system.\nSuggestion: Use a valid path format for your operating system.",
            ),
            FileSystemError::InvalidWindowsCharacter { path, character, reason } => {
                let mut s = owned("Invalid Windows path character '");
                push_char(&mut s, *character);
                push_str(&mut s, "': ");
                push_str(&mut s, path.as_str());
                push_str(&mut s, "\nReason: ");
                push_str(&mut s, reason.as_str());
                push_str(
                    &mut s,
                    "\n\nWhat this means: Windows paths cannot contain certain special characters.\nSuggestion: Remove or replace the invalid character '",
                );
                push_char(&mut s, *character);
                push_str(&mut s, "' from your path.");
                assert(s@ =~= self.user_text());
                s
            },
            FileSystemError::InvalidColonUsage { path, details } => concat5(
                "Invalid colon usage in Windows path: ",
                path.as_str(),
                "\nDetails: ",
                details.as_str(),
                "\n\nWhat this means: Colons (:) are only allowed in specific positions in Windows paths.\nValid examples:\n  - Drive letters: C:\\Users\\Documents\n  - UNC network paths: \\\\server:port\\share\nSuggestion: Check that colons are only used in drive letters or network addresses.",
            ),
            FileSystemError::PathTooLong { path, details } => concat5(
                "Path too long: ",
                path.as_str(),
                "\nDetails: ",
                details.as_str(),
                "\n\nWhat this means: The path exceeds the maximum length allowed by Windows.\nSuggestion: Use a shorter path or enable long path support in Windows.",
            ),
            FileSystemError::ReservedName { path, reserved_name } => concat5(
                "Reserved name in path: ",
                path.as_str(),
                "\nReserved name: ",
                reserved_name.as_str(),
                "\n\nWhat this means: Windows reserves certain names that cannot be used as file or directory names.\nReserved names include: CON, PRN, AUX, NUL, COM1-9, LPT1-9\nSuggestion: Choose a different name that is not reserved by Windows.",
            ),
            FileSystemError::Io(e) => concat3(
                "System I/O error: ",
                e.as_str(),
                "\n\nWhat this means: A low-level system operation failed.\nSuggestion: Check disk space, file permissions, and system resources.",
            ),
            FileSystemError::Permission { path, details } => concat5(
                "Permission error: ",
                path.as_str(),
                "\nDetails: ",
                details.as_str(),
                "\n\nWhat this means: The application doesn't have the required permissions.\nSuggestion: Check file/directory permissions or run with elevated privileges.",
            ),
            FileSystemError::Encoding { path, details } => concat5(
                "Text encoding error: ",
                path.as_str(),
                "\nDetails: ",
                details.as_str(),
                "\n\nWhat this means: The path contains characters that cannot be properly encoded.\nSuggestion: Use standard ASCII characters in file paths when possible.",
            ),
            FileSystemError::Platform(m) => concat3(
                "Platform-specific error: ",
                m.as_str(),
                "\n\nWhat this means: A system-specific operation failed.\nSuggestion: Check system logs and ensure the operation is supported on your platform.",
            ),
        }
    }

    /// The recovery suggestions for this error.
    pub open spec fn suggestions(&self) -> Seq<Seq<char>> {
        match self {
            FileSystemError::PathNotFound { .. } => seq![
                "Verify the path exists"@,
                "Check for typos in the path"@,
                "Create the missing directory if needed"@,
                "Use an absolute path instead of relative"@,
            ],
            FileSystemError::AccessDenied { .. } => seq![
                "Check file/directory permissions"@,
                "Run the application with administrator privileges"@,
                "Ensure the file is not locked by another application"@,
                "Verify you have read/write access to the parent directory"@,
            ],
            FileSystemError::InvalidPath { .. } => seq![
                "Use forward slashes (/) or double backslashes (\\\\) in paths"@,
                "Avoid special characters in file names"@,
                "Use absolute paths when possible"@,
                "Check path format for your operating system"@,
            ],
            FileSystemError::InvalidWindowsCharacter { character, .. } => seq![
                "Remove the '"@ + seq![*character] + "' character from the path"@,
                "Replace '"@ + seq![*character] + "' with an underscore or dash"@,
                "Use only alphanumeric characters and standard separators"@,
                "Avoid these characters in Windows paths: < > : \" | ? *"@,
            ],
            FileSystemError::InvalidColonUsage { .. } => seq![
                "Use colons only in drive letters (C:, D:, etc.)"@,
                "For network paths, use \\\\server:port\\share format"@,
                "Remove colons from file and directory names"@,
                "Use underscores or dashes instead of colons in names"@,
            ],
            FileSystemError::PathTooLong { .. } => seq![
                "Use shorter file and directory names"@,
                "Move files to a location with a shorter path"@,
                "Enable long path support in Windows 10/11"@,
                "Use the \\\\?\\ prefix for very long paths"@,
            ],
            FileSystemError::ReservedName { reserved_name, .. } => seq![
                "Rename '"@ + reserved_name@ + "' to something else"@,
                "Add a suffix or prefix to make the name unique"@,
                "Avoid these reserved names: CON, PRN, AUX, NUL, COM1-9, LPT1-9"@,
                "Use descriptive names that don't conflict with system names"@,
            ],
            FileSystemError::Io(_) => seq![
                "Check available disk space"@,
                "Verify file permissions"@,
                "Close other applications that might be using the file"@,
                "Restart the application and try again"@,
            ],
            FileSystemError::Permission { .. } => seq![
                "Run as administrator or with elevated privileges"@,
                "Check and modify file/directory permissions"@,
                "Ensure the file is not read-only"@,
                "Verify you own the file or have appropriate access"@,
            ],
            FileSystemError::Encoding { .. } => seq![
                "Use standard ASCII characters in paths"@,
                "Avoid special Unicode characters in file names"@,
                "Rename files with problematic characters"@,
                "Check system locale and encoding settings"@,
            ],
            FileSystemError::Platform(_) => seq![
                "Check system documentation for platform-specific requirements"@,
                "Verify the operation is supported on your system"@,
                "Update your operating system if needed"@,
                "Contact support with system details"@,
            ],
        }
    }

    /// Get recovery suggestions for the error.
    pub fn recovery_suggestions(&self) -> (res: Vec<String>)
        ensures
            texts(res@) == self.suggestions(),
    {
        let mut v: Vec<String> = Vec::new();
        match self {
            FileSystemError::PathNotFound { .. } => {
                v.push(owned("Verify the path exists"));
                v.push(owned("Check for typos in the path"));
                v.push(owned("Create the missing directory if needed"));
                v.push(owned("Use an absolute path instead of relative"));
            },
            FileSystemError::AccessDenied { .. } => {
                v.push(owned("Check file/directory permissions"));
                v.push(owned("Run the application with administrator privileges"));
                v.push(owned("Ensure the file is not locked by another application"));
                v.push(owned("Verify you have read/write access to the parent directory"));
            },
            FileSystemError::InvalidPath { .. } => {
                v.push(owned("Use forward slashes (/) or double backslashes (\\\\) in paths"));
                v.push(owned("Avoid special characters in file names"));
                v.push(owned("Use absolute paths when possible"));
                v.push(owned("Check path format for your operating system"));
            },
            FileSystemError::InvalidWindowsCharacter { character, .. } => {
                let mut a = owned("Remove the '");
                push_char(&mut a, *character);
                push_str(&mut a, "' character from the path");
                assert(a@ =~= "Remove the '"@ + seq![*character] + "' character from the path"@);
                v.push(a);
                let mut b = owned("Replace '");
                push_char(&mut b, *character);
                push_str(&mut b, "' with an underscore or dash");
                assert(b@ =~= "Replace '"@ + seq![*character] + "' with an underscore or dash"@);
                v.push(b);
                v.push(owned("Use only alphanumeric characters and standard separators"));
                v.push(owned("Avoid these characters in Windows paths: < > : \" | ? *"));
            },
            FileSystemError::InvalidColonUsage { .. } => {
                v.push(owned("Use colons only in drive letters (C:, D:, etc.)"));
                v.push(owned("For network paths, use \\\\server:port\\share format"));
                v.push(owned("Remove colons from file and directory names"));
                v.push(owned("Use underscores or dashes instead of colons in names"));
            },
            FileSystemError::PathTooLong { .. } => {
                v.push(owned("Use shorter file and directory names"));
                v.push(owned("Move files to a location with a shorter path"));
                v.push(owned("Enable long path support in Windows 10/11"));
                v.push(owned("Use the \\\\?\\ prefix for very long paths"));
            },
            FileSystemError::ReservedName { reserved_name, .. } => {
                v.push(concat3("Rename '", reserved_name.as_str(), "' to something else"));
                v.push(owned("Add a suffix or prefix to make the name unique"));
                v.push(owned("Avoid these reserved names: CON, PRN, AUX, NUL, COM1-9, LPT1-9"));
                v.push(owned("Use descriptive names that don't conflict with system names"));
            },
            FileSystemError::Io(_) => {
                v.push(owned("Check available disk space"));
                v.push(owned("Verify file permissions"));
                v.push(owned("Close other applications that might be using the file"));
                v.push(owned("Restart the application and try again"));
            },
            FileSystemError::Permission { .. } => {
                v.push(owned("Run as administrator or with elevated privileges"));
                v.push(owned("Check and modify file/directory permissions"));
                v.push(owned("Ensure the file is not read-only"));
                v.push(owned("Verify you own the file or have appropriate access"));
            },
            FileSystemError::Encoding { .. } => {
                v.push(owned("Use standard ASCII characters in paths"));
                v.push(owned("Avoid special Unicode characters in file names"));
                v.push(owned("Rename files with problematic characters"));
                v.push(owned("Check system locale and encoding settings"));
            },
            FileSystemError::Platform(_) => {
                v.push(owned("Check system documentation for platform-specific requirements"));
                v.push(owned("Verify the operation is supported on your system"));
                v.push(owned("Update your operating system if needed"));
                v.push(owned("Contact support with system details"));
            },
        }
        proof {
            assert(texts(v@) =~= self.suggestions());
        }
        v
    }

    /// Whether the error may go away (a path created, permissions fixed, a
    /// path shortened, a temporary I/O failure).
    pub open spec fn recoverable(&self) -> bool {
        match self {
            FileSystemError::PathNotFound { .. } => true,
            FileSystemError::AccessDenied { .. } => true,
            FileSystemError::PathTooLong { .. } => true,
            FileSystemError::Io(_) => true,
            FileSystemError::Permission { .. } => true,
            _ => false,
        }
    }

    /// Check if the error is recoverable.
    pub fn is_recoverable(&self) -> (res: bool)
        ensures
            res == self.recoverable(),
    {
        match self {
            FileSystemError::PathNotFound { .. } => true,
            FileSystemError::AccessDenied { .. } => true,
            FileSystemError::InvalidPath { .. } => false,
            FileSystemError::InvalidWindowsCharacter { .. } => false,
            FileSystemError::InvalidColonUsage { .. } => false,
            FileSystemError::PathTooLong { .. } => true,
            FileSystemError::ReservedName { .. } => false,
            FileSystemError::Io(_) => true,
            FileSystemError::Permission { .. } => true,
            FileSystemError::Encoding { .. } => false,
            FileSystemError::Platform(_) => false,
        }
    }

    /// The severity of each kind of error.
    pub open spec fn severity_of(&self) -> ErrorSeverity {
        match self {
            FileSystemError::PathNotFound { .. } => ErrorSeverity::Warning,
            FileSystemError::PathTooLong { .. } => ErrorSeverity::Warning,
            FileSystemError::Encoding { .. } => ErrorSeverity::Warning,
            FileSystemError::Platform(_) => ErrorSeverity::Critical,
            _ => ErrorSeverity::Error,
        }
    }

    /// Get the severity level of the error.
    pub fn severity(&self) -> (res: ErrorSeverity)
        ensures
            res == self.severity_of(),
    {
        match self {
            FileSystemError::PathNotFound { .. } => ErrorSeverity::Warning,
            FileSystemError::AccessDenied { .. } => ErrorSeverity::Error,
            FileSystemError::InvalidPath { .. } => ErrorSeverity::Error,
            FileSystemError::InvalidWindowsCharacter { .. } => ErrorSeverity::Error,
            FileSystemError::InvalidColonUsage { .. } => ErrorSeverity::Error,
            FileSystemError::PathTooLong { .. } => ErrorSeverity::Warning,
            FileSystemError::ReservedName { .. } => ErrorSeverity::Error,
            FileSystemError::Io(_) => ErrorSeverity::Error,
            FileSystemError::Permission { .. } => ErrorSeverity::Error,
            FileSystemError::Encoding { .. } => ErrorSeverity::Warning,
            FileSystemError::Platform(_) => ErrorSeverity::Critical,
        }
    }
}

/// Cross-platform file permissions representation.
#[derive(Debug, Clone)]
pub struct FilePermissions {
    pub readable: bool,
    pub writable: bool,
    pub executable: bool,
    /// Platform-specific permission details, as key/value pairs.
    pub platform_details: Vec<(String, String)>,
}

/// Detailed file information.
#[derive(Debug, Clone)]
pub struct FileInfo {
    pub size: u64,
    pub modified: Timestamp,
    pub permissions: FilePermissions,
    pub mime_type: String,
    pub is_hidden: bool,
    /// Platform-specific metadata, as key/value pairs.
    pub metadata: Vec<(String, String)>,
}

/// Media file representation with platform-aware handling.
#[derive(Debug, Clone)]
pub struct MediaFile {
    pub id: Option<i64>,
    pub path: String,
    pub filename: String,
    pub size: u64,
    pub modified: Timestamp,
    pub mime_type: String,
    /// Media duration in milliseconds.
    pub duration_ms: Option<u64>,
    pub title: Option<String>,
    pub artist: Option<String>,
    pub album: Option<String>,
    pub created_at: Timestamp,
    pub updated_at: Timestamp,
}

// ---------------------------------------------------------------------------
// Supported media types
// ---------------------------------------------------------------------------

/// The MIME type of each supported (lower-case) media extension.
pub open spec fn media_type(ext: Seq<char>) -> Option<Seq<char>> {
    if ext == "mkv"@ { Some("video/x-matroska"@) }
    else if ext == "mp4"@ { Some("video/mp4"@) }
    else if ext == "avi"@ { Some("video/x-msvideo"@) }
    else if ext == "mov"@ { Some("video/quicktime"@) }
    else if ext == "wmv"@ { Some("video/x-ms-wmv"@) }
    else if ext == "flv"@ { Some("video/x-flv"@) }
    else if ext == "webm"@ { Some("video/webm"@) }
    else if ext == "m4v"@ { Some("video/x-m4v"@) }
    else if ext == "3gp"@ { Some("video/3gpp"@) }
    else if ext == "mpg"@ { Some("video/mpeg"@) }
    else if ext == "mpeg"@ { Some("video/mpeg"@) }
    else if ext == "mp3"@ { Some("audio/mpeg"@) }
    else if ext == "flac"@ { Some("audio/flac"@) }
    else if ext == "wav"@ { Some("audio/wav"@) }
    else if ext == "aac"@ { Some("audio/aac"@) }
    else if ext == "ogg"@ { Some("audio/ogg"@) }
    else if ext == "wma"@ { Some("audio/x-ms-wma"@) }
    else if ext == "m4a"@ { Some("audio/mp4"@) }
    else if ext == "opus"@ { Some("audio/opus"@) }
    else if ext == "aiff"@ { Some("audio/aiff"@) }
    else if ext == "jpg"@ { Some("image/jpeg"@) }
    else if ext == "jpeg"@ { Some("image/jpeg"@) }
    else if ext == "png"@ { Some("image/png"@) }
    else if ext == "gif"@ { Some("image/gif"@) }
    else if ext == "bmp"@ { Some("image/bmp"@) }
    else if ext == "tiff"@ { Some("image/tiff"@) }
    else if ext == "webp"@ { Some("image/webp"@) }
    else if ext == "svg"@ { Some("image/svg+xml"@) }
    else { None }
}

/// The MIME type of a supported lower-case extension.
pub fn lookup_media_type(ext: &[char]) -> (res: Option<&'static str>)
    ensures
        match res {
            Some(m) => media_type(ext@) == Some(m@),
            None => media_type(ext@) is None,
        },
{
    if eq_str(ext, "mkv") { Some("video/x-matroska") }
    else if eq_str(ext, "mp4") { Some("video/mp4") }
    else if eq_str(ext, "avi") { Some("video/x-msvideo") }
    else if eq_str(ext, "mov") { Some("video/quicktime") }
    else if eq_str(ext, "wmv") { Some("video/x-ms-wmv") }
    else if eq_str(ext, "flv") { Some("video/x-flv") }
    else if eq_str(ext, "webm") { Some("video/webm") }
    else if eq_str(ext, "m4v") { Some("video/x-m4v") }
    else if eq_str(ext, "3gp") { Some("video/3gpp") }
    else if eq_str(ext, "mpg") { Some("video/mpeg") }
    else if eq_str(ext, "mpeg") { Some("video/mpeg") }
    else if eq_str(ext, "mp3") { Some("audio/mpeg") }
    else if eq_str(ext, "flac") { Some("audio/flac") }
    else if eq_str(ext, "wav") { Some("audio/wav") }
    else if eq_str(ext, "aac") { Some("audio/aac") }
    else if eq_str(ext, "ogg") { Some("audio/ogg") }
    else if eq_str(ext, "wma") { Some("audio/x-ms-wma") }
    else if eq_str(ext, "m4a") { Some("audio/mp4") }
    else if eq_str(ext, "opus") { Some("audio/opus") }
    else if eq_str(ext, "aiff") { Some("audio/aiff") }
    else if eq_str(ext, "jpg") { Some("image/jpeg") }
    else if eq_str(ext, "jpeg") { Some("image/jpeg") }
    else if eq_str(ext, "png") { Some("image/png") }
    else if eq_str(ext, "gif") { Some("image/gif") }
    else if eq_str(ext, "bmp") { Some("image/bmp") }
    else if eq_str(ext, "tiff") { Some("image/tiff") }
    else if eq_str(ext, "webp") { Some("image/webp") }
    else if eq_str(ext, "svg") { Some("image/svg+xml") }
    else { None }
}

/// The MIME type served for an extension, matched without regard to case.
pub open spec fn mime_for_extension(ext: Seq<char>) -> Seq<char> {
    match media_type(lowercase_of(ext)) {
        Some(m) => m,
        None => "application/octet-stream"@,
    }
}

/// Get MIME type for a file based on its extension.
pub fn get_mime_type_for_extension(extension: &str) -> (res: String)
    ensures
        res@ == mime_for_extension(extension@),
{
    let lower = lower_chars(chars_of(extension).as_slice());
    match lookup_media_type(lower.as_slice()) {
        Some(m) => owned(m),
        None => owned("application/octet-stream"),
    }
}

/// Check if a file extension is supported for media serving.
pub fn is_supported_media_extension(extension: &str) -> (res: bool)
    ensures
        res == (media_type(lowercase_of(extension@)) is Some),
{
    let lower = lower_chars(chars_of(extension).as_slice());
    lookup_media_type(lower.as_slice()).is_some()
}

/// An extension is supported exactly when it is served with a type other
/// than the generic binary one.
pub proof fn lemma_supported_iff_specific_type(ext: Seq<char>)
    ensures
        (media_type(lowercase_of(ext)) is Some) <==> mime_for_extension(ext) != "application/octet-stream"@,
{
    reveal_strlit("application/octet-stream");
    assert("application/octet-stream"@.len() == 24);
    reveal_strlit("video/x-matroska");
    reveal_strlit("video/mp4");
    reveal_strlit("video/x-msvideo");
    reveal_strlit("video/quicktime");
    reveal_strlit("video/x-ms-wmv");
    reveal_strlit("video/x-flv");
    reveal_strlit("video/webm");
    reveal_strlit("video/x-m4v");
    reveal_strlit("video/3gpp");
    reveal_strlit("video/mpeg");
    reveal_strlit("audio/mpeg");
    reveal_strlit("audio/flac");
    reveal_strlit("audio/wav");
    reveal_strlit("audio/aac");
    reveal_strlit("audio/ogg");
    reveal_strlit("audio/x-ms-wma");
    reveal_strlit("audio/mp4");
    reveal_strlit("audio/opus");
    reveal_strlit("audio/aiff");
    reveal_strlit("image/jpeg");
    reveal_strlit("image/png");
    reveal_strlit("image/gif");
    reveal_strlit("image/bmp");
    reveal_strlit("image/tiff");
    reveal_strlit("image/webp");
    reveal_strlit("image/svg+xml");
}

/// The supported media types, as pairs of a lower-case extension and the
/// MIME type it is served with.
pub open spec fn supported_media_types() -> Seq<(Seq<char>, Seq<char>)> {
    seq![
        ("mkv"@, "video/x-matroska"@),
        ("mp4"@, "video/mp4"@),
        ("avi"@, "video/x-msvideo"@),
        ("mov"@, "video/quicktime"@),
        ("wmv"@, "video/x-ms-wmv"@),
        ("flv"@, "video/x-flv"@),
        ("webm"@, "video/webm"@),
        ("m4v"@, "video/x-m4v"@),
        ("3gp"@, "video/3gpp"@),
        ("mpg"@, "video/mpeg"@),
        ("mpeg"@, "video/mpeg"@),
        ("mp3"@, "audio/mpeg"@),
        ("flac"@, "audio/flac"@),
        ("wav"@, "audio/wav"@),
        ("aac"@, "audio/aac"@),
        ("ogg"@, "audio/ogg"@),
        ("wma"@, "audio/x-ms-wma"@),
        ("m4a"@, "audio/mp4"@),
        ("opus"@, "audio/opus"@),
        ("aiff"@, "audio/aiff"@),
        ("jpg"@, "image/jpeg"@),
        ("jpeg"@, "image/jpeg"@),
        ("png"@, "image/png"@),
        ("gif"@, "image/gif"@),
        ("bmp"@, "image/bmp"@),
        ("tiff"@, "image/tiff"@),
        ("webp"@, "image/webp"@),
        ("svg"@, "image/svg+xml"@),
    ]
}

/// The MIME type of an extension is the one the table of supported media
/// types pairs with it, and an extension the table does not list has none:
/// `jpg` and `jpeg` are both `image/jpeg`, `mpg` and `mpeg` both
/// `video/mpeg`, and so on for every entry.
pub proof fn law_media_types_follow_the_table(ext: Seq<char>)
    ensures
        forall|i: int|
            0 <= i < supported_media_types().len() ==> media_type(#[trigger] supported_media_types()[i].0) == Some(
                supported_media_types()[i].1,
            ),
        media_type(ext) is Some <==> exists|i: int|
            0 <= i < supported_media_types().len() && #[trigger] supported_media_types()[i].0 == ext,
{
    reveal_strlit("mkv");
    reveal_strlit("mp4");
    reveal_strlit("avi");
    reveal_strlit("mov");
    reveal_strlit("wmv");
    reveal_strlit("flv");
    reveal_strlit("webm");
    reveal_strlit("m4v");
    reveal_strlit("3gp");
    reveal_strlit("mpg");
    reveal_strlit("mpeg");
    reveal_strlit("mp3");
    reveal_strlit("flac");
    reveal_strlit("wav");
    reveal_strlit("aac");
    reveal_strlit("ogg");
    reveal_strlit("wma");
    reveal_strlit("m4a");
    reveal_strlit("opus");
    reveal_strlit("aiff");
    reveal_strlit("jpg");
    reveal_strlit("jpeg");
    reveal_strlit("png");
    reveal_strlit("gif");
    reveal_strlit("bmp");
    reveal_strlit("tiff");
    reveal_strlit("webp");
    reveal_strlit("svg");
    let t = supported_media_types();
    assert(t.len() == 28);
    assert forall|i: int| 0 <= i < t.len() implies media_type(#[trigger] t[i].0) == Some(t[i].1) by {
        if i == 0 {
            assert(t[0] == ("mkv"@, "video/x-matroska"@));
            assert(media_type("mkv"@) == Some("video/x-matroska"@));
        } else if i == 1 {
            assert(t[1] == ("mp4"@, "video/mp4"@));
            assert("mp4"@[1] != "mkv"@[1]);
            assert(media_type("mp4"@) == Some("video/mp4"@));
        } else if i == 2 {
            assert(t[2] == ("avi"@, "video/x-msvideo"@));
            assert("avi"@[0] != "mkv"@[0]);
            assert("avi"@[0] != "mp4"@[0]);
            assert(media_type("avi"@) == Some("video/x-msvideo"@));
        } else if i == 3 {
            assert(t[3] == ("mov"@, "video/quicktime"@));
            assert("mov"@[1] != "mkv"@[1]);
            assert("mov"@[1] != "mp4"@[1]);
            assert("mov"@[0] != "avi"@[0]);
            assert(media_type("mov"@) == Some("video/quicktime"@));
        } else if i == 4 {
            assert(t[4] == ("wmv"@, "video/x-ms-wmv"@));
            assert("wmv"@[0] != "mkv"@[0]);
            assert("wmv"@[0] != "mp4"@[0]);
            assert("wmv"@[0] != "avi"@[0]);
            assert("wmv"@[0] != "mov"@[0]);
            assert(media_type("wmv"@) == Some("video/x-ms-wmv"@));
        } else if i == 5 {
            assert(t[5] == ("flv"@, "video/x-flv"@));
            assert("flv"@[0] != "mkv"@[0]);
            assert("flv"@[0] != "mp4"@[0]);
            assert("flv"@[0] != "avi"@[0]);
            assert("flv"@[0] != "mov"@[0]);
            assert("flv"@[0] != "wmv"@[0]);
            assert(media_type("flv"@) == Some("video/x-flv"@));
        } else if i == 6 {
            assert(t[6] == ("webm"@, "video/webm"@));
            assert("webm"@.len() != "mkv"@.len());
            assert("webm"@.len() != "mp4"@.len());
            assert("webm"@.len() != "avi"@.len());
            assert("webm"@.len() != "mov"@.len());
            assert("webm"@.len() != "wmv"@.len());
            assert("webm"@.len() != "flv"@.len());
            assert(media_type("webm"@) == Some("video/webm"@));
        } else if i == 7 {
            assert(t[7] == ("m4v"@, "video/x-m4v"@));
            assert("m4v"@[1] != "mkv"@[1]);
            assert("m4v"@[1] != "mp4"@[1]);
            assert("m4v"@[0] != "avi"@[0]);
            assert("m4v"@[1] != "mov"@[1]);
            assert("m4v"@[0] != "wmv"@[0]);
            assert("m4v"@[0] != "flv"@[0]);
            assert("m4v"@.len() != "webm"@.len());
            assert(media_type("m4v"@) == Some("video/x-m4v"@));
        } else if i == 8 {
            assert(t[8] == ("3gp"@, "video/3gpp"@));
            assert("3gp"@[0] != "mkv"@[0]);
            assert("3gp"@[0] != "mp4"@[0]);
            assert("3gp"@[0] != "avi"@[0]);
            assert("3gp"@[0] != "mov"@[0]);
            assert("3gp"@[0] != "wmv"@[0]);
            assert("3gp"@[0] != "flv"@[0]);
            assert("3gp"@[0] != "m4v"@[0]);
            assert("3gp"@.len() != "webm"@.len());
            assert(media_type("3gp"@) == Some("video/3gpp"@));
        } else if i == 9 {
            assert(t[9] == ("mpg"@, "video/mpeg"@));
            assert("mpg"@[1] != "mkv"@[1]);
            assert("mpg"@[2] != "mp4"@[2]);
            assert("mpg"@[0] != "avi"@[0]);
            assert("mpg"@[1] != "mov"@[1]);
            assert("mpg"@[0] != "wmv"@[0]);
            assert("mpg"@[0] != "flv"@[0]);
            assert("mpg"@[1] != "m4v"@[1]);
            assert("mpg"@[0] != "3gp"@[0]);
            assert("mpg"@.len() != "webm"@.len());
            assert(media_type("mpg"@) == Some("video/mpeg"@));
        } else if i == 10 {
            assert(t[10] == ("mpeg"@, "video/mpeg"@));
            assert("mpeg"@[0] != "webm"@[0]);
            assert("mpeg"@.len() != "mkv"@.len());
            assert("mpeg"@.len() != "mp4"@.len());
            assert("mpeg"@.len() != "avi"@.len());
            assert("mpeg"@.len() != "mov"@.len());
            assert("mpeg"@.len() != "wmv"@.len());
            assert("mpeg"@.len() != "flv"@.len());
            assert("mpeg"@.len() != "m4v"@.len());
            assert("mpeg"@.len() != "3gp"@.len());
            assert("mpeg"@.len() != "mpg"@.len());
            assert(media_type("mpeg"@) == Some("video/mpeg"@));
        } else if i == 11 {
            assert(t[11] == ("mp3"@, "audio/mpeg"@));
            assert("mp3"@[1] != "mkv"@[1]);
            assert("mp3"@[2] != "mp4"@[2]);
            assert("mp3"@[0] != "avi"@[0]);
            assert("mp3"@[1] != "mov"@[1]);
            assert("mp3"@[0] != "wmv"@[0]);
            assert("mp3"@[0] != "flv"@[0]);
            assert("mp3"@[1] != "m4v"@[1]);
            assert("mp3"@[0] != "3gp"@[0]);
            assert("mp3"@[2] != "mpg"@[2]);
            assert("mp3"@.len() != "webm"@.len());
            assert("mp3"@.len() != "mpeg"@.len());
            assert(media_type("mp3"@) == Some("audio/mpeg"@));
        } else if i == 12 {
            assert(t[12] == ("flac"@, "audio/flac"@));
            assert("flac"@[0] != "webm"@[0]);
            assert("flac"@[0] != "mpeg"@[0]);
            assert("flac"@.len() != "mkv"@.len());
            assert("flac"@.len() != "mp4"@.len());
            assert("flac"@.len() != "avi"@.len());
            assert("flac"@.len() != "mov"@.len());
            assert("flac"@.len() != "wmv"@.len());
            assert("flac"@.len() != "flv"@.len());
            assert("flac"@.len() != "m4v"@.len());
            assert("flac"@.len() != "3gp"@.len());
            assert("flac"@.len() != "mpg"@.len());
            assert("flac"@.len() != "mp3"@.len());
            assert(media_type("flac"@) == Some("audio/flac"@));
        } else if i == 13 {
            assert(t[13] == ("wav"@, "audio/wav"@));
            assert("wav"@[0] != "mkv"@[0]);
            assert("wav"@[0] != "mp4"@[0]);
            assert("wav"@[0] != "avi"@[0]);
            assert("wav"@[0] != "mov"@[0]);
            assert("wav"@[1] != "wmv"@[1]);
            assert("wav"@[0] != "flv"@[0]);
            assert("wav"@[0] != "m4v"@[0]);
            assert("wav"@[0] != "3gp"@[0]);
            assert("wav"@[0] != "mpg"@[0]);
            assert("wav"@[0] != "mp3"@[0]);
            assert("wav"@.len() != "webm"@.len());
            assert("wav"@.len() != "mpeg"@.len());
            assert("wav"@.len() != "flac"@.len());
            assert(media_type("wav"@) == Some("audio/wav"@));
        } else if i == 14 {
            assert(t[14] == ("aac"@, "audio/aac"@));
            assert("aac"@[0] != "mkv"@[0]);
            assert("aac"@[0] != "mp4"@[0]);
            assert("aac"@[1] != "avi"@[1]);
            assert("aac"@[0] != "mov"@[0]);
            assert("aac"@[0] != "wmv"@[0]);
            assert("aac"@[0] != "flv"@[0]);
            assert("aac"@[0] != "m4v"@[0]);
            assert("aac"@[0] != "3gp"@[0]);
            assert("aac"@[0] != "mpg"@[0]);
            assert("aac"@[0] != "mp3"@[0]);
            assert("aac"@[0] != "wav"@[0]);
            assert("aac"@.len() != "webm"@.len());
            assert("aac"@.len() != "mpeg"@.len());
            assert("aac"@.len() != "flac"@.len());
            assert(media_type("aac"@) == Some("audio/aac"@));
        } else if i == 15 {
            assert(t[15] == ("ogg"@, "audio/ogg"@));
            assert("ogg"@[0] != "mkv"@[0]);
            assert("ogg"@[0] != "mp4"@[0]);
            assert("ogg"@[0] != "avi"@[0]);
            assert("ogg"@[0] != "mov"@[0]);
            assert("ogg"@[0] != "wmv"@[0]);
            assert("ogg"@[0] != "flv"@[0]);
            assert("ogg"@[0] != "m4v"@[0]);
            assert("ogg"@[0] != "3gp"@[0]);
            assert("ogg"@[0] != "mpg"@[0]);
            assert("ogg"@[0] != "mp3"@[0]);
            assert("ogg"@[0] != "wav"@[0]);
            assert("ogg"@[0] != "aac"@[0]);
            assert("ogg"@.len() != "webm"@.len());
            assert("ogg"@.len() != "mpeg"@.len());
            assert("ogg"@.len() != "flac"@.len());
            assert(media_type("ogg"@) == Some("audio/ogg"@));
        } else if i == 16 {
            assert(t[16] == ("wma"@, "audio/x-ms-wma"@));
            assert("wma"@[0] != "mkv"@[0]);
            assert("wma"@[0] != "mp4"@[0]);
            assert("wma"@[0] != "avi"@[0]);
            assert("wma"@[0] != "mov"@[0]);
            assert("wma"@[2] != "wmv"@[2]);
            assert("wma"@[0] != "flv"@[0]);
            assert("wma"@[0] != "m4v"@[0]);
            assert("wma"@[0] != "3gp"@[0]);
            assert("wma"@[0] != "mpg"@[0]);
            assert("wma"@[0] != "mp3"@[0]);
            assert("wma"@[1] != "wav"@[1]);
            assert("wma"@[0] != "aac"@[0]);
            assert("wma"@[0] != "ogg"@[0]);
            assert("wma"@.len() != "webm"@.len());
            assert("wma"@.len() != "mpeg"@.len());
            assert("wma"@.len() != "flac"@.len());
            assert(media_type("wma"@) == Some("audio/x-ms-wma"@));
        } else if i == 17 {
            assert(t[17] == ("m4a"@, "audio/mp4"@));
            assert("m4a"@[1] != "mkv"@[1]);
            assert("m4a"@[1] != "mp4"@[1]);
            assert("m4a"@[0] != "avi"@[0]);
            assert("m4a"@[1] != "mov"@[1]);
            assert("m4a"@[0] != "wmv"@[0]);
            assert("m4a"@[0] != "flv"@[0]);
            assert("m4a"@[2] != "m4v"@[2]);
            assert("m4a"@[0] != "3gp"@[0]);
            assert("m4a"@[1] != "mpg"@[1]);
            assert("m4a"@[1] != "mp3"@[1]);
            assert("m4a"@[0] != "wav"@[0]);
            assert("m4a"@[0] != "aac"@[0]);
            assert("m4a"@[0] != "ogg"@[0]);
            assert("m4a"@[0] != "wma"@[0]);
            assert("m4a"@.len() != "webm"@.len());
            assert("m4a"@.len() != "mpeg"@.len());
            assert("m4a"@.len() != "flac"@.len());
            assert(media_type("m4a"@) == Some("audio/mp4"@));
        } else if i == 18 {
            assert(t[18] == ("opus"@, "audio/opus"@));
            assert("opus"@[0] != "webm"@[0]);
            assert("opus"@[0] != "mpeg"@[0]);
            assert("opus"@[0] != "flac"@[0]);
            assert("opus"@.len() != "mkv"@.len());
            assert("opus"@.len() != "mp4"@.len());
            assert("opus"@.len() != "avi"@.len());
            assert("opus"@.len() != "mov"@.len());
            assert("opus"@.len() != "wmv"@.len());
            assert("opus"@.len() != "flv"@.len());
            assert("opus"@.len() != "m4v"@.len());
            assert("opus"@.len() != "3gp"@.len());
            assert("opus"@.len() != "mpg"@.len());
            assert("opus"@.len() != "mp3"@.len());
            assert("opus"@.len() != "wav"@.len());
            assert("opus"@.len() != "aac"@.len());
            assert("opus"@.len() != "ogg"@.len());
            assert("opus"@.len() != "wma"@.len());
            assert("opus"@.len() != "m4a"@.len());
            assert(media_type("opus"@) == Some("audio/opus"@));
        } else if i == 19 {
            assert(t[19] == ("aiff"@, "audio/aiff"@));
            assert("aiff"@[0] != "webm"@[0]);
            assert("aiff"@[0] != "mpeg"@[0]);
            assert("aiff"@[0] != "flac"@[0]);
            assert("aiff"@[0] != "opus"@[0]);
            assert("aiff"@.len() != "mkv"@.len());
            assert("aiff"@.len() != "mp4"@.len());
            assert("aiff"@.len() != "avi"@.len());
            assert("aiff"@.len() != "mov"@.len());
            assert("aiff"@.len() != "wmv"@.len());
            assert("aiff"@.len() != "flv"@.len());
            assert("aiff"@.len() != "m4v"@.len());
            assert("aiff"@.len() != "3gp"@.len());
            assert("aiff"@.len() != "mpg"@.len());
            assert("aiff"@.len() != "mp3"@.len());
            assert("aiff"@.len() != "wav"@.len());
            assert("aiff"@.len() != "aac"@.len());
            assert("aiff"@.len() != "ogg"@.len());
            assert("aiff"@.len() != "wma"@.len());
            assert("aiff"@.len() != "m4a"@.len());
            assert(media_type("aiff"@) == Some("audio/aiff"@));
        } else if i == 20 {
            assert(t[20] == ("jpg"@, "image/jpeg"@));
            assert("jpg"@[0] != "mkv"@[0]);
            assert("jpg"@[0] != "mp4"@[0]);
            assert("jpg"@[0] != "avi"@[0]);
            assert("jpg"@[0] != "mov"@[0]);
            assert("jpg"@[0] != "wmv"@[0]);
            assert("jpg"@[0] != "flv"@[0]);
            assert("jpg"@[0] != "m4v"@[0]);
            assert("jpg"@[0] != "3gp"@[0]);
            assert("jpg"@[0] != "mpg"@[0]);
            assert("jpg"@[0] != "mp3"@[0]);
            assert("jpg"@[0] != "wav"@[0]);
            assert("jpg"@[0] != "aac"@[0]);
            assert("jpg"@[0] != "ogg"@[0]);
            assert("jpg"@[0] != "wma"@[0]);
            assert("jpg"@[0] != "m4a"@[0]);
            assert("jpg"@.len() != "webm"@.len());
            assert("jpg"@.len() != "mpeg"@.len());
            assert("jpg"@.len() != "flac"@.len());
            assert("jpg"@.len() != "opus"@.len());
            assert("jpg"@.len() != "aiff"@.len());
            assert(media_type("jpg"@) == Some("image/jpeg"@));
        } else if i == 21 {
            assert(t[21] == ("jpeg"@, "image/jpeg"@));
            assert("jpeg"@[0] != "webm"@[0]);
            assert("jpeg"@[0] != "mpeg"@[0]);
            assert("jpeg"@[0] != "flac"@[0]);
            assert("jpeg"@[0] != "opus"@[0]);
            assert("jpeg"@[0] != "aiff"@[0]);
            assert("jpeg"@.len() != "mkv"@.len());
            assert("jpeg"@.len() != "mp4"@.len());
            assert("jpeg"@.len() != "avi"@.len());
            assert("jpeg"@.len() != "mov"@.len());
            assert("jpeg"@.len() != "wmv"@.len());
            assert("jpeg"@.len() != "flv"@.len());
            assert("jpeg"@.len() != "m4v"@.len());
            assert("jpeg"@.len() != "3gp"@.len());
            assert("jpeg"@.len() != "mpg"@.len());
            assert("jpeg"@.len() != "mp3"@.len());
            assert("jpeg"@.len() != "wav"@.len());
            assert("jpeg"@.len() != "aac"@.len());
            assert("jpeg"@.len() != "ogg"@.len());
            assert("jpeg"@.len() != "wma"@.len());
            assert("jpeg"@.len() != "m4a"@.len());
            assert("jpeg"@.len() != "jpg"@.len());
            assert(media_type("jpeg"@) == Some("image/jpeg"@));
        } else if i == 22 {
            assert(t[22] == ("png"@, "image/png"@));
            assert("png"@[0] != "mkv"@[0]);
            assert("png"@[0] != "mp4"@[0]);
            assert("png"@[0] != "avi"@[0]);
            assert("png"@[0] != "mov"@[0]);
            assert("png"@[0] != "wmv"@[0]);
            assert("png"@[0] != "flv"@[0]);
            assert("png"@[0] != "m4v"@[0]);
            assert("png"@[0] != "3gp"@[0]);
            assert("png"@[0] != "mpg"@[0]);
            assert("png"@[0] != "mp3"@[0]);
            assert("png"@[0] != "wav"@[0]);
            assert("png"@[0] != "aac"@[0]);
            assert("png"@[0] != "ogg"@[0]);
            assert("png"@[0] != "wma"@[0]);
            assert("png"@[0] != "m4a"@[0]);
            assert("png"@[0] != "jpg"@[0]);
            assert("png"@.len() != "webm"@.len());
            assert("png"@.len() != "mpeg"@.len());
            assert("png"@.len() != "flac"@.len());
            assert("png"@.len() != "opus"@.len());
            assert("png"@.len() != "aiff"@.len());
            assert("png"@.len() != "jpeg"@.len());
            assert(media_type("png"@) == Some("image/png"@));
        } else if i == 23 {
            assert(t[23] == ("gif"@, "image/gif"@));
            assert("gif"@[0] != "mkv"@[0]);
            assert("gif"@[0] != "mp4"@[0]);
            assert("gif"@[0] != "avi"@[0]);
            assert("gif"@[0] != "mov"@[0]);
            assert("gif"@[0] != "wmv"@[0]);
            assert("gif"@[0] != "flv"@[0]);
            assert("gif"@[0] != "m4v"@[0]);
            assert("gif"@[0] != "3gp"@[0]);
            assert("gif"@[0] != "mpg"@[0]);
            assert("gif"@[0] != "mp3"@[0]);
            assert("gif"@[0] != "wav"@[0]);
            assert("gif"@[0] != "aac"@[0]);
            assert("gif"@[0] != "ogg"@[0]);
            assert("gif"@[0] != "wma"@[0]);
            assert("gif"@[0] != "m4a"@[0]);
            assert("gif"@[0] != "jpg"@[0]);
            assert("gif"@[0] != "png"@[0]);
            assert("gif"@.len() != "webm"@.len());
            assert("gif"@.len() != "mpeg"@.len());
            assert("gif"@.len() != "flac"@.len());
            assert("gif"@.len() != "opus"@.len());
            assert("gif"@.len() != "aiff"@.len());
            assert("gif"@.len() != "jpeg"@.len());
            assert(media_type("gif"@) == Some("image/gif"@));
        } else if i == 24 {
            assert(t[24] == ("bmp"@, "image/bmp"@));
            assert("bmp"@[0] != "mkv"@[0]);
            assert("bmp"@[0] != "mp4"@[0]);
            assert("bmp"@[0] != "avi"@[0]);
            assert("bmp"@[0] != "mov"@[0]);
            assert("bmp"@[0] != "wmv"@[0]);
            assert("bmp"@[0] != "flv"@[0]);
            assert("bmp"@[0] != "m4v"@[0]);
            assert("bmp"@[0] != "3gp"@[0]);
            assert("bmp"@[0] != "mpg"@[0]);
            assert("bmp"@[0] != "mp3"@[0]);
            assert("bmp"@[0] != "wav"@[0]);
            assert("bmp"@[0] != "aac"@[0]);
            assert("bmp"@[0] != "ogg"@[0]);
            assert("bmp"@[0] != "wma"@[0]);
            assert("bmp"@[0] != "m4a"@[0]);
            assert("bmp"@[0] != "jpg"@[0]);
            assert("bmp"@[0] != "png"@[0]);
            assert("bmp"@[0] != "gif"@[0]);
            assert("bmp"@.len() != "webm"@.len());
            assert("bmp"@.len() != "mpeg"@.len());
            assert("bmp"@.len() != "flac"@.len());
            assert("bmp"@.len() != "opus"@.len());
            assert("bmp"@.len() != "aiff"@.len());
            assert("bmp"@.len() != "jpeg"@.len());
            assert(media_type("bmp"@) == Some("image/bmp"@));
        } else if i == 25 {
            assert(t[25] == ("tiff"@, "image/tiff"@));
            assert("tiff"@[0] != "webm"@[0]);
            assert("tiff"@[0] != "mpeg"@[0]);
            assert("tiff"@[0] != "flac"@[0]);
            assert("tiff"@[0] != "opus"@[0]);
            assert("tiff"@[0] != "aiff"@[0]);
            assert("tiff"@[0] != "jpeg"@[0]);
            assert("tiff"@.len() != "mkv"@.len());
            assert("tiff"@.len() != "mp4"@.len());
            assert("tiff"@.len() != "avi"@.len());
            assert("tiff"@.len() != "mov"@.len());
            assert("tiff"@.len() != "wmv"@.len());
            assert("tiff"@.len() != "flv"@.len());
            assert("tiff"@.len() != "m4v"@.len());
            assert("tiff"@.len() != "3gp"@.len());
            assert("tiff"@.len() != "mpg"@.len());
            assert("tiff"@.len() != "mp3"@.len());
            assert("tiff"@.len() != "wav"@.len());
            assert("tiff"@.len() != "aac"@.len());
            assert("tiff"@.len() != "ogg"@.len());
            assert("tiff"@.len() != "wma"@.len());
            assert("tiff"@.len() != "m4a"@.len());
            assert("tiff"@.len() != "jpg"@.len());
            assert("tiff"@.len() != "png"@.len());
            assert("tiff"@.len() != "gif"@.len());
            assert("tiff"@.len() != "bmp"@.len());
            assert(media_type("tiff"@) == Some("image/tiff"@));
        } else if i == 26 {
            assert(t[26] == ("webp"@, "image/webp"@));
            assert("webp"@[3] != "webm"@[3]);
            assert("webp"@[0] != "mpeg"@[0]);
            assert("webp"@[0] != "flac"@[0]);
            assert("webp"@[0] != "opus"@[0]);
            assert("webp"@[0] != "aiff"@[0]);
            assert("webp"@[0] != "jpeg"@[0]);
            assert("webp"@[0] != "tiff"@[0]);
            assert("webp"@.len() != "mkv"@.len());
            assert("webp"@.len() != "mp4"@.len());
            assert("webp"@.len() != "avi"@.len());
            assert("webp"@.len() != "mov"@.len());
            assert("webp"@.len() != "wmv"@.len());
            assert("webp"@.len() != "flv"@.len());
            assert("webp"@.len() != "m4v"@.len());
            assert("webp"@.len() != "3gp"@.len());
            assert("webp"@.len() != "mpg"@.len());
            assert("webp"@.len() != "mp3"@.len());
            assert("webp"@.len() != "wav"@.len());
            assert("webp"@.len() != "aac"@.len());
            assert("webp"@.len() != "ogg"@.len());
            assert("webp"@.len() != "wma"@.len());
            assert("webp"@.len() != "m4a"@.len());
            assert("webp"@.len() != "jpg"@.len());
            assert("webp"@.len() != "png"@.len());
            assert("webp"@.len() != "gif"@.len());
            assert("webp"@.len() != "bmp"@.len());
            assert(media_type("webp"@) == Some("image/webp"@));
        } else if i == 27 {
            assert(t[27] == ("svg"@, "image/svg+xml"@));
            assert("svg"@[0] != "mkv"@[0]);
            assert("svg"@[0] != "mp4"@[0]);
            assert("svg"@[0] != "avi"@[0]);
            assert("svg"@[0] != "mov"@[0]);
            assert("svg"@[0] != "wmv"@[0]);
            assert("svg"@[0] != "flv"@[0]);
            assert("svg"@[0] != "m4v"@[0]);
            assert("svg"@[0] != "3gp"@[0]);
            assert("svg"@[0] != "mpg"@[0]);
            assert("svg"@[0] != "mp3"@[0]);
            assert("svg"@[0] != "wav"@[0]);
            assert("svg"@[0] != "aac"@[0]);
            assert("svg"@[0] != "ogg"@[0]);
            assert("svg"@[0] != "wma"@[0]);
            assert("svg"@[0] != "m4a"@[0]);
            assert("svg"@[0] != "jpg"@[0]);
            assert("svg"@[0] != "png"@[0]);
            assert("svg"@[0] != "gif"@[0]);
            assert("svg"@[0] != "bmp"@[0]);
            assert("svg"@.len() != "webm"@.len());
            assert("svg"@.len() != "mpeg"@.len());
            assert("svg"@.len() != "flac"@.len());
            assert("svg"@.len() != "opus"@.len());
            assert("svg"@.len() != "aiff"@.len());
            assert("svg"@.len() != "jpeg"@.len());
            assert("svg"@.len() != "tiff"@.len());
            assert("svg"@.len() != "webp"@.len());
            assert(media_type("svg"@) == Some("image/svg+xml"@));
        }
    }
    if media_type(ext) is Some {
        if ext == "mkv"@ {
            assert(t[0].0 == ext);
        } else if ext == "mp4"@ {
            assert(t[1].0 == ext);
        } else if ext == "avi"@ {
            assert(t[2].0 == ext);
        } else if ext == "mov"@ {
            assert(t[3].0 == ext);
        } else if ext == "wmv"@ {
            assert(t[4].0 == ext);
        } else if ext == "flv"@ {
            assert(t[5].0 == ext);
        } else if ext == "webm"@ {
            assert(t[6].0 == ext);
        } else if ext == "m4v"@ {
            assert(t[7].0 == ext);
        } else if ext == "3gp"@ {
            assert(t[8].0 == ext);
        } else if ext == "mpg"@ {
            assert(t[9].0 == ext);
        } else if ext == "mpeg"@ {
            assert(t[10].0 == ext);
        } else if ext == "mp3"@ {
            assert(t[11].0 == ext);
        } else if ext == "flac"@ {
            assert(t[12].0 == ext);
        } else if ext == "wav"@ {
            assert(t[13].0 == ext);
        } else if ext == "aac"@ {
            assert(t[14].0 == ext);
        } else if ext == "ogg"@ {
            assert(t[15].0 == ext);
        } else if ext == "wma"@ {
            assert(t[16].0 == ext);
        } else if ext == "m4a"@ {
            assert(t[17].0 == ext);
        } else if ext == "opus"@ {
            assert(t[18].0 == ext);
        } else if ext == "aiff"@ {
            assert(t[19].0 == ext);
        } else if ext == "jpg"@ {
            assert(t[20].0 == ext);
        } else if ext == "jpeg"@ {
            assert(t[21].0 == ext);
        } else if ext == "png"@ {
            assert(t[22].0 == ext);
        } else if ext == "gif"@ {
            assert(t[23].0 == ext);
        } else if ext == "bmp"@ {
            assert(t[24].0 == ext);
        } else if ext == "tiff"@ {
            assert(t[25].0 == ext);
        } else if ext == "webp"@ {
            assert(t[26].0 == ext);
        } else if ext == "svg"@ {
            assert(t[27].0 == ext);
        }
    }
    if exists|i: int| 0 <= i < t.len() && #[trigger] t[i].0 == ext {
        let i = choose|i: int| 0 <= i < t.len() && #[trigger] t[i].0 == ext;
        assert(media_type(t[i].0) == Some(t[i].1));
    }
}

// ---------------------------------------------------------------------------
// File-system managers
// ---------------------------------------------------------------------------

/// The result of the common path validation: `None` when the path is
/// acceptable, else the reason it is refused.
pub open spec fn common_path_problem(p: Seq<char>) -> Option<Seq<char>> {
    if p.contains('\0') {
        Some("Path contains null bytes"@)
    } else if utf8_len(p) > 4096 {
        Some("Path is too long"@)
    } else if contains(p, ".."@) {
        Some("Path contains directory traversal"@)
    } else {
        None
    }
}

/// Whether two names are the same text, with or without regard to case.
pub open spec fn same_name(a: Seq<char>, b: Seq<char>, case_sensitive: bool) -> bool {
    if case_sensitive {
        a == b
    } else {
        lowercase_of(a) == lowercase_of(b)
    }
}

/// Whether two paths are the same path: with regard to case, component by
/// component (`Path == Path`, so a trailing or doubled separator or a `.`
/// part makes no difference); without, as lower-case text.
pub open spec fn same_path(a: Seq<char>, b: Seq<char>, case_sensitive: bool) -> bool {
    if case_sensitive {
        components(a) == components(b)
    } else {
        lowercase_of(a) == lowercase_of(b)
    }
}

/// Whether the path's extension is one of `exts`, with or without regard to
/// case.
pub open spec fn has_listed_extension(
    p: Seq<char>,
    exts: Seq<Seq<char>>,
    case_sensitive: bool,
    windows: bool,
) -> bool {
    match extension(p, windows) {
        Some(e) => exists|i: int| 0 <= i < exts.len() && same_name(e, #[trigger] exts[i], case_sensitive),
        None => false,
    }
}

/// Whether `e` equals `allowed`, with or without regard to case.
fn same_text(e: &[char], allowed: &str, case_sensitive: bool) -> (res: bool)
    ensures
        res == same_name(e@, allowed@, case_sensitive),
{
    let a = chars_of(allowed);
    if case_sensitive {
        crate::text::same_chars(e, a.as_slice())
    } else {
        let le = lower_chars(e);
        let la = lower_chars(a.as_slice());
        crate::text::same_chars(le.as_slice(), la.as_slice())
    }
}

/// Whether the extension `e` is one of `extensions`.
pub(crate) fn extension_listed(e: &[char], extensions: &[String], case_sensitive: bool) -> (res: bool)
    ensures
        res == exists|i: int| 0 <= i < extensions@.len() && same_name(e@, #[trigger] texts(extensions@)[i], case_sensitive),
{
    let mut i: usize = 0;
    while i < extensions.len()
        invariant
            i <= extensions.len(),
            forall|j: int| 0 <= j < i ==> !same_name(e@, #[trigger] texts(extensions@)[j], case_sensitive),
        decreases extensions.len() - i,
    {
        if same_text(e, extensions[i].as_str(), case_sensitive) {
            assert(same_name(e@, texts(extensions@)[i as int], case_sensitive));
            return true;
        }
        i = i + 1;
    }
    false
}

/// File-system operations whose answer depends on the platform's rules.
pub trait FileSystemManager {
    /// Normalize a path for the current platform.
    fn normalize_path(&self, path: &str) -> String;

    /// Check if two paths refer to the same file (handles case sensitivity).
    fn paths_equal(&self, path1: &str, path2: &str) -> bool;

    /// Validate that a path is safe to access.
    fn validate_path(&self, path: &str) -> Result<(), FileSystemError>;

    /// Check if a file matches the given extensions.
    fn matches_extension(&self, path: &str, extensions: &[String]) -> bool;
}

/// Base implementation of the file-system rules.
pub struct BaseFileSystemManager {
    /// Whether the file system is case-sensitive.
    pub case_sensitive: bool,
}

impl BaseFileSystemManager {
    /// Create a new base file system manager.
    pub fn new(case_sensitive: bool) -> (res: Self)
        ensures
            res.case_sensitive == case_sensitive,
    {
        BaseFileSystemManager { case_sensitive }
    }

    /// Common path validation logic: no NUL character, at most 4096
    /// bytes, no `..`.
    pub fn validate_path_common(&self, path: &str) -> (res: Result<(), FileSystemError>)
        ensures
            match common_path_problem(path@) {
                None => res is Ok,
                Some(reason) => res matches Err(FileSystemError::InvalidPath { path: p, reason: r })
                    && p@ == path@ && r@ == reason,
            },
    {
        let p = chars_of(path);
        let mut i: usize = 0;
        while i < p.len()
            invariant
                i <= p.len(),
                p@ == path@,
                forall|j: int| 0 <= j < i ==> p@[j] != '\0',
            decreases p.len() - i,
        {
            if p[i] == '\0' {
                assert(p@.contains('\0'));
                return Err(FileSystemError::InvalidPath {
                    path: owned(path),
                    reason: owned("Path contains null bytes"),
                });
            }
            i = i + 1;
        }
        if utf8_len_exceeds(p.as_slice(), 4096) {
            return Err(FileSystemError::InvalidPath {
                path: owned(path),
                reason: owned("Path is too long"),
            });
        }
        let dots = chars_of("..");
        if has_substring(p.as_slice(), dots.as_slice()) {
            return Err(FileSystemError::InvalidPath {
                path: owned(path),
                reason: owned("Path contains directory traversal"),
            });
        }
        Ok(())
    }

    /// Whether two paths are the same, by this manager's case rule: part by
    /// part with regard to case, as lower-case text without.
    pub fn paths_equal(&self, path1: &str, path2: &str) -> (res: bool)
        ensures
            res == same_path(path1@, path2@, self.case_sensitive),
    {
        if self.case_sensitive {
            same_path_components(path1, path2)
        } else {
            same_text(chars_of(path1).as_slice(), path2, false)
        }
    }

    /// Whether the path's extension is one of `extensions`.
    pub fn matches_extension(&self, path: &str, extensions: &[String]) -> (res: bool)
        ensures
            res == has_listed_extension(path@, texts(extensions@), self.case_sensitive, false),
    {
        match extension_of(chars_of(path).as_slice(), false) {
            Some(e) => extension_listed(e.as_slice(), extensions, self.case_sensitive),
            None => false,
        }
    }

    /// The path unchanged.
    pub fn normalize_path(&self, path: &str) -> (res: String)
        ensures
            res@ == path@,
    {
        owned(path)
    }
}

impl FileSystemManager for BaseFileSystemManager {
    fn normalize_path(&self, path: &str) -> (res: String)
        ensures
            res@ == path@,
    {
        BaseFileSystemManager::normalize_path(self, path)
    }

    fn paths_equal(&self, path1: &str, path2: &str) -> (res: bool)
        ensures
            res == same_path(path1@, path2@, self.case_sensitive),
    {
        BaseFileSystemManager::paths_equal(self, path1, path2)
    }

    fn validate_path(&self, path: &str) -> (res: Result<(), FileSystemError>)
        ensures
            match common_path_problem(path@) {
                None => res is Ok,
                Some(reason) => res matches Err(FileSystemError::InvalidPath { path: p, reason: r })
                    && p@ == path@ && r@ == reason,
            },
    {
        self.validate_path_common(path)
    }

    fn matches_extension(&self, path: &str, extensions: &[String]) -> (res: bool)
        ensures
            res == has_listed_extension(path@, texts(extensions@), self.case_sensitive, false),
    {
        BaseFileSystemManager::matches_extension(self, path, extensions)
    }
}

/// The file-system manager of a platform.
pub enum PlatformFileSystemManager {
    Base(BaseFileSystemManager),
    Windows(WindowsFileSystemManager),
}

/// Create the file-system manager for an operating system: the Windows rules
/// on Windows, case-sensitive base rules on macOS and Linux.
pub fn create_platform_filesystem_manager(os: OsType) -> (res: PlatformFileSystemManager)
    ensures
        os == OsType::Windows ==> (res matches PlatformFileSystemManager::Windows(w) && !w.base.case_sensitive),
        os != OsType::Windows ==> (res matches PlatformFileSystemManager::Base(b) && b.case_sensitive),
{
    match os {
        OsType::Windows => PlatformFileSystemManager::Windows(WindowsFileSystemManager::new()),
        OsType::MacOS => PlatformFileSystemManager::Base(BaseFileSystemManager::new(true)),
        OsType::Linux => PlatformFileSystemManager::Base(BaseFileSystemManager::new(true)),
    }
}

impl PlatformFileSystemManager {
    /// The reason a path is refused by this platform's rules, if it is.
    pub open spec fn path_problem(&self, p: Seq<char>) -> Option<Seq<char>> {
        match self {
            PlatformFileSystemManager::Base(_) => common_path_problem(p),
            PlatformFileSystemManager::Windows(_) => windows_path_problem(p),
        }
    }

    /// A path as this platform writes it: unchanged by the base rules,
    /// with Windows separators and redundant parts resolved on Windows.
    pub open spec fn normalized(&self, p: Seq<char>) -> Seq<char> {
        match self {
            PlatformFileSystemManager::Base(_) => p,
            PlatformFileSystemManager::Windows(_) => normalized_windows(p),
        }
    }

    /// Whether two paths name the same file by this platform's rules.
    pub open spec fn same_file(&self, a: Seq<char>, b: Seq<char>) -> bool {
        match self {
            PlatformFileSystemManager::Base(m) => same_path(a, b, m.case_sensitive),
            PlatformFileSystemManager::Windows(_) => lowercase_of(normalized_windows(a)) == lowercase_of(
                normalized_windows(b),
            ),
        }
    }

    /// Whether a path's extension is one of `exts` by this platform's rules.
    pub open spec fn extension_listed(&self, p: Seq<char>, exts: Seq<Seq<char>>) -> bool {
        match self {
            PlatformFileSystemManager::Base(m) => has_listed_extension(p, exts, m.case_sensitive, false),
            PlatformFileSystemManager::Windows(_) => has_listed_extension(p, exts, false, true),
        }
    }

    /// Validate a path by this platform's rules.
    pub fn validate_path(&self, path: &str) -> (res: Result<(), FileSystemError>)
        ensures
            match self.path_problem(path@) {
                None => res is Ok,
                Some(reason) => res matches Err(FileSystemError::InvalidPath { path: p, reason: r })
                    && p@ == path@ && r@ == reason,
            },
    {
        match self {
            PlatformFileSystemManager::Base(b) => b.validate_path_common(path),
            PlatformFileSystemManager::Windows(w) => w.validate_windows_path(path),
        }
    }
}

impl FileSystemManager for PlatformFileSystemManager {
    fn normalize_path(&self, path: &str) -> (res: String)
        ensures
            res@ == self.normalized(path@),
    {
        match self {
            PlatformFileSystemManager::Base(b) => b.normalize_path(path),
            PlatformFileSystemManager::Windows(w) => w.normalize_windows_path(path),
        }
    }

    fn paths_equal(&self, path1: &str, path2: &str) -> (res: bool)
        ensures
            res == self.same_file(path1@, path2@),
    {
        match self {
            PlatformFileSystemManager::Base(b) => b.paths_equal(path1, path2),
            PlatformFileSystemManager::Windows(w) => w.paths_equal(path1, path2),
        }
    }

    fn validate_path(&self, path: &str) -> (res: Result<(), FileSystemError>)
        ensures
            match self.path_problem(path@) {
                None => res is Ok,
                Some(reason) => res matches Err(FileSystemError::InvalidPath { path: p, reason: r })
                    && p@ == path@ && r@ == reason,
            },
    {
        PlatformFileSystemManager::validate_path(self, path)
    }

    fn matches_extension(&self, path: &str, extensions: &[String]) -> (res: bool)
        ensures
            res == self.extension_listed(path@, texts(extensions@)),
    {
        match self {
            PlatformFileSystemManager::Base(b) => b.matches_extension(path, extensions),
            PlatformFileSystemManager::Windows(w) => w.matches_extension(path, extensions),
        }
    }
}

} // verus!
