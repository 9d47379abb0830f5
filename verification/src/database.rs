//! Media file records as the database stores them, database statistics, and
//! the health assessment made from integrity and consistency checks.
use vstd::prelude::*;
use crate::clock::{now, Timestamp};
use crate::path::{file_name, file_name_of};
use crate::text::{around_decimal, chars_of, concat2, decimal, owned, string_of};

verus! {

/// Media file record for database storage.
#[derive(Debug, Clone)]
pub struct MediaFile {
    pub id: Option<i64>,
    pub path: String,
    pub filename: String,
    pub size: u64,
    pub modified: Timestamp,
    pub mime_type: String,
    /// Media duration in milliseconds.
    pub duration_ms: Option<u64>,
    pub title: Option<String>,
    pub artist: Option<String>,
    pub album: Option<String>,
    pub created_at: Timestamp,
    pub updated_at: Timestamp,
}

/// The content of a media file record.
pub struct MediaFileView {
    pub id: Option<i64>,
    pub path: Seq<char>,
    pub filename: Seq<char>,
    pub size: u64,
    pub modified: Timestamp,
    pub mime_type: Seq<char>,
    pub duration_ms: Option<u64>,
    pub title: Option<Seq<char>>,
    pub artist: Option<Seq<char>>,
    pub album: Option<Seq<char>>,
    pub created_at: Timestamp,
    pub updated_at: Timestamp,
}

/// The view of an optional string.
pub open spec fn opt_text(o: Option<String>) -> Option<Seq<char>> {
    match o {
        Some(s) => Some(s@),
        None => None,
    }
}

impl View for MediaFile {
    type V = MediaFileView;

    open spec fn view(&self) -> MediaFileView {
        MediaFileView {
            id: self.id,
            path: self.path@,
            filename: self.filename@,
            size: self.size,
            modified: self.modified,
            mime_type: self.mime_type@,
            duration_ms: self.duration_ms,
            title: opt_text(self.title),
            artist: opt_text(self.artist),
            album: opt_text(self.album),
            created_at: self.created_at,
            updated_at: self.updated_at,
        }
    }
}

/// The views of a list of media files.
pub open spec fn file_views(s: Seq<MediaFile>) -> Seq<MediaFileView> {
    s.map_values(|f: MediaFile| f@)
}

/// The name of the file a path leads to, or nothing.
pub open spec fn name_of_path(p: Seq<char>) -> Seq<char> {
    match file_name(p, false) {
        Some(n) => n,
        None => Seq::empty(),
    }
}

fn copy_opt(o: &Option<String>) -> (res: Option<String>)
    ensures
        opt_text(res) == opt_text(*o),
{
    match o {
        Some(s) => Some(s.clone()),
        None => None,
    }
}

impl MediaFile {
    /// A new record for the file at `path`: no identifier yet, its name taken
    /// from the path, no media metadata, and the modification, creation and
    /// update times all set to now.
    pub fn new(path: String, size: u64, mime_type: String) -> (res: MediaFile)
        ensures
            res.id is None,
            res.path@ == path@,
            res.filename@ == name_of_path(path@),
            res.size == size,
            res.mime_type@ == mime_type@,
            res.duration_ms is None,
            res.title is None && res.artist is None && res.album is None,
            res.modified == res.created_at && res.created_at == res.updated_at,
            res.created_at.wf(),
    {
        let filename = match file_name_of(chars_of(path.as_str()).as_slice(), false) {
            Some(n) => string_of(n.as_slice()),
            None => String::new(),
        };
        let t = now();
        MediaFile {
            id: None,
            path,
            filename,
            size,
            modified: t,
            mime_type,
            duration_ms: None,
            title: None,
            artist: None,
            album: None,
            created_at: t,
            updated_at: t,
        }
    }

    /// A copy of this record.
    pub fn copy(&self) -> (res: MediaFile)
        ensures
            res@ == self@,
    {
        MediaFile {
            id: self.id,
            path: self.path.clone(),
            filename: self.filename.clone(),
            size: self.size,
            modified: self.modified,
            mime_type: self.mime_type.clone(),
            duration_ms: self.duration_ms,
            title: copy_opt(&self.title),
            artist: copy_opt(&self.artist),
            album: copy_opt(&self.album),
            created_at: self.created_at,
            updated_at: self.updated_at,
        }
    }
}

/// Database statistics.
#[derive(Debug, Clone, Copy, PartialEq, Eq, Structural)]
pub struct DatabaseStats {
    pub total_files: usize,
    pub total_size: u64,
    pub database_size: u64,
}

/// How serious a database issue is.
#[derive(Debug, Clone, Copy, PartialEq, Eq, Structural)]
pub enum IssueSeverity {
    Info,
    Warning,
    Error,
    Critical,
}

/// A problem found in the database.
#[derive(Debug, Clone)]
pub struct DatabaseIssue {
    pub severity: IssueSeverity,
    pub description: String,
    pub table_affected: Option<String>,
    pub suggested_action: String,
}

/// The content of a database issue.
pub struct IssueView {
    pub severity: IssueSeverity,
    pub description: Seq<char>,
    pub table_affected: Option<Seq<char>>,
    pub suggested_action: Seq<char>,
}

impl View for DatabaseIssue {
    type V = IssueView;

    open spec fn view(&self) -> IssueView {
        IssueView {
            severity: self.severity,
            description: self.description@,
            table_affected: opt_text(self.table_affected),
            suggested_action: self.suggested_action@,
        }
    }
}

/// The views of a list of issues.
pub open spec fn issue_views(s: Seq<DatabaseIssue>) -> Seq<IssueView> {
    s.map_values(|i: DatabaseIssue| i@)
}

/// An issue from its parts.
pub open spec fn issue(
    severity: IssueSeverity,
    description: Seq<char>,
    table: Option<Seq<char>>,
    action: Seq<char>,
) -> IssueView {
    IssueView { severity, description, table_affected: table, suggested_action: action }
}

/// The outcome of a database health check.
#[derive(Debug, Clone)]
pub struct DatabaseHealth {
    pub is_healthy: bool,
    pub corruption_detected: bool,
    pub integrity_check_passed: bool,
    pub issues: Vec<DatabaseIssue>,
    pub repair_attempted: bool,
    pub repair_successful: bool,
}

/// The issue recorded when the integrity check fails.
pub open spec fn integrity_failed_issue() -> IssueView {
    issue(
        IssueSeverity::Critical,
        "Database integrity check failed"@,
        None,
        "Attempt database repair or restore from backup"@,
    )
}

/// Whether the database file is large for the number of records: over ten
/// kilobytes per record.
pub open spec fn oversized(stats: DatabaseStats) -> bool {
    stats.total_files > 0 && stats.database_size / (stats.total_files as u64) > 10000
}

impl DatabaseHealth {
    /// The health after the integrity check: healthy and uncorrupted when it
    /// passed; corrupted with a critical issue when it failed; unhealthy with
    /// an error issue when it could not run.
    pub fn after_integrity_check(outcome: Result<bool, String>) -> (res: DatabaseHealth)
        ensures
            !res.repair_attempted && !res.repair_successful,
            match outcome {
                Ok(true) => res.is_healthy && !res.corruption_detected && res.integrity_check_passed
                    && res.issues@.len() == 0,
                Ok(false) => !res.is_healthy && res.corruption_detected && !res.integrity_check_passed
                    && issue_views(res.issues@) == seq![integrity_failed_issue()],
                Err(e) => !res.is_healthy && !res.corruption_detected && !res.integrity_check_passed
                    && issue_views(res.issues@) == seq![
                        issue(
                            IssueSeverity::Error,
                            "Failed to run integrity check: "@ + e@,
                            None,
                            "Check database file permissions and disk space"@,
                        ),
                    ],
            },
    {
        let mut health = DatabaseHealth {
            is_healthy: true,
            corruption_detected: false,
            integrity_check_passed: false,
            issues: Vec::new(),
            repair_attempted: false,
            repair_successful: false,
        };
        match outcome {
            Ok(ok) => {
                health.integrity_check_passed = ok;
                if !ok {
                    health.is_healthy = false;
                    health.corruption_detected = true;
                    health.issues.push(DatabaseIssue {
                        severity: IssueSeverity::Critical,
                        description: owned("Database integrity check failed"),
                        table_affected: None,
                        suggested_action: owned("Attempt database repair or restore from backup"),
                    });
                }
            },
            Err(e) => {
                health.is_healthy = false;
                health.issues.push(DatabaseIssue {
                    severity: IssueSeverity::Error,
                    description: concat2("Failed to run integrity check: ", e.as_str()),
                    table_affected: None,
                    suggested_action: owned("Check database file permissions and disk space"),
                });
            },
        }
        proof {
            assert(issue_views(health.issues@) =~= issue_views(health.issues@));
        }
        health
    }

    /// Records the records found with an empty path or file name.
    pub fn record_orphaned_records(&mut self, count: u64)
        ensures
            final(self).is_healthy == old(self).is_healthy,
            final(self).corruption_detected == old(self).corruption_detected,
            final(self).integrity_check_passed == old(self).integrity_check_passed,
            final(self).repair_attempted == old(self).repair_attempted,
            final(self).repair_successful == old(self).repair_successful,
            issue_views(final(self).issues@) == issue_views(old(self).issues@) + if count > 0 {
                seq![
                    issue(
                        IssueSeverity::Warning,
                        "Found "@ + decimal(count as nat) + " records with empty path or filename"@,
                        Some("media_files"@),
                        "Clean up orphaned records"@,
                    ),
                ]
            } else {
                Seq::empty()
            },
    {
        if count > 0 {
            self.issues.push(DatabaseIssue {
                severity: IssueSeverity::Warning,
                description: around_decimal("Found ", count, " records with empty path or filename"),
                table_affected: Some(owned("media_files")),
                suggested_action: owned("Clean up orphaned records"),
            });
        }
        proof {
            assert(issue_views(self.issues@) =~= issue_views(old(self).issues@) + if count > 0 {
                seq![
                    issue(
                        IssueSeverity::Warning,
                        "Found "@ + decimal(count as nat) + " records with empty path or filename"@,
                        Some("media_files"@),
                        "Clean up orphaned records"@,
                    ),
                ]
            } else {
                Seq::empty()
            });
        }
    }

    /// Records the paths found more than once.
    pub fn record_duplicate_paths(&mut self, count: u64)
        ensures
            final(self).is_healthy == old(self).is_healthy,
            final(self).corruption_detected == old(self).corruption_detected,
            final(self).integrity_check_passed == old(self).integrity_check_passed,
            final(self).repair_attempted == old(self).repair_attempted,
            final(self).repair_successful == old(self).repair_successful,
            issue_views(final(self).issues@) == issue_views(old(self).issues@) + if count > 0 {
                seq![
                    issue(
                        IssueSeverity::Warning,
                        "Found "@ + decimal(count as nat) + " duplicate file paths"@,
                        Some("media_files"@),
                        "Remove duplicate entries"@,
                    ),
                ]
            } else {
                Seq::empty()
            },
    {
        if count > 0 {
            self.issues.push(DatabaseIssue {
                severity: IssueSeverity::Warning,
                description: around_decimal("Found ", count, " duplicate file paths"),
                table_affected: Some(owned("media_files")),
                suggested_action: owned("Remove duplicate entries"),
            });
        }
        proof {
            assert(issue_views(self.issues@) =~= issue_views(old(self).issues@) + if count > 0 {
                seq![
                    issue(
                        IssueSeverity::Warning,
                        "Found "@ + decimal(count as nat) + " duplicate file paths"@,
                        Some("media_files"@),
                        "Remove duplicate entries"@,
                    ),
                ]
            } else {
                Seq::empty()
            });
        }
    }

    /// Records whether the database file is large for its number of
    /// records.
    pub fn record_size_ratio(&mut self, stats: DatabaseStats)
        ensures
            final(self).is_healthy == old(self).is_healthy,
            final(self).corruption_detected == old(self).corruption_detected,
            final(self).integrity_check_passed == old(self).integrity_check_passed,
            final(self).repair_attempted == old(self).repair_attempted,
            final(self).repair_successful == old(self).repair_successful,
            issue_views(final(self).issues@) == issue_views(old(self).issues@) + if oversized(stats) {
                seq![
                    issue(
                        IssueSeverity::Info,
                        "Database size seems large relative to file count"@,
                        None,
                        "Consider running VACUUM to optimize database"@,
                    ),
                ]
            } else {
                Seq::empty()
            },
    {
        if stats.total_files > 0 {
            let avg = stats.database_size / (stats.total_files as u64);
            if avg > 10000 {
                self.issues.push(DatabaseIssue {
                    severity: IssueSeverity::Info,
                    description: owned("Database size seems large relative to file count"),
                    table_affected: None,
                    suggested_action: owned("Consider running VACUUM to optimize database"),
                });
            }
        }
        proof {
            assert(issue_views(self.issues@) =~= issue_views(old(self).issues@) + if oversized(stats) {
                seq![
                    issue(
                        IssueSeverity::Info,
                        "Database size seems large relative to file count"@,
                        None,
                        "Consider running VACUUM to optimize database"@,
                    ),
                ]
            } else {
                Seq::empty()
            });
        }
    }

    /// Records that the consistency checks could not be completed.
    pub fn record_common_check_error(&mut self, error: &str)
        ensures
            final(self).is_healthy == old(self).is_healthy,
            final(self).corruption_detected == old(self).corruption_detected,
            final(self).integrity_check_passed == old(self).integrity_check_passed,
            final(self).repair_attempted == old(self).repair_attempted,
            final(self).repair_successful == old(self).repair_successful,
            issue_views(final(self).issues@) == issue_views(old(self).issues@).push(
                issue(
                    IssueSeverity::Warning,
                    "Error during common issues check: "@ + error@,
                    None,
                    "Review database configuration"@,
                ),
            ),
    {
        self.issues.push(DatabaseIssue {
            severity: IssueSeverity::Warning,
            description: concat2("Error during common issues check: ", error),
            table_affected: None,
            suggested_action: owned("Review database configuration"),
        });
        proof {
            assert(issue_views(self.issues@) =~= issue_views(old(self).issues@).push(
                issue(
                    IssueSeverity::Warning,
                    "Error during common issues check: "@ + error@,
                    None,
                    "Review database configuration"@,
                ),
            ));
        }
    }

    /// Whether a repair must be attempted: corruption was detected.
    pub fn needs_repair(&self) -> (res: bool)
        ensures
            res == self.corruption_detected,
    {
        self.corruption_detected
    }

    /// Records the outcome of a repair attempt: a successful repair makes the
    /// database healthy and uncorrupted with an informational issue; a repair
    /// that ran without success changes nothing more; a repair that failed
    /// adds a critical issue.
    pub fn record_repair(&mut self, outcome: Result<bool, String>)
        ensures
            final(self).repair_attempted,
            final(self).integrity_check_passed == old(self).integrity_check_passed,
            match outcome {
                Ok(true) => final(self).repair_successful && final(self).is_healthy
                    && !final(self).corruption_detected && issue_views(final(self).issues@)
                    == issue_views(old(self).issues@).push(
                    issue(
                        IssueSeverity::Info,
                        "Database successfully repaired"@,
                        None,
                        "Consider creating a backup"@,
                    ),
                ),
                Ok(false) => !final(self).repair_successful && final(self).is_healthy == old(self).is_healthy
                    && final(self).corruption_detected == old(self).corruption_detected
                    && issue_views(final(self).issues@) == issue_views(old(self).issues@),
                Err(e) => final(self).repair_successful == old(self).repair_successful
                    && final(self).is_healthy == old(self).is_healthy
                    && final(self).corruption_detected == old(self).corruption_detected
                    && issue_views(final(self).issues@) == issue_views(old(self).issues@).push(
                    issue(
                        IssueSeverity::Critical,
                        "Database repair failed: "@ + e@,
                        None,
                        "Restore from backup or recreate database"@,
                    ),
                ),
            },
    {
        self.repair_attempted = true;
        match outcome {
            Ok(success) => {
                self.repair_successful = success;
                if success {
                    self.is_healthy = true;
                    self.corruption_detected = false;
                    self.issues.push(DatabaseIssue {
                        severity: IssueSeverity::Info,
                        description: owned("Database successfully repaired"),
                        table_affected: None,
                        suggested_action: owned("Consider creating a backup"),
                    });
                    proof {
                        assert(issue_views(self.issues@) =~= issue_views(old(self).issues@).push(
                            issue(
                                IssueSeverity::Info,
                                "Database successfully repaired"@,
                                None,
                                "Consider creating a backup"@,
                            ),
                        ));
                    }
                }
            },
            Err(e) => {
                self.issues.push(DatabaseIssue {
                    severity: IssueSeverity::Critical,
                    description: concat2("Database repair failed: ", e.as_str()),
                    table_affected: None,
                    suggested_action: owned("Restore from backup or recreate database"),
                });
                proof {
                    assert(issue_views(self.issues@) =~= issue_views(old(self).issues@).push(
                        issue(
                            IssueSeverity::Critical,
                            "Database repair failed: "@ + e@,
                            None,
                            "Restore from backup or recreate database"@,
                        ),
                    ));
                }
            },
        }
    }
}

} // verus!
