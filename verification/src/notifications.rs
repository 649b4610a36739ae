//! Desktop alerts for the events of a run. This module decides whether an
//! alert is due and what it says; showing it is left to the caller.
use crate::text::{decimal, u64_to_string};
use vstd::prelude::*;
use vstd::string::StringSliceAdditionalSpecFns;
use vstd::utf8::{
    decode_utf8, encode_utf8, encode_utf8_decode_utf8, encode_utf8_valid_utf8, is_char_boundary,
    is_char_boundary_start_end_of_seq,
};

verus! {

/// Longest error text, in bytes, that a failure alert quotes in full.
pub const PREVIEW_BYTES: usize = 100;

/// A desktop alert that is ready to be shown.
#[derive(Debug, PartialEq, Eq)]
pub struct Notice {
    pub summary: String,
    pub body: String,
    /// Name of the icon in the desktop's icon theme.
    pub icon: String,
    /// How long the alert stays up, in milliseconds.
    pub timeout_ms: u32,
}

/// What an alert says, with every string as its characters.
pub struct NoticeSpec {
    pub summary: Seq<char>,
    pub body: Seq<char>,
    pub icon: Seq<char>,
    pub timeout_ms: u32,
}

impl View for Notice {
    type V = NoticeSpec;

    open spec fn view(&self) -> NoticeSpec {
        NoticeSpec {
            summary: self.summary@,
            body: self.body@,
            icon: self.icon@,
            timeout_ms: self.timeout_ms,
        }
    }
}

/// The alerts of `notices`, each by its view.
pub open spec fn notice_specs(notices: Seq<Notice>) -> Seq<NoticeSpec> {
    Seq::new(notices.len(), |i: int| notices[i]@)
}

/// Notification manager for desktop alerts.
#[derive(Debug)]
pub struct NotificationManager {
    enabled: bool,
}

/// The alert for a task that seems to wait for interactive input.
pub open spec fn interactive_input_notice(task: Seq<char>, group: Seq<char>) -> NoticeSpec {
    NoticeSpec {
        summary: "🌊 Tide - Interaction Required"@,
        body: "Task '"@ + task + "' (group: "@ + group
            + ") appears to be waiting for interactive input.\nCheck your terminal or consider setting 'sudo: true' in config."@,
        icon: "dialog-warning"@,
        timeout_ms: 10000,
    }
}

/// The alert for a task that ran out of time.
pub open spec fn timeout_notice(task: Seq<char>, group: Seq<char>, seconds: u64) -> NoticeSpec {
    NoticeSpec {
        summary: "⚠️ Tide - Task Timeout"@,
        body: "Task '"@ + task + "' (group: "@ + group + ") timed out after "@ + decimal(
            seconds as nat,
        ) + " seconds.\nIt may be waiting for input or stuck."@,
        icon: "dialog-error"@,
        timeout_ms: 8000,
    }
}

/// The largest character boundary of `bytes` that is no more than `limit`.
pub open spec fn floor_boundary(bytes: Seq<u8>, limit: int) -> int
    decreases limit,
{
    if limit <= 0 {
        0
    } else if is_char_boundary(bytes, limit) {
        limit
    } else {
        floor_boundary(bytes, limit - 1)
    }
}

/// The error text as a failure alert quotes it: in full when its encoding
/// has at most `PREVIEW_BYTES` bytes, else its longest prefix of whole
/// characters within that many bytes, followed by three dots.
pub open spec fn error_preview(error: Seq<char>) -> Seq<char> {
    let bytes = encode_utf8(error);
    if bytes.len() as usize > PREVIEW_BYTES {
        decode_utf8(bytes.subrange(0, floor_boundary(bytes, PREVIEW_BYTES as int))) + "..."@
    } else {
        error
    }
}

/// The alert for a task that failed with `error`.
pub open spec fn failed_notice(task: Seq<char>, group: Seq<char>, error: Seq<char>) -> NoticeSpec {
    NoticeSpec {
        summary: "❌ Tide - Task Failed"@,
        body: "Task '"@ + task + "' (group: "@ + group + ") failed:\n"@ + error_preview(error),
        icon: "dialog-error"@,
        timeout_ms: 8000,
    }
}

/// The alert that a password prompt is waiting in the terminal.
pub open spec fn sudo_required_notice() -> NoticeSpec {
    NoticeSpec {
        summary: "🔐 Tide - Sudo Password Required"@,
        body: "Some tasks require sudo privileges.\nPlease check your terminal to enter your password."@,
        icon: "dialog-password"@,
        timeout_ms: 10000,
    }
}

/// The alert for a run in which `count` tasks succeeded and none failed.
pub open spec fn complete_notice(count: usize, seconds: u64) -> NoticeSpec {
    NoticeSpec {
        summary: "✅ Tide - All Tasks Complete"@,
        body: decimal(count as nat) + " tasks completed successfully in "@ + decimal(
            seconds as nat,
        ) + " seconds."@,
        icon: "emblem-default"@,
        timeout_ms: 5000,
    }
}

fn task_prefix(task_name: &str, group_name: &str) -> (s: String)
    ensures
        s@ == "Task '"@ + task_name@ + "' (group: "@ + group_name@,
{
    let mut s = "Task '".to_owned();
    s.append(task_name);
    s.append("' (group: ");
    s.append(group_name);
    s
}

/// Shortens an error text for a failure alert.
pub fn preview(error: &str) -> (s: String)
    ensures
        s@ == error_preview(error@),
{
    if error.len() <= PREVIEW_BYTES {
        return error.to_owned();
    }
    let mut cut: usize = PREVIEW_BYTES;
    while cut > 0 && !error.is_char_boundary(cut)
        invariant
            cut <= PREVIEW_BYTES,
            floor_boundary(error.spec_bytes(), cut as int) == floor_boundary(
                error.spec_bytes(),
                PREVIEW_BYTES as int,
            ),
        decreases cut,
    {
        cut -= 1;
    }
    proof {
        encode_utf8_valid_utf8(error@);
        is_char_boundary_start_end_of_seq(error.spec_bytes());
    }
    let (head, _) = error.split_at(cut);
    proof {
        encode_utf8_decode_utf8(head@);
        encode_utf8_valid_utf8(head@);
    }
    let mut s = head.to_owned();
    s.append("...");
    s
}

impl NotificationManager {
    /// Whether alerts are on.
    pub closed spec fn enabled(&self) -> bool {
        self.enabled
    }

    /// Create a new notification manager.
    pub fn new(enabled: bool) -> (m: Self)
        ensures
            m.enabled() == enabled,
    {
        Self { enabled }
    }

    /// Whether alerts are on.
    pub fn is_enabled(&self) -> (b: bool)
        ensures
            b == self.enabled(),
    {
        self.enabled
    }

    /// The alert that a task seems to wait for interactive input; none when
    /// alerts are off.
    pub fn notify_interactive_input_detected(&self, task_name: &str, group_name: &str) -> (r:
        Option<Notice>)
        ensures
            r.is_some() == self.enabled(),
            r matches Some(n) ==> n@ == interactive_input_notice(task_name@, group_name@),
    {
        if !self.enabled {
            return None;
        }
        let mut body = task_prefix(task_name, group_name);
        body.append(
            ") appears to be waiting for interactive input.\nCheck your terminal or consider setting 'sudo: true' in config.",
        );
        Some(
            Notice {
                summary: "🌊 Tide - Interaction Required".to_owned(),
                body,
                icon: "dialog-warning".to_owned(),
                timeout_ms: 10000,
            },
        )
    }

    /// The alert that a task ran out of time; none when alerts are off.
    pub fn notify_task_timeout(&self, task_name: &str, group_name: &str, timeout: u64) -> (r:
        Option<Notice>)
        ensures
            r.is_some() == self.enabled(),
            r matches Some(n) ==> n@ == timeout_notice(task_name@, group_name@, timeout),
    {
        if !self.enabled {
            return None;
        }
        let mut body = task_prefix(task_name, group_name);
        body.append(") timed out after ");
        body.append(u64_to_string(timeout).as_str());
        body.append(" seconds.\nIt may be waiting for input or stuck.");
        Some(
            Notice {
                summary: "⚠️ Tide - Task Timeout".to_owned(),
                body,
                icon: "dialog-error".to_owned(),
                timeout_ms: 8000,
            },
        )
    }

    /// The alert that a task failed, with a preview of the error; none when
    /// alerts are off.
    pub fn notify_task_failed(&self, task_name: &str, group_name: &str, error: &str) -> (r:
        Option<Notice>)
        ensures
            r.is_some() == self.enabled(),
            r matches Some(n) ==> n@ == failed_notice(task_name@, group_name@, error@),
    {
        if !self.enabled {
            return None;
        }
        let mut body = task_prefix(task_name, group_name);
        body.append(") failed:\n");
        body.append(preview(error).as_str());
        Some(
            Notice {
                summary: "❌ Tide - Task Failed".to_owned(),
                body,
                icon: "dialog-error".to_owned(),
                timeout_ms: 8000,
            },
        )
    }

    /// The alert that a password prompt is waiting in the terminal; none
    /// when alerts are off.
    pub fn notify_sudo_required(&self) -> (r: Option<Notice>)
        ensures
            r.is_some() == self.enabled(),
            r matches Some(n) ==> n@ == sudo_required_notice(),
    {
        if !self.enabled {
            return None;
        }
        Some(
            Notice {
                summary: "🔐 Tide - Sudo Password Required".to_owned(),
                body: "Some tasks require sudo privileges.\nPlease check your terminal to enter your password.".to_owned(),
                icon: "dialog-password".to_owned(),
                timeout_ms: 10000,
            },
        )
    }

    /// The alert that the run ended with every task done; none when alerts
    /// are off.
    pub fn notify_all_tasks_complete(&self, success_count: usize, total_duration_secs: u64) -> (r:
        Option<Notice>)
        ensures
            r.is_some() == self.enabled(),
            r matches Some(n) ==> n@ == complete_notice(success_count, total_duration_secs),
    {
        if !self.enabled {
            return None;
        }
        let mut body = u64_to_string(success_count as u64);
        body.append(" tasks completed successfully in ");
        body.append(u64_to_string(total_duration_secs).as_str());
        body.append(" seconds.");
        Some(
            Notice {
                summary: "✅ Tide - All Tasks Complete".to_owned(),
                body,
                icon: "emblem-default".to_owned(),
                timeout_ms: 5000,
            },
        )
    }
}

} // verus!
