//! Short-lived notifications, and the items of the action menu.
use vstd::prelude::*;
use crate::clock::{instant_now, millis_since};

verus! {

/// How serious a notification is.
#[derive(Debug, Clone, Copy, PartialEq, Eq, Structural)]
pub enum ToastLevel {
    Info,
    Warning,
    Error,
}

/// How long a notification of each level stays: 3 s for info, 5 s for a
/// warning, 8 s for an error.
pub open spec fn level_duration(level: ToastLevel) -> Option<u64> {
    match level {
        ToastLevel::Info => Some(3000),
        ToastLevel::Warning => Some(5000),
        ToastLevel::Error => Some(8000),
    }
}

impl ToastLevel {
    /// How many milliseconds a notification of this level stays.
    pub fn duration_ms(&self) -> (r: Option<u64>)
        ensures
            r == level_duration(*self),
    {
        match self {
            ToastLevel::Info => Some(3000),
            ToastLevel::Warning => Some(5000),
            ToastLevel::Error => Some(8000),
        }
    }
}

/// Whether a notification of `level` shown `elapsed_ms` ago is gone.
pub open spec fn expired_after(level: ToastLevel, elapsed_ms: u128) -> bool {
    match level_duration(level) {
        Some(d) => elapsed_ms >= d,
        None => false,
    }
}

/// Decides whether a notification of `level` shown `elapsed_ms` ago is gone.
pub fn is_expired_after(level: ToastLevel, elapsed_ms: u128) -> (r: bool)
    ensures
        r == expired_after(level, elapsed_ms),
{
    match level.duration_ms() {
        Some(d) => elapsed_ms >= d as u128,
        None => false,
    }
}

/// A notification: its text, its level, and when it appeared.
pub struct Toast {
    pub message: String,
    pub level: ToastLevel,
    pub created_at: std::time::Instant,
}

impl Toast {
    /// A notification of `level` with the given text, appearing now.
    pub fn new(message: &str, level: ToastLevel) -> (r: Self)
        ensures
            r.message@ == message@,
            r.level == level,
    {
        Toast { message: message.to_string(), level, created_at: instant_now() }
    }

    /// An information notice.
    pub fn info(message: &str) -> (r: Self)
        ensures
            r.message@ == message@,
            r.level == ToastLevel::Info,
    {
        Toast::new(message, ToastLevel::Info)
    }

    /// A warning.
    pub fn warning(message: &str) -> (r: Self)
        ensures
            r.message@ == message@,
            r.level == ToastLevel::Warning,
    {
        Toast::new(message, ToastLevel::Warning)
    }

    /// An error notice.
    pub fn error(message: &str) -> (r: Self)
        ensures
            r.message@ == message@,
            r.level == ToastLevel::Error,
    {
        Toast::new(message, ToastLevel::Error)
    }

    /// Whether the notification has stayed its full time; that depends on the
    /// clock, so the contract says only that it holds exactly when
    /// `expired_after` does for the milliseconds the clock gave.
    pub fn is_expired(&self) -> (r: bool)
        ensures
            exists|elapsed: u128| r == expired_after(self.level, elapsed),
    {
        let elapsed = millis_since(&self.created_at);
        is_expired_after(self.level, elapsed)
    }
}

/// The items of the action menu.
pub open spec fn menu_items() -> Seq<Seq<char>> {
    seq!["收藏到歌单"@, "下载歌曲"@, "添加到播放队列"@, "查看歌手"@]
}

/// The items of the action menu, in order.
pub fn default_menu_items() -> (r: Vec<String>)
    ensures
        r@.len() == menu_items().len(),
        forall|i: int| 0 <= i < r@.len() ==> #[trigger] r@[i]@ == menu_items()[i],
{
    let mut v: Vec<String> = Vec::new();
    v.push("收藏到歌单".to_string());
    v.push("下载歌曲".to_string());
    v.push("添加到播放队列".to_string());
    v.push("查看歌手".to_string());
    v
}

} // verus!
