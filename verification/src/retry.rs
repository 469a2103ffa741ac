//! Which failures are worth a retry, and tallies of batch outcomes.

use vstd::prelude::*;
use crate::error::{is_transient, Error};
use crate::text::owned;

verus! {

/// An error that may say whether a retry can cure it, and what the user
/// could do about it.
pub trait Recoverable {
    /// Whether a retry may succeed.
    fn is_recoverable(&self) -> bool;

    /// Advice for the user, when there is any.
    fn recovery_suggestion(&self) -> Option<String>;
}

/// The advice for an error: a missing file, a timeout, a missing ExifTool
/// and a poisoned lock each have their own; other errors have none.
pub open spec fn suggestion_for(e: Error) -> Option<Seq<char>> {
    match e {
        Error::Io(f) => if f.not_found {
            Some("请检查文件路径是否正确"@)
        } else {
            None
        },
        Error::Timeout => Some("请增加超时时间或检查网络连接"@),
        Error::ExifToolNotFound => Some("请安装 ExifTool 并添加到 PATH"@),
        Error::MutexPoisoned => Some("内部错误，请重新创建 ExifTool 实例"@),
        _ => None,
    }
}

impl Recoverable for Error {
    fn is_recoverable(&self) -> (b: bool)
        ensures
            b == is_transient(*self),
    {
        match self {
            Error::Io(_) | Error::Timeout | Error::Process { .. } | Error::MutexPoisoned => true,
            _ => false,
        }
    }

    fn recovery_suggestion(&self) -> (s: Option<String>)
        ensures
            s matches Some(m) ==> suggestion_for(*self) == Some(m@),
            s is None ==> suggestion_for(*self) is None,
    {
        match self {
            Error::Io(f) => {
                if f.not_found {
                    Some(owned("请检查文件路径是否正确"))
                } else {
                    None
                }
            },
            Error::Timeout => Some(owned("请增加超时时间或检查网络连接")),
            Error::ExifToolNotFound => Some(owned("请安装 ExifTool 并添加到 PATH")),
            Error::MutexPoisoned => Some(owned("内部错误，请重新创建 ExifTool 实例")),
            _ => None,
        }
    }
}

/// Whether a failed attempt is retried: only while fewer than
/// `max_attempts` retries were made, and only for transient errors.
pub open spec fn retry_allowed(max_attempts: u32, attempt: u32, e: Error) -> bool {
    attempt < max_attempts && is_transient(e)
}

/// Whether to retry after the attempt numbered `attempt` (counting from 0)
/// failed with `error`.
pub fn should_retry(max_attempts: u32, attempt: u32, error: &Error) -> (b: bool)
    ensures
        b == retry_allowed(max_attempts, attempt, *error),
{
    if attempt >= max_attempts {
        return false;
    }
    error.is_recoverable()
}

/// The number of the next attempt after a failed one, or `None` when the
/// failure is final.
pub fn next_attempt(max_attempts: u32, attempt: u32, error: &Error) -> (n: Option<u32>)
    ensures
        n is Some <==> retry_allowed(max_attempts, attempt, *error),
        n matches Some(k) ==> k == attempt + 1 && k <= max_attempts,
{
    if should_retry(max_attempts, attempt, error) {
        Some(attempt + 1)
    } else {
        None
    }
}

/// A retried operation runs at most `max_attempts + 1` times: attempts are
/// numbered from 0, each retry moves to the next number, and none is
/// retried from `max_attempts` on. An error that is not transient is
/// never retried.
pub proof fn law_retries_bounded(max_attempts: u32, attempt: u32, e: Error)
    ensures
        retry_allowed(max_attempts, attempt, e) ==> attempt + 1 <= max_attempts,
        !is_transient(e) ==> !retry_allowed(max_attempts, attempt, e),
{
}

/// The outcomes of a batch: the values of the items that succeeded, the
/// errors of those that failed, and how many items there were.
#[derive(Debug)]
pub struct BatchResult<T, E> {
    pub successes: Vec<T>,
    pub failures: Vec<E>,
    pub total: usize,
}

impl<T, E> BatchResult<T, E> {
    /// No outcome yet.
    pub fn new() -> (r: Self)
        ensures
            r.successes@.len() == 0,
            r.failures@.len() == 0,
            r.total == 0,
    {
        BatchResult { successes: Vec::new(), failures: Vec::new(), total: 0 }
    }

    /// Adds an item that succeeded.
    pub fn add_success(&mut self, item: T)
        requires
            old(self).total < usize::MAX,
        ensures
            final(self).successes@ == old(self).successes@.push(item),
            final(self).failures@ == old(self).failures@,
            final(self).total == old(self).total + 1,
    {
        self.successes.push(item);
        self.total = self.total + 1;
    }

    /// Adds an item that failed.
    pub fn add_failure(&mut self, error: E)
        requires
            old(self).total < usize::MAX,
        ensures
            final(self).failures@ == old(self).failures@.push(error),
            final(self).successes@ == old(self).successes@,
            final(self).total == old(self).total + 1,
    {
        self.failures.push(error);
        self.total = self.total + 1;
    }

    /// Whether no item failed.
    pub fn is_complete(&self) -> (b: bool)
        ensures
            b == (self.failures@.len() == 0),
    {
        self.failures.len() == 0
    }
}

impl<T, E> Default for BatchResult<T, E> {
    fn default() -> (r: Self)
        ensures
            r.successes@.len() == 0,
            r.failures@.len() == 0,
            r.total == 0,
    {
        BatchResult::new()
    }
}

/// Every item is counted once: a tally that starts empty and only grows
/// by `add_success` and `add_failure` has as many items as successes and
/// failures together.
pub proof fn law_batch_result_total<T, E>(before: BatchResult<T, E>, after: BatchResult<T, E>)
    requires
        before.total == before.successes@.len() + before.failures@.len(),
        (after.successes@.len() == before.successes@.len() + 1 && after.failures@.len()
            == before.failures@.len()) || (after.failures@.len() == before.failures@.len() + 1
            && after.successes@.len() == before.successes@.len()),
        after.total == before.total + 1,
    ensures
        after.total == after.successes@.len() + after.failures@.len(),
{
}

/// Adding a success keeps the count right: a tally whose total is its
/// successes and failures together still is one after `add_success`,
/// which appends the item and leaves the failures alone.
pub proof fn law_add_success_balance<T, E>(before: BatchResult<T, E>, after: BatchResult<T, E>, item: T)
    requires
        before.total == before.successes@.len() + before.failures@.len(),
        after.successes@ == before.successes@.push(item),
        after.failures@ == before.failures@,
        after.total == before.total + 1,
    ensures
        after.total == after.successes@.len() + after.failures@.len(),
{
}

/// Adding a failure keeps the count right in the same way.
pub proof fn law_add_failure_balance<T, E>(before: BatchResult<T, E>, after: BatchResult<T, E>, error: E)
    requires
        before.total == before.successes@.len() + before.failures@.len(),
        after.failures@ == before.failures@.push(error),
        after.successes@ == before.successes@,
        after.total == before.total + 1,
    ensures
        after.total == after.successes@.len() + after.failures@.len(),
        after.failures@.len() > 0,
{
}

/// Failures are never removed: once a tally is incomplete it stays so
/// through any later `add_success` or `add_failure`, each of which keeps
/// the failures recorded so far.
pub proof fn law_incomplete_stays<T, E>(before: BatchResult<T, E>, after: BatchResult<T, E>)
    requires
        before.failures@.len() > 0,
        after.failures@.len() >= before.failures@.len(),
        after.failures@.take(before.failures@.len() as int) == before.failures@,
    ensures
        after.failures@.len() > 0,
{
}

} // verus!
