//! Cooperative cancellation of blocking reads, writes and seeks.
//!
//! A [`CancellationToken`] is a shared flag. A [`Cancellable`] wraps an I/O
//! value and consults its token before every operation that may block; once
//! the token is cancelled, such operations fail with `ErrorKind::BrokenPipe`
//! instead of reaching the wrapped value.
mod cancellable;
mod guard;
mod token;

pub use cancellable::Cancellable;
pub use guard::CancellationGuard;
pub use token::CancellationToken;
