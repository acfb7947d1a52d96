use std::sync::atomic::{AtomicBool, Ordering};
use std::sync::Arc;
use vstd::prelude::*;

verus! {

#[verifier::external_type_specification]
#[verifier::external_body]
pub struct ExIoError(std::io::Error);

/// Relies on `AtomicBool::load`: reads the flag. Other holders of the token
/// may set it at any time, so nothing is promised of the value read.
#[verifier::external_body]
fn load_flag(flag: &AtomicBool) -> (r: bool) {
    flag.load(Ordering::Relaxed)
}

/// Relies on `AtomicBool::store`: sets the flag.
#[verifier::external_body]
fn raise_flag(flag: &AtomicBool)
    opens_invariants none
    no_unwind
{
    flag.store(true, Ordering::Relaxed)
}

#[verifier::external_type_specification]
pub struct ExErrorKind(std::io::ErrorKind);

/// The kind of an I/O error, as `io::Error::kind` reports it.
pub uninterp spec fn kind_of(e: std::io::Error) -> std::io::ErrorKind;

/// Relies on `From<ErrorKind> for io::Error`: the error made from a kind
/// reports that kind.
#[verifier::external_body]
fn error_from_kind(k: std::io::ErrorKind) -> (e: std::io::Error)
    ensures
        kind_of(e) == k,
{
    k.into()
}

/// Relies on `Arc::ptr_eq`: whether two handles share one allocation.
/// Addresses are not modelled, so nothing more is promised.
#[verifier::external_body]
fn same_cell(a: &Arc<AtomicBool>, b: &Arc<AtomicBool>) -> (r: bool) {
    Arc::ptr_eq(a, b)
}

/// A shared cancellation flag. Clones share the flag; cancelling any of them
/// cancels all of them, and a cancelled token never becomes live again.
#[derive(Clone, Debug)]
pub struct CancellationToken {
    cancelled: Arc<AtomicBool>,
}

impl CancellationToken {
    /// Creates a token that is not cancelled.
    pub fn new() -> (t: CancellationToken) {
        CancellationToken { cancelled: Arc::new(AtomicBool::new(false)) }
    }

    /// Marks this token, and every clone of it, as cancelled.
    pub fn cancel(&self)
        opens_invariants none
        no_unwind
    {
        raise_flag(&self.cancelled)
    }

    /// The outcome of a check that read the flag as `cancelled`: `Ok` while
    /// the flag is clear, a `BrokenPipe` error once it is set.
    pub fn check_flag(cancelled: bool) -> (r: std::io::Result<()>)
        ensures
            r is Ok <==> !cancelled,
            r is Err ==> kind_of(r->Err_0) == std::io::ErrorKind::BrokenPipe,
    {
        if cancelled {
            Err(error_from_kind(std::io::ErrorKind::BrokenPipe))
        } else {
            Ok(())
        }
    }

    /// Returns `Ok(())` while the token is live and a `BrokenPipe` error once
    /// it has been cancelled. Any holder may cancel the token at any moment,
    /// so what the flag held is known only through the result: it is the
    /// result of `check_flag` on the value read.
    pub fn check(&self) -> (r: std::io::Result<()>)
        ensures
            r is Err ==> kind_of(r->Err_0) == std::io::ErrorKind::BrokenPipe,
    {
        let cancelled = load_flag(&self.cancelled);
        Self::check_flag(cancelled)
    }
}

impl Default for CancellationToken {
    /// A token that is not cancelled, as `new` makes it.
    fn default() -> (t: CancellationToken) {
        CancellationToken::new()
    }
}

impl PartialEq for CancellationToken {
    /// Two tokens are equal when they are clones of one token, whatever
    /// their state.
    fn eq(&self, other: &CancellationToken) -> (r: bool) {
        same_cell(&self.cancelled, &other.cancelled)
    }
}

// Identity of the shared flag is an address, which is not modelled: which
// tokens are equal is left open, and `==` on tokens promises nothing in
// contracts.
impl vstd::std_specs::cmp::PartialEqSpecImpl for CancellationToken {
    open spec fn obeys_eq_spec() -> bool {
        false
    }

    open spec fn eq_spec(&self, other: &CancellationToken) -> bool {
        arbitrary()
    }
}

impl Eq for CancellationToken {}

impl Ord for CancellationToken {
    /// Relies on `Arc::as_ptr` and the order of pointers: tokens are ordered
    /// by the address of their shared flag.
    #[verifier::external_body]
    fn cmp(&self, other: &CancellationToken) -> (r: std::cmp::Ordering) {
        Arc::as_ptr(&self.cancelled).cmp(&Arc::as_ptr(&other.cancelled))
    }
}

impl PartialOrd for CancellationToken {
    fn partial_cmp(&self, other: &CancellationToken) -> (r: Option<std::cmp::Ordering>)
        ensures
            r is Some,
    {
        Some(self.cmp(other))
    }
}

// Tokens are ordered by address, which is not modelled either: the
// comparison always gives some ordering, which one is left open.
impl vstd::std_specs::cmp::PartialOrdSpecImpl for CancellationToken {
    open spec fn obeys_partial_cmp_spec() -> bool {
        false
    }

    open spec fn partial_cmp_spec(&self, other: &CancellationToken) -> Option<std::cmp::Ordering> {
        Some(arbitrary())
    }
}

impl std::hash::Hash for CancellationToken {
    /// Relies on `Arc::as_ptr` and `Hash` for pointers: a token hashes as
    /// the address of its shared flag.
    #[verifier::external_body]
    fn hash<H: std::hash::Hasher>(&self, state: &mut H) {
        Arc::as_ptr(&self.cancelled).hash(state)
    }
}

} // verus!
