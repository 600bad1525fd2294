//! Errors of the registration paths, and strategies deciding what to do
//! when the backing client registry rejects a request.

use vstd::prelude::*;
use vstd::string::StringExecFns;

verus! {

#[verifier::external_type_specification]
#[verifier::external_body]
pub struct ExPrometheusError(prometheus::Error);

/// Error produced while registering or resolving a metric.
///
/// Label-cardinality checks are performed by this crate itself, against the
/// schema a bundle was created with; everything the client library rejects
/// on its own is carried through opaquely in [`RegistryError::Prometheus`].
#[derive(Debug)]
pub enum RegistryError {
    /// A key carries the wrong number of distinct label names for the
    /// schema its metric was created with.
    InconsistentCardinality {
        /// The number of label names the schema fixes.
        expect: usize,
        /// The number of distinct label names the key carries.
        got: usize,
    },
    /// A label name fixed by the schema is absent from the key.
    MissingLabel {
        /// The absent label name.
        name: String,
    },
    /// An error returned by the client library itself.
    Prometheus(prometheus::Error),
}

/// The character for a single decimal digit.
pub open spec fn digit_char(d: nat) -> char {
    if d == 0 {
        '0'
    } else if d == 1 {
        '1'
    } else if d == 2 {
        '2'
    } else if d == 3 {
        '3'
    } else if d == 4 {
        '4'
    } else if d == 5 {
        '5'
    } else if d == 6 {
        '6'
    } else if d == 7 {
        '7'
    } else if d == 8 {
        '8'
    } else {
        '9'
    }
}

/// The decimal rendering of a natural number.
pub open spec fn dec_str(n: nat) -> Seq<char>
    decreases n,
{
    if n < 10 {
        seq![digit_char(n)]
    } else {
        dec_str(n / 10).push(digit_char(n % 10))
    }
}

/// The one-character string for a single decimal digit.
fn digit_str(d: u8) -> (s: &'static str)
    requires
        d < 10,
    ensures
        s@ == seq![digit_char(d as nat)],
{
    proof {
        reveal_strlit("0");
        reveal_strlit("1");
        reveal_strlit("2");
        reveal_strlit("3");
        reveal_strlit("4");
        reveal_strlit("5");
        reveal_strlit("6");
        reveal_strlit("7");
        reveal_strlit("8");
        reveal_strlit("9");
    }
    if d == 0 {
        "0"
    } else if d == 1 {
        "1"
    } else if d == 2 {
        "2"
    } else if d == 3 {
        "3"
    } else if d == 4 {
        "4"
    } else if d == 5 {
        "5"
    } else if d == 6 {
        "6"
    } else if d == 7 {
        "7"
    } else if d == 8 {
        "8"
    } else {
        "9"
    }
}

/// Renders a number in decimal.
fn usize_to_string(n: usize) -> (s: String)
    ensures
        s@ == dec_str(n as nat),
    decreases n,
{
    let d: u8 = (n % 10) as u8;
    if n < 10 {
        digit_str(d).to_owned()
    } else {
        let mut prefix = usize_to_string(n / 10);
        prefix.append(digit_str(d));
        prefix
    }
}

/// The text of a cardinality-mismatch error, as the client library words it.
pub open spec fn cardinality_message(expect: nat, got: nat) -> Seq<char> {
    "Inconsistent label cardinality, expect "@ + dec_str(expect) + " label values, but got "@
        + dec_str(got)
}

/// The text of a missing-label error, as the client library words it.
pub open spec fn missing_label_message(name: Seq<char>) -> Seq<char> {
    "Error: label name "@ + name + " missing in label map"@
}

/// The text `prometheus::Error`'s `Display` implementation renders for an
/// error value.
pub uninterp spec fn prometheus_display(e: prometheus::Error) -> Seq<char>;

/// The full text of an error: this crate's own wording for the conditions
/// it detects itself — matching what the client library would display for
/// the equivalent condition — and the client's own display text for an
/// error carried through.
pub open spec fn message_of(e: RegistryError) -> Seq<char> {
    match e {
        RegistryError::InconsistentCardinality { expect, got } => cardinality_message(
            expect as nat,
            got as nat,
        ),
        RegistryError::MissingLabel { name } => missing_label_message(name@),
        RegistryError::Prometheus(pe) => prometheus_display(pe),
    }
}

/// Relies on `prometheus::Error`'s `Display` implementation for the text of
/// an error the client library produced.
#[verifier::external_body]
fn prometheus_error_text(e: &prometheus::Error) -> (r: String)
    ensures
        r@ == prometheus_display(*e),
{
    format!("{e}")
}

impl RegistryError {
    /// The error's text, matching what the client library itself would
    /// display for the equivalent condition.
    pub fn message(&self) -> (s: String)
        ensures
            s@ == message_of(*self),
    {
        match self {
            RegistryError::InconsistentCardinality { expect, got } => {
                let mut s = String::from_str("Inconsistent label cardinality, expect ");
                s.append(usize_to_string(*expect).as_str());
                s.append(" label values, but got ");
                s.append(usize_to_string(*got).as_str());
                s
            },
            RegistryError::MissingLabel { name } => {
                let mut s = String::from_str("Error: label name ");
                s.append(name.as_str());
                s.append(" missing in label map");
                s
            },
            RegistryError::Prometheus(e) => prometheus_error_text(e),
        }
    }
}

/// Possible actions on an error met inside a recorder method.
#[derive(Clone, Copy, Debug, PartialEq, Eq, Structural)]
pub enum Action {
    /// Hand the caller an inert no-op handle and drop the error.
    NoOp,
    /// Abort the current operation with a message naming the cause.
    Panic,
}

/// Strategy deciding which [`Action`] to perform on a [`RegistryError`] met inside
/// a recorder method.
///
/// The decision is pure: it is taken where the error is detected, but acted
/// upon only after control has left every lock the client library holds.
pub trait Strategy: Sized {
    /// The decision this strategy takes on the given error.
    spec fn decide_spec(&self, e: &RegistryError) -> Action;

    /// Inspects the error and returns the [`Action`] to be performed.
    fn decide(&self, e: &RegistryError) -> (a: Action)
        ensures
            a == self.decide_spec(e),
    ;
}

/// [`Strategy`] always returning [`Action::NoOp`].
#[derive(Clone, Copy, Debug, Default)]
pub struct NoOp;

impl Strategy for NoOp {
    open spec fn decide_spec(&self, e: &RegistryError) -> Action {
        Action::NoOp
    }

    fn decide(&self, e: &RegistryError) -> (a: Action) {
        Action::NoOp
    }
}

/// [`Strategy`] always returning [`Action::Panic`].
#[derive(Clone, Copy, Debug, Default)]
pub struct Panic;

impl Strategy for Panic {
    open spec fn decide_spec(&self, e: &RegistryError) -> Action {
        Action::Panic
    }

    fn decide(&self, e: &RegistryError) -> (a: Action) {
        Action::Panic
    }
}

/// [`Strategy`] returning [`Action::Panic`] in builds with debug assertions,
/// and [`Action::NoOp`] otherwise.
///
/// Whether the build carries debug assertions cannot be observed from this
/// crate, so the embedding application states it at construction (typically
/// from its own build profile); a value built by [`Default`] assumes a
/// release profile and never panics.
#[derive(Clone, Copy, Debug)]
pub struct PanicInDebugNoOpInRelease {
    /// Whether this build carries debug assertions, fixed at construction.
    pub debug: bool,
}

impl PanicInDebugNoOpInRelease {
    /// Builds the strategy for a build whose debug-assertions flag is
    /// `debug`.
    pub fn new(debug: bool) -> (s: Self)
        ensures
            s.debug == debug,
    {
        PanicInDebugNoOpInRelease { debug }
    }
}

impl Default for PanicInDebugNoOpInRelease {
    /// The strategy for a release profile: never panic.
    fn default() -> (s: Self)
        ensures
            !s.debug,
    {
        PanicInDebugNoOpInRelease { debug: false }
    }
}

impl Strategy for PanicInDebugNoOpInRelease {
    open spec fn decide_spec(&self, e: &RegistryError) -> Action {
        if self.debug {
            Action::Panic
        } else {
            Action::NoOp
        }
    }

    fn decide(&self, e: &RegistryError) -> (a: Action) {
        if self.debug {
            Action::Panic
        } else {
            Action::NoOp
        }
    }
}

} // verus!
