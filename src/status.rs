use vstd::prelude::*;

verus! {

/// Outcome of a numerical routine, with its conventional integer code.
#[derive(Clone, Copy, Debug, PartialEq, Eq, Structural, PartialOrd)]
pub enum Value {
    Success,
    Failure,
    /// iteration has not converged
    Continue,
    /// input domain error, e.g sqrt(-1)
    Domain,
    /// output range error, e.g. exp(1e100)
    Range,
    /// invalid pointer
    Fault,
    /// invalid argument supplied by user
    Invalid,
    /// generic failure
    Failed,
    /// factorization failed
    Factorization,
    /// sanity check failed - shouldn't happen
    Sanity,
    /// malloc failed
    NoMemory,
    /// problem with user-supplied function
    BadFunction,
    /// iterative process is out of control
    RunAway,
    /// exceeded max number of iterations
    MaxIteration,
    /// tried to divide by zero
    ZeroDiv,
    /// user specified an invalid tolerance
    BadTolerance,
    /// failed to reach the specified tolerance
    Tolerance,
    /// underflow
    UnderFlow,
    /// overflow
    OverFlow,
    /// loss of accuracy
    Loss,
    /// failed because of roundoff error
    Round,
    /// matrix, vector lengths are not conformant
    BadLength,
    /// matrix not square
    NotSquare,
    /// apparent singularity detected
    Singularity,
    /// integral or series is divergent
    Diverge,
    /// requested feature is not supported by the hardware
    Unsupported,
    /// requested feature not (yet) implemented
    Unimplemented,
    /// cache limit exceeded
    Cache,
    /// table limit exceeded
    Table,
    /// iteration is not making progress towards solution
    NoProgress,
    /// jacobian evaluations are not improving the solution
    NoProgressJacobian,
    /// cannot reach the specified tolerance in F
    ToleranceF,
    /// cannot reach the specified tolerance in X
    ToleranceX,
    /// cannot reach the specified tolerance in gradient
    ToleranceG,
    /// end of file
    EOF,
    /// A code outside the known taxonomy, kept as it came.
    Unknown(libc::c_int),
}

/// A result whose error is a status other than `Success`.
pub type GSLResult<T> = Result<T, Value>;

/// The code of each status; an unknown status carries its own.
pub open spec fn code_of(v: Value) -> int {
    match v {
        Value::Success => 0,
        Value::Failure => -1,
        Value::Continue => -2,
        Value::Domain => 1,
        Value::Range => 2,
        Value::Fault => 3,
        Value::Invalid => 4,
        Value::Failed => 5,
        Value::Factorization => 6,
        Value::Sanity => 7,
        Value::NoMemory => 8,
        Value::BadFunction => 9,
        Value::RunAway => 10,
        Value::MaxIteration => 11,
        Value::ZeroDiv => 12,
        Value::BadTolerance => 13,
        Value::Tolerance => 14,
        Value::UnderFlow => 15,
        Value::OverFlow => 16,
        Value::Loss => 17,
        Value::Round => 18,
        Value::BadLength => 19,
        Value::NotSquare => 20,
        Value::Singularity => 21,
        Value::Diverge => 22,
        Value::Unsupported => 23,
        Value::Unimplemented => 24,
        Value::Cache => 25,
        Value::Table => 26,
        Value::NoProgress => 27,
        Value::NoProgressJacobian => 28,
        Value::ToleranceF => 29,
        Value::ToleranceX => 30,
        Value::ToleranceG => 31,
        Value::EOF => 32,
        Value::Unknown(x) => x as int,
    }
}

/// The codes that name a status of the taxonomy.
pub open spec fn is_known_code(c: int) -> bool {
    -2 <= c <= 32
}

/// A status is well formed when an `Unknown` never carries a known code.
pub open spec fn well_formed(v: Value) -> bool {
    match v {
        Value::Unknown(x) => !is_known_code(x as int),
        _ => true,
    }
}

/// The status that a code names: the known one, else `Unknown` with the code.
pub open spec fn value_of(c: libc::c_int) -> Value {
    if c == -2 { Value::Continue }
    else if c == -1 { Value::Failure }
    else if c == 0 { Value::Success }
    else if c == 1 { Value::Domain }
    else if c == 2 { Value::Range }
    else if c == 3 { Value::Fault }
    else if c == 4 { Value::Invalid }
    else if c == 5 { Value::Failed }
    else if c == 6 { Value::Factorization }
    else if c == 7 { Value::Sanity }
    else if c == 8 { Value::NoMemory }
    else if c == 9 { Value::BadFunction }
    else if c == 10 { Value::RunAway }
    else if c == 11 { Value::MaxIteration }
    else if c == 12 { Value::ZeroDiv }
    else if c == 13 { Value::BadTolerance }
    else if c == 14 { Value::Tolerance }
    else if c == 15 { Value::UnderFlow }
    else if c == 16 { Value::OverFlow }
    else if c == 17 { Value::Loss }
    else if c == 18 { Value::Round }
    else if c == 19 { Value::BadLength }
    else if c == 20 { Value::NotSquare }
    else if c == 21 { Value::Singularity }
    else if c == 22 { Value::Diverge }
    else if c == 23 { Value::Unsupported }
    else if c == 24 { Value::Unimplemented }
    else if c == 25 { Value::Cache }
    else if c == 26 { Value::Table }
    else if c == 27 { Value::NoProgress }
    else if c == 28 { Value::NoProgressJacobian }
    else if c == 29 { Value::ToleranceF }
    else if c == 30 { Value::ToleranceX }
    else if c == 31 { Value::ToleranceG }
    else if c == 32 { Value::EOF }
    else { Value::Unknown(c) }
}

impl Value {
    /// Whether this status is `Success`.
    pub fn is_success(self) -> (r: bool)
        ensures
            r == (self == Value::Success),
    {
        self == Value::Success
    }

    /// The integer code of this status.
    pub fn to_code(self) -> (r: libc::c_int)
        ensures
            r as int == code_of(self),
    {
        match self {
            Value::Success => 0,
            Value::Failure => -1,
            Value::Continue => -2,
            Value::Domain => 1,
            Value::Range => 2,
            Value::Fault => 3,
            Value::Invalid => 4,
            Value::Failed => 5,
            Value::Factorization => 6,
            Value::Sanity => 7,
            Value::NoMemory => 8,
            Value::BadFunction => 9,
            Value::RunAway => 10,
            Value::MaxIteration => 11,
            Value::ZeroDiv => 12,
            Value::BadTolerance => 13,
            Value::Tolerance => 14,
            Value::UnderFlow => 15,
            Value::OverFlow => 16,
            Value::Loss => 17,
            Value::Round => 18,
            Value::BadLength => 19,
            Value::NotSquare => 20,
            Value::Singularity => 21,
            Value::Diverge => 22,
            Value::Unsupported => 23,
            Value::Unimplemented => 24,
            Value::Cache => 25,
            Value::Table => 26,
            Value::NoProgress => 27,
            Value::NoProgressJacobian => 28,
            Value::ToleranceF => 29,
            Value::ToleranceX => 30,
            Value::ToleranceG => 31,
            Value::EOF => 32,
            Value::Unknown(x) => x,
        }
    }

    /// The status that a code names; a code outside the taxonomy gives `Unknown`.
    pub fn from_code(v: libc::c_int) -> (r: Value)
        ensures
            r == value_of(v),
            well_formed(r),
    {
        match v {
            -2 => Value::Continue,
            -1 => Value::Failure,
            0 => Value::Success,
            1 => Value::Domain,
            2 => Value::Range,
            3 => Value::Fault,
            4 => Value::Invalid,
            5 => Value::Failed,
            6 => Value::Factorization,
            7 => Value::Sanity,
            8 => Value::NoMemory,
            9 => Value::BadFunction,
            10 => Value::RunAway,
            11 => Value::MaxIteration,
            12 => Value::ZeroDiv,
            13 => Value::BadTolerance,
            14 => Value::Tolerance,
            15 => Value::UnderFlow,
            16 => Value::OverFlow,
            17 => Value::Loss,
            18 => Value::Round,
            19 => Value::BadLength,
            20 => Value::NotSquare,
            21 => Value::Singularity,
            22 => Value::Diverge,
            23 => Value::Unsupported,
            24 => Value::Unimplemented,
            25 => Value::Cache,
            26 => Value::Table,
            27 => Value::NoProgress,
            28 => Value::NoProgressJacobian,
            29 => Value::ToleranceF,
            30 => Value::ToleranceX,
            31 => Value::ToleranceG,
            32 => Value::EOF,
            x => Value::Unknown(x),
        }
    }

    /// `Ok(())` for `Success`, else the status as the error.
    pub fn into_result(self) -> (r: GSLResult<()>)
        ensures
            r is Ok <==> self == Value::Success,
            r is Err ==> r->Err_0 == self,
    {
        match self {
            Value::Success => Ok(()),
            e => Err(e),
        }
    }
}

impl From<libc::c_int> for Value {
    fn from(v: libc::c_int) -> (r: Value) {
        Value::from_code(v)
    }
}

impl vstd::std_specs::convert::FromSpecImpl<libc::c_int> for Value {
    open spec fn obeys_from_spec() -> bool {
        true
    }

    open spec fn from_spec(v: libc::c_int) -> Value {
        value_of(v)
    }
}

impl From<Value> for libc::c_int {
    fn from(v: Value) -> (r: libc::c_int) {
        v.to_code()
    }
}

impl vstd::std_specs::convert::FromSpecImpl<Value> for libc::c_int {
    open spec fn obeys_from_spec() -> bool {
        true
    }

    open spec fn from_spec(v: Value) -> libc::c_int {
        code_of(v) as libc::c_int
    }
}

/// Reading a code and writing it back gives the same code, for every code.
pub proof fn lemma_code_round_trip(c: libc::c_int)
    ensures
        code_of(value_of(c)) == c as int,
        well_formed(value_of(c)),
{
}

/// Writing a well-formed status as a code and reading it back gives the same status.
pub proof fn lemma_value_round_trip(v: Value)
    requires
        well_formed(v),
    ensures
        -2147483648 <= code_of(v) <= 2147483647,
        value_of(code_of(v) as libc::c_int) == v,
{
}

} // verus!
